//! A traffic-mirroring filter core: captures HTTP request/response metadata
//! and bodies, samples which transactions to export, renders each captured
//! transaction as a JSON batch document, and classifies the outcome of the
//! best-effort export call.
//!
//! All data flows through the library as plain byte vectors; the host glue
//! (proxy phase plumbing, the actual POST) lives outside and hands in plain
//! values.

pub mod batch;
pub mod capture;
pub mod config;
pub mod export;
pub mod headers;
pub mod json;
pub mod pipeline;
pub mod sampling;
pub mod text;
