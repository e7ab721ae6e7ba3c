//! The filter's startup configuration, supplied once by the host and treated
//! as immutable for the process lifetime.

use vstd::prelude::*;

verus! {

/// The ingestion endpoint and the optional sampling percentage.
pub struct Config {
    /// The ingestion service endpoint the export POST goes to.
    pub ingestion_url: Vec<u8>,
    /// The sampling percentage; absent means 100, capture everything.
    pub sampling_percentage: Option<i64>,
}

impl Config {
    /// The percentage the Sampling Gate compares against: 100 when absent.
    pub open spec fn spec_effective_percentage(&self) -> int {
        match self.sampling_percentage {
            Some(p) => p as int,
            None => 100,
        }
    }

    /// The configured sampling percentage, defaulting to 100 when absent.
    pub fn effective_percentage(&self) -> (r: i64)
        ensures
            r as int == self.spec_effective_percentage(),
    {
        match self.sampling_percentage {
            Some(p) => p,
            None => 100,
        }
    }
}

} // verus!
