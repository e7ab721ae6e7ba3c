use flex_policy::config::Config;
use flex_policy::sampling::{sample, should_sample};

fn cfg(p: Option<i64>) -> Config {
    Config { ingestion_url: b"http://ingest.example".to_vec(), sampling_percentage: p }
}

#[test]
fn comparison_is_inclusive() {
    assert!(should_sample(1, 1));
    assert!(!should_sample(2, 1));
    assert!(should_sample(100, 100));
    assert!(should_sample(50, 50));
    assert!(!should_sample(51, 50));
    assert!(!should_sample(1, 0));
}

#[test]
fn out_of_range_percentages() {
    // Above 100 behaves as always capture, at or below 0 as never capture.
    assert!(should_sample(100, 1000));
    assert!(!should_sample(1, -5));
}

#[test]
fn percentage_100_always_keeps() {
    let c = cfg(Some(100));
    for _ in 0..1000 {
        assert!(sample(&c));
    }
}

#[test]
fn absent_percentage_defaults_to_always_keep() {
    let c = cfg(None);
    for _ in 0..1000 {
        assert!(sample(&c));
    }
}

#[test]
fn percentage_0_never_keeps() {
    let c = cfg(Some(0));
    for _ in 0..1000 {
        assert!(!sample(&c));
    }
}

#[test]
fn percentage_1_converges_to_one_percent() {
    let c = cfg(Some(1));
    let n = 100_000;
    let mut kept: u32 = 0;
    for _ in 0..n {
        if sample(&c) {
            kept += 1;
        }
    }
    // Mean 1000, standard deviation about 31: this band never fails by chance.
    assert!(kept > 500, "kept only {kept} of {n}");
    assert!(kept < 2000, "kept {kept} of {n}");
}
