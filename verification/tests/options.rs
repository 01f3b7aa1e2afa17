use dns_bench::cli::{Cli, TestMode};
use dns_bench::dispatch::AdmissionStrategy;
use dns_bench::dns::TargetAddr;

fn options(count: u64, timeout: u64) -> Cli {
    Cli {
        target: TargetAddr::V4 { octets: 0xC0A8_0201, port: 53 },
        domain: "example.com".to_string(),
        count,
        timeout,
        workers: 10,
        rate: None,
        mode: TestMode::SameDomain,
    }
}

#[test]
fn validate_accepts_positive_count_and_timeout() {
    assert_eq!(options(500_000, 5).validate(), Ok(()));
    assert_eq!(options(1, 1).validate(), Ok(()));
    assert_eq!(options(u64::MAX, u64::MAX).validate(), Ok(()));
}

#[test]
fn validate_rejects_a_count_of_zero() {
    assert_eq!(options(0, 5).validate(), Err("Count must be greater than 0".to_string()));
}

#[test]
fn validate_rejects_a_timeout_of_zero() {
    assert_eq!(options(10, 0).validate(), Err("Timeout must be greater than 0".to_string()));
}

#[test]
fn validate_checks_the_count_first() {
    assert_eq!(options(0, 0).validate(), Err("Count must be greater than 0".to_string()));
}

#[test]
fn validate_ignores_the_other_options() {
    let mut cli = options(3, 3);
    cli.workers = 0;
    cli.domain = String::new();
    cli.mode = TestMode::RandomSubdomain;
    assert_eq!(cli.validate(), Ok(()));
}

#[test]
fn test_modes_are_distinct() {
    assert_ne!(TestMode::SameDomain, TestMode::RandomSubdomain);
    let mode = TestMode::RandomSubdomain;
    let copy = mode;
    assert_eq!(mode, copy);
}

#[test]
fn strategy_is_bounded_by_workers_unless_a_rate_is_given() {
    let mut cli = options(10, 5);
    assert_eq!(cli.strategy(), AdmissionStrategy::Concurrency { max_in_flight: 10 });
    cli.workers = 0;
    assert_eq!(cli.strategy(), AdmissionStrategy::Concurrency { max_in_flight: 0 });
    cli.rate = Some(250);
    assert_eq!(cli.strategy(), AdmissionStrategy::Rate { rate: 250 });
    cli.rate = Some(0);
    assert_eq!(cli.strategy(), AdmissionStrategy::Rate { rate: 0 });
}
