use iron_diesel_middleware::config::{checkout_outcome, CheckoutMode, PoolConfig, PoolError};
use iron_diesel_middleware::config::{DEFAULT_MAX_SIZE, DEFAULT_TIMEOUT_MS};

#[test]
fn config_accepts_consistent_parameters() {
    let c = PoolConfig::new(1, 2, 100, CheckoutMode::Block).unwrap();
    assert_eq!(c.min_idle, 1);
    assert_eq!(c.max_size, 2);
    assert_eq!(c.timeout_ms, 100);
    assert_eq!(c.mode, CheckoutMode::Block);
    assert!(c.is_valid());
}

#[test]
fn config_accepts_equal_min_and_max() {
    assert!(PoolConfig::new(3, 3, 1, CheckoutMode::FailFast).is_ok());
    assert!(PoolConfig::new(0, 1, 1, CheckoutMode::FailFast).is_ok());
}

#[test]
fn config_rejects_min_above_max() {
    assert_eq!(PoolConfig::new(3, 2, 100, CheckoutMode::Block), Err(PoolError::ConfigurationError));
}

#[test]
fn config_accepts_zero_max() {
    let c = PoolConfig::new(0, 0, 100, CheckoutMode::Block).unwrap();
    assert_eq!(c.max_size, 0);
    assert!(c.is_valid());
}

#[test]
fn config_rejects_min_above_zero_max() {
    assert_eq!(PoolConfig::new(1, 0, 100, CheckoutMode::Block), Err(PoolError::ConfigurationError));
}

#[test]
fn config_rejects_zero_timeout() {
    assert_eq!(PoolConfig::new(1, 2, 0, CheckoutMode::Block), Err(PoolError::ConfigurationError));
}

#[test]
fn config_largest_sizes() {
    let c = PoolConfig::new(u32::MAX, u32::MAX, u64::MAX, CheckoutMode::Block).unwrap();
    assert!(c.is_valid());
}

#[test]
fn default_config_matches_constants() {
    let c = PoolConfig::default_config();
    assert_eq!(c.min_idle, DEFAULT_MAX_SIZE);
    assert_eq!(c.max_size, 10);
    assert_eq!(c.timeout_ms, 30000);
    assert_eq!(DEFAULT_TIMEOUT_MS, 30000);
    assert_eq!(c.mode, CheckoutMode::Block);
    assert!(c.is_valid());
}

#[test]
fn invalid_config_is_reported_invalid() {
    let c = PoolConfig { min_idle: 5, max_size: 4, timeout_ms: 10, mode: CheckoutMode::Block };
    assert!(!c.is_valid());
}

#[test]
fn mode_failures() {
    assert_eq!(CheckoutMode::Block.failure(), PoolError::Timeout);
    assert_eq!(CheckoutMode::FailFast.failure(), PoolError::PoolExhausted);
}

#[test]
fn outcome_of_a_lease() {
    assert_eq!(checkout_outcome(CheckoutMode::Block, Some(7u32)), Ok(7));
    assert_eq!(checkout_outcome(CheckoutMode::FailFast, Some(8u32)), Ok(8));
}

#[test]
fn outcome_without_a_lease() {
    assert_eq!(checkout_outcome::<u32>(CheckoutMode::Block, None), Err(PoolError::Timeout));
    assert_eq!(checkout_outcome::<u32>(CheckoutMode::FailFast, None), Err(PoolError::PoolExhausted));
}
