use asr_core::retry_delay_ms;
use asr_core::RetryConfig;

#[test]
fn test_retry_config_default() {
    let cfg = RetryConfig::default();
    assert_eq!(cfg.max_retries, 2);
    assert_eq!(cfg.base_delay_ms, 500);
    assert_eq!(cfg.timeout_ms, 6000);
}

#[test]
fn test_retry_delay_schedule_default() {
    let cfg = RetryConfig::default();
    assert_eq!(retry_delay_ms(&cfg, 0), 0);
    assert_eq!(retry_delay_ms(&cfg, 1), 500);
    assert_eq!(retry_delay_ms(&cfg, 2), 1000);
}

#[test]
fn test_retry_delay_doubles() {
    let cfg = RetryConfig { max_retries: 6, base_delay_ms: 100, timeout_ms: 1000 };
    assert_eq!(retry_delay_ms(&cfg, 0), 0);
    assert_eq!(retry_delay_ms(&cfg, 1), 100);
    assert_eq!(retry_delay_ms(&cfg, 2), 200);
    assert_eq!(retry_delay_ms(&cfg, 3), 400);
    assert_eq!(retry_delay_ms(&cfg, 4), 800);
    assert_eq!(retry_delay_ms(&cfg, 5), 1600);
    assert_eq!(retry_delay_ms(&cfg, 6), 3200);
}
