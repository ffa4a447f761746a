use fairview::config::{Config, ConfigError};

#[test]
fn test_default_config_is_valid() {
    let config = Config::default();
    assert!(config.validate().is_ok());
}

#[test]
fn test_invalid_weights() {
    let mut config = Config::default();
    config.weights.process_risk = 500;
    assert!(config.validate().is_err());
}

#[test]
fn test_invalid_threshold() {
    let mut config = Config::default();
    config.scan.risk_threshold = 1500;
    assert!(config.validate().is_err());
}

#[test]
fn weight_sum_error_is_reported_first() {
    let mut config = Config::default();
    config.weights.process_risk = 500;
    config.scan.risk_threshold = 1500;
    assert_eq!(config.validate(), Err(ConfigError::InvalidWeightSum));
}

#[test]
fn threshold_error_variant() {
    let mut config = Config::default();
    config.scan.risk_threshold = 1001;
    assert_eq!(config.validate(), Err(ConfigError::InvalidRiskThreshold));
}

#[test]
fn weight_sum_tolerance_is_ten_permille() {
    let mut config = Config::default();
    // 0.99 and 1.01 are inside the tolerance, 0.989 and 1.011 outside.
    config.weights.process_risk = 290;
    assert!(config.validate().is_ok());
    config.weights.process_risk = 310;
    assert!(config.validate().is_ok());
    config.weights.process_risk = 289;
    assert!(config.validate().is_err());
    config.weights.process_risk = 311;
    assert!(config.validate().is_err());
}

#[test]
fn default_config_values() {
    let config = Config::default();
    assert_eq!(config.scan.interval_seconds, 30);
    assert_eq!(config.scan.risk_threshold, 500);
    assert_eq!(config.scan.interview_type, "coding");
    assert_eq!(config.weights.process_risk, 300);
    assert_eq!(config.weights.overlay_risk, 200);
    assert_eq!(config.weights.audio_risk, 100);
    assert_eq!(config.weights.hardware_risk, 150);
    assert_eq!(config.weights.vm_risk, 250);
    assert_eq!(config.thresholds.process_threshold, 600);
    assert_eq!(config.whitelist.processes.len(), 5);
    assert_eq!(config.whitelist.directories.len(), 4);
    assert!(config.monitoring.collect_baseline);
}

#[test]
fn error_messages() {
    assert_eq!(
        ConfigError::InvalidWeightSum.message(),
        "Weights must sum to 1.0"
    );
    assert_eq!(
        ConfigError::InvalidRiskThreshold.message(),
        "risk_threshold must be between 0.0 and 1.0"
    );
}
