use snowfall::config::{Config, ConfigError, SpawnModel};

fn bernoulli(chance_milli: u32, cluster_size: u16) -> SpawnModel {
    SpawnModel::BernoulliCluster { chance_milli, cluster_size }
}

#[test]
fn valid_config_keeps_parameters() {
    let c = Config::new(80, 24, 300, 2000, bernoulli(300, 3), 86400000, 16, '*').unwrap();
    assert_eq!(c.width, 80);
    assert_eq!(c.height, 24);
    assert_eq!(c.spawn_interval_ms, 300);
    assert_eq!(c.fall_speed_milli, 2000);
    assert_eq!(c.model, bernoulli(300, 3));
    assert_eq!(c.run_duration_ms, 86400000);
    assert_eq!(c.frame_budget_ms, 16);
    assert_eq!(c.glyph, '*');
}

#[test]
fn zero_width_rejected() {
    let r = Config::new(0, 24, 0, 1000, bernoulli(300, 3), 1000, 16, '*');
    assert_eq!(r, Err(ConfigError::ZeroWidth));
}

#[test]
fn zero_height_rejected() {
    let r = Config::new(80, 0, 0, 1000, bernoulli(300, 3), 1000, 16, '*');
    assert_eq!(r, Err(ConfigError::ZeroHeight));
}

#[test]
fn excessive_fall_speed_rejected() {
    let r = Config::new(80, 24, 0, 1_000_001, bernoulli(300, 3), 1000, 16, '*');
    assert_eq!(r, Err(ConfigError::FallSpeedTooFast));
}

#[test]
fn chance_above_certainty_rejected() {
    let r = Config::new(80, 24, 0, 1000, bernoulli(1001, 3), 1000, 16, '*');
    assert_eq!(r, Err(ConfigError::ChanceOutOfRange));
    let r = Config::new(80, 24, 0, 1000, SpawnModel::PerColumn { chance_milli: 1001 }, 1000, 16, '*');
    assert_eq!(r, Err(ConfigError::ChanceOutOfRange));
}

#[test]
fn zero_cluster_rejected() {
    let r = Config::new(80, 24, 0, 1000, bernoulli(300, 0), 1000, 16, '*');
    assert_eq!(r, Err(ConfigError::ZeroClusterSize));
}

#[test]
fn non_positive_std_rejected() {
    let model = SpawnModel::GaussianCount { mean_milli: 2000, std_milli: 0 };
    let r = Config::new(80, 24, 0, 1000, model, 1000, 16, '*');
    assert_eq!(r, Err(ConfigError::NonPositiveStd));
    let model = SpawnModel::GaussianCount { mean_milli: 2000, std_milli: -5 };
    let r = Config::new(80, 24, 0, 1000, model, 1000, 16, '*');
    assert_eq!(r, Err(ConfigError::NonPositiveStd));
}
