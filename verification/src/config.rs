//! The immutable run configuration and its validation.
//!
//! Probabilities are fixed-point per-mille values (`1000` is certainty),
//! speeds are milli-rows per second, and the Gaussian spawn parameters
//! are milli-counts; all durations are millisecond counts. A
//! configuration is validated once, at construction, and the simulation
//! never revalidates it.

use vstd::prelude::*;

use crate::particle::VEL_MAX_MILLI;

verus! {

/// How new particles appear on a spawn tick. Exactly one model is
/// configured for a run.
#[derive(Clone, Copy, Debug, PartialEq, Eq, Structural)]
pub enum SpawnModel {
    /// With probability `chance_milli / 1000`, spawn a cluster whose
    /// size is uniform in `[1, cluster_size]`, each member at an
    /// independently uniform column.
    BernoulliCluster { chance_milli: u32, cluster_size: u16 },
    /// Spawn `max(1, round(sample))` particles, where `sample` is drawn
    /// from a normal distribution with the given milli-mean and
    /// milli-standard-deviation, each at a uniform column.
    GaussianCount { mean_milli: i64, std_milli: i64 },
    /// Each column independently spawns one particle with probability
    /// `chance_milli / 1000`, at that column plus a uniform offset in
    /// `[-0.5, 0.5)` of a cell.
    PerColumn { chance_milli: u32 },
}

/// Why a configuration was rejected.
#[derive(Clone, Copy, Debug, PartialEq, Eq, Structural)]
pub enum ConfigError {
    /// The screen has no columns.
    ZeroWidth,
    /// The screen has no rows.
    ZeroHeight,
    /// The fall speed exceeds what the fixed-point model admits.
    FallSpeedTooFast,
    /// A probability is above certainty (one thousand per-mille).
    ChanceOutOfRange,
    /// The Bernoulli model cannot spawn an empty cluster.
    ZeroClusterSize,
    /// The Gaussian model needs a positive standard deviation.
    NonPositiveStd,
}

/// The immutable parameters of one run.
#[derive(Clone, Copy, Debug, PartialEq, Eq, Structural)]
pub struct Config {
    /// Screen width in columns.
    pub width: u16,
    /// Screen height in rows.
    pub height: u16,
    /// Minimum simulated time between spawn evaluations, in milliseconds.
    pub spawn_interval_ms: u64,
    /// Fall speed of new particles, in milli-rows per second.
    pub fall_speed_milli: u32,
    /// The configured spawn model.
    pub model: SpawnModel,
    /// Total simulated run time before automatic termination, in
    /// milliseconds.
    pub run_duration_ms: u64,
    /// Target duration of one tick, in milliseconds.
    pub frame_budget_ms: u64,
    /// The character drawn for every particle.
    pub glyph: char,
}

/// What `Config::new` rejects, in the order it checks: the first
/// violated rule names the error, `None` means the parameters are valid.
pub open spec fn spec_config_check(
    width: u16,
    height: u16,
    fall_speed_milli: u32,
    model: SpawnModel,
) -> Option<ConfigError> {
    if width == 0 {
        Some(ConfigError::ZeroWidth)
    } else if height == 0 {
        Some(ConfigError::ZeroHeight)
    } else if fall_speed_milli > VEL_MAX_MILLI as u32 {
        Some(ConfigError::FallSpeedTooFast)
    } else {
        match model {
            SpawnModel::BernoulliCluster { chance_milli, cluster_size } => {
                if chance_milli > 1000 {
                    Some(ConfigError::ChanceOutOfRange)
                } else if cluster_size == 0 {
                    Some(ConfigError::ZeroClusterSize)
                } else {
                    None
                }
            },
            SpawnModel::GaussianCount { mean_milli, std_milli } => {
                if std_milli <= 0 {
                    Some(ConfigError::NonPositiveStd)
                } else {
                    None
                }
            },
            SpawnModel::PerColumn { chance_milli } => {
                if chance_milli > 1000 {
                    Some(ConfigError::ChanceOutOfRange)
                } else {
                    None
                }
            },
        }
    }
}

impl Config {
    /// A validated configuration: the screen is non-empty, the fall
    /// speed fits the fixed-point model, probabilities are at most
    /// certainty, a cluster is non-empty and a standard deviation
    /// positive.
    pub open spec fn wf(self) -> bool {
        spec_config_check(self.width, self.height, self.fall_speed_milli, self.model) is None
    }

    /// Validates the parameters and builds the configuration. Returns
    /// the first violated rule, exactly as `spec_config_check` names
    /// it, and a configuration carrying the parameters unchanged
    /// otherwise.
    pub fn new(
        width: u16,
        height: u16,
        spawn_interval_ms: u64,
        fall_speed_milli: u32,
        model: SpawnModel,
        run_duration_ms: u64,
        frame_budget_ms: u64,
        glyph: char,
    ) -> (r: Result<Config, ConfigError>)
        ensures
            match r {
                Ok(c) => spec_config_check(width, height, fall_speed_milli, model) is None
                    && c == (Config {
                    width,
                    height,
                    spawn_interval_ms,
                    fall_speed_milli,
                    model,
                    run_duration_ms,
                    frame_budget_ms,
                    glyph,
                }) && c.wf(),
                Err(e) => Some(e) == spec_config_check(width, height, fall_speed_milli, model),
            },
    {
        if width == 0 {
            return Err(ConfigError::ZeroWidth);
        }
        if height == 0 {
            return Err(ConfigError::ZeroHeight);
        }
        if fall_speed_milli > 1_000_000 {
            return Err(ConfigError::FallSpeedTooFast);
        }
        match model {
            SpawnModel::BernoulliCluster { chance_milli, cluster_size } => {
                if chance_milli > 1000 {
                    return Err(ConfigError::ChanceOutOfRange);
                }
                if cluster_size == 0 {
                    return Err(ConfigError::ZeroClusterSize);
                }
            },
            SpawnModel::GaussianCount { mean_milli: _, std_milli } => {
                if std_milli <= 0 {
                    return Err(ConfigError::NonPositiveStd);
                }
            },
            SpawnModel::PerColumn { chance_milli } => {
                if chance_milli > 1000 {
                    return Err(ConfigError::ChanceOutOfRange);
                }
            },
        }
        Ok(
            Config {
                width,
                height,
                spawn_interval_ms,
                fall_speed_milli,
                model,
                run_duration_ms,
                frame_budget_ms,
                glyph,
            },
        )
    }
}

} // verus!
