//! Configuration values consumed by the core pipeline. Loading them from
//! disk is a caller's concern; here they are plain values with defaults.

use vstd::prelude::*;

verus! {

/// One unit of score or threshold is one millionth: `SCORE_SCALE` stands
/// for the real value `1.0`. Anomaly scores and risk thresholds live in
/// `[0, SCORE_SCALE]`.
pub const SCORE_SCALE: u32 = 1_000_000;

/// Which collectors run, and how often they poll.
#[derive(Clone, Debug)]
pub struct CollectorsConfig {
    pub process: bool,
    pub network: bool,
    pub file_integrity: bool,
    pub privilege: bool,
    /// Process poll interval (seconds)
    pub process_interval_secs: u64,
    /// File scan interval (seconds)
    pub file_interval_secs: u64,
}

impl Default for CollectorsConfig {
    fn default() -> (c: Self)
        ensures
            c.process && c.network && c.file_integrity && c.privilege,
            c.process_interval_secs == 5,
            c.file_interval_secs == 60,
    {
        CollectorsConfig {
            process: true,
            network: true,
            file_integrity: true,
            privilege: true,
            process_interval_secs: 5,
            file_interval_secs: 60,
        }
    }
}

/// Feature extraction parameters.
#[derive(Clone, Debug)]
pub struct FeaturesConfig {
    /// Sliding window capacity, in events
    pub window_events: usize,
    /// Length of every produced feature vector
    pub feature_dim: usize,
}

impl Default for FeaturesConfig {
    fn default() -> (c: Self)
        ensures
            c.window_events == 100,
            c.feature_dim == 64,
    {
        FeaturesConfig { window_events: 100, feature_dim: 64 }
    }
}

/// Risk thresholds in micro-units; a score at or above a threshold reaches
/// that level (inclusive lower bounds).
#[derive(Clone, Debug)]
pub struct RiskConfig {
    /// Scores at or above this are high risk
    pub high_threshold: u32,
    /// Scores at or above this (and below `high_threshold`) are medium risk
    pub medium_threshold: u32,
}

impl Default for RiskConfig {
    fn default() -> (c: Self)
        ensures
            c.high_threshold == 800_000,
            c.medium_threshold == 500_000,
    {
        RiskConfig { high_threshold: 800_000, medium_threshold: 500_000 }
    }
}

/// Uplink reporting: enabled and pointed at an endpoint by server policy.
#[derive(Clone, Debug)]
pub struct UplinkConfig {
    pub enabled: bool,
    /// Endpoint URL when enabled
    pub endpoint: Option<String>,
    /// Report interval seconds when enabled
    pub report_interval_secs: u64,
    /// Stable device identifier; a local default is used when absent
    pub device_id: Option<String>,
}

impl Default for UplinkConfig {
    fn default() -> (c: Self)
        ensures
            !c.enabled,
            c.endpoint is None,
            c.report_interval_secs == 300,
            c.device_id is None,
    {
        UplinkConfig { enabled: false, endpoint: None, report_interval_secs: 300, device_id: None }
    }
}

/// Logging preferences.
#[derive(Clone, Debug)]
pub struct LogConfig {
    pub level: String,
    pub json: bool,
}

impl Default for LogConfig {
    fn default() -> (c: Self)
        ensures
            c.level@ == "info"@,
            c.json,
    {
        LogConfig { level: "info".to_string(), json: true }
    }
}

} // verus!
