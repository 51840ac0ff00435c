//! Risk scoring: a stateless comparison of an anomaly score against two
//! configured thresholds, yielding a categorical level.

use vstd::prelude::*;
use crate::config::RiskConfig;

verus! {

#[derive(Clone, Copy, Debug, PartialEq, Eq, Structural)]
pub enum RiskLevel {
    Low,
    Medium,
    High,
}

/// Position of a level in the order Low < Medium < High.
pub open spec fn level_rank(l: RiskLevel) -> int {
    match l {
        RiskLevel::Low => 0,
        RiskLevel::Medium => 1,
        RiskLevel::High => 2,
    }
}

/// The level a score reaches under the given thresholds: thresholds are
/// inclusive lower bounds, checked from high to medium.
pub open spec fn spec_level(score: u32, config: RiskConfig) -> RiskLevel {
    if score >= config.high_threshold {
        RiskLevel::High
    } else if score >= config.medium_threshold {
        RiskLevel::Medium
    } else {
        RiskLevel::Low
    }
}

impl RiskLevel {
    /// Categorize a micro-unit score: at or above `high_threshold` is High,
    /// else at or above `medium_threshold` is Medium, else Low.
    pub fn from_score(score: u32, config: &RiskConfig) -> (l: RiskLevel)
        ensures
            l == spec_level(score, *config),
    {
        if score >= config.high_threshold {
            RiskLevel::High
        } else if score >= config.medium_threshold {
            RiskLevel::Medium
        } else {
            RiskLevel::Low
        }
    }

    /// The level's lower-case name, as reported upstream.
    pub fn as_str(&self) -> (r: &'static str)
        ensures
            *self == RiskLevel::Low ==> r@ == "low"@,
            *self == RiskLevel::Medium ==> r@ == "medium"@,
            *self == RiskLevel::High ==> r@ == "high"@,
    {
        match self {
            RiskLevel::Low => "low",
            RiskLevel::Medium => "medium",
            RiskLevel::High => "high",
        }
    }
}

/// For fixed thresholds the level is monotone in the score: a lower score
/// never reaches a strictly higher level.
pub proof fn lemma_level_monotone(config: RiskConfig, score1: u32, score2: u32)
    requires
        score1 < score2,
    ensures
        level_rank(spec_level(score1, config)) <= level_rank(spec_level(score2, config)),
{
}

/// Risk outcome for one cycle, tagged with the id and timestamp of the
/// feature vector that was scored.
#[derive(Clone, Debug)]
pub struct RiskResult {
    pub event_id: String,
    /// Anomaly score in micro-units, in `[0, SCORE_SCALE]`
    pub score: u32,
    pub level: RiskLevel,
    pub ts: i64,
}

/// Stateless scoring engine around an immutable configuration.
pub struct RiskEngine {
    config: RiskConfig,
}

impl RiskEngine {
    /// The thresholds this engine was built with.
    pub closed spec fn spec_config(&self) -> RiskConfig {
        self.config
    }

    pub fn new(config: RiskConfig) -> (e: Self)
        ensures
            e.spec_config() == config,
    {
        RiskEngine { config }
    }

    /// Attach a level to a raw score: the result carries the inputs
    /// unchanged and the level the score reaches under the configured
    /// thresholds. Identical inputs always yield identical output.
    pub fn score(&self, event_id: String, raw_score: u32, ts: i64) -> (r: RiskResult)
        ensures
            r.event_id == event_id,
            r.score == raw_score,
            r.ts == ts,
            r.level == spec_level(raw_score, self.spec_config()),
    {
        let level = RiskLevel::from_score(raw_score, &self.config);
        RiskResult { event_id, score: raw_score, level, ts }
    }

    pub fn config(&self) -> (c: &RiskConfig)
        ensures
            *c == self.spec_config(),
    {
        &self.config
    }
}

} // verus!
