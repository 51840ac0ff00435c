//! Risk engine behavior: threshold boundaries, monotone levels, naming.
//! Scores are micro-units: 1_000_000 stands for 1.0.

use dadm_agent::config::RiskConfig;
use dadm_agent::risk::{RiskEngine, RiskLevel};

fn default_config() -> RiskConfig {
    RiskConfig::default()
}

#[test]
fn risk_engine_thresholds() {
    let config = default_config();
    let engine = RiskEngine::new(config);
    let r_low = engine.score("e1".into(), 300_000, 0);
    let r_med = engine.score("e2".into(), 600_000, 0);
    let r_high = engine.score("e3".into(), 900_000, 0);
    assert_eq!(r_low.level, RiskLevel::Low);
    assert_eq!(r_med.level, RiskLevel::Medium);
    assert_eq!(r_high.level, RiskLevel::High);
}

#[test]
fn threshold_boundaries_are_inclusive() {
    let config = RiskConfig { high_threshold: 800_000, medium_threshold: 500_000 };
    assert_eq!(RiskLevel::from_score(790_000, &config), RiskLevel::Medium);
    assert_eq!(RiskLevel::from_score(800_000, &config), RiskLevel::High);
    assert_eq!(RiskLevel::from_score(499_999, &config), RiskLevel::Low);
    assert_eq!(RiskLevel::from_score(500_000, &config), RiskLevel::Medium);
}

fn rank(l: RiskLevel) -> u32 {
    match l {
        RiskLevel::Low => 0,
        RiskLevel::Medium => 1,
        RiskLevel::High => 2,
    }
}

#[test]
fn levels_are_monotone_in_score() {
    let config = default_config();
    let scores = [0, 100_000, 499_999, 500_000, 650_000, 799_999, 800_000, 1_000_000];
    for w in scores.windows(2) {
        let a = rank(RiskLevel::from_score(w[0], &config));
        let b = rank(RiskLevel::from_score(w[1], &config));
        assert!(a <= b, "level must not drop when the score rises");
    }
}

#[test]
fn score_carries_inputs_through() {
    let engine = RiskEngine::new(default_config());
    let r = engine.score("abc".into(), 123_456, 777);
    assert_eq!(r.event_id, "abc");
    assert_eq!(r.score, 123_456);
    assert_eq!(r.ts, 777);
    assert_eq!(r.level, RiskLevel::Low);
}

#[test]
fn level_names() {
    assert_eq!(RiskLevel::Low.as_str(), "low");
    assert_eq!(RiskLevel::Medium.as_str(), "medium");
    assert_eq!(RiskLevel::High.as_str(), "high");
}
