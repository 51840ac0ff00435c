//! Cycle completion: scoring, tagging, persistence of every event under
//! the cycle's single score, and the empty cycle.

use dadm_agent::config::{FeaturesConfig, RiskConfig};
use dadm_agent::cycle::complete_cycle;
use dadm_agent::events::{Event, EventKind, ProcessEvent};
use dadm_agent::features::FeatureExtractor;
use dadm_agent::risk::{RiskEngine, RiskLevel};
use dadm_agent::store::SecureStore;

fn process_event(id: &str, ts: i64, name: &str) -> Event {
    Event::from_parts(
        id.to_string(),
        ts,
        EventKind::Process(ProcessEvent {
            pid: 1,
            ppid: None,
            name: name.to_string(),
            exe: None,
            cmdline: None,
            uid: None,
            started_at: None,
        }),
        "process".to_string(),
    )
}

#[test]
fn empty_cycle_completes_with_zero_score() {
    let dir = tempfile::tempdir().unwrap();
    let path = dir.path().join("store.db");
    let mut store = SecureStore::open(path.to_str().unwrap(), b"secret").unwrap();
    let engine = RiskEngine::new(RiskConfig::default());
    let mut extractor = FeatureExtractor::new(FeaturesConfig::default());

    let events: Vec<Event> = Vec::new();
    let vectors = extractor.push(Vec::new());
    assert!(vectors.is_empty());
    let payloads: Vec<String> = Vec::new();
    let result = complete_cycle(&engine, &mut store, &events, &payloads, &vectors, 0).unwrap();
    assert_eq!(result.score, 0);
    assert_eq!(result.level, RiskLevel::Low);
    assert_eq!(result.event_id, "");
    assert_eq!(result.ts, 0);
}

#[test]
fn cycle_persists_every_event_with_the_cycle_score() {
    let dir = tempfile::tempdir().unwrap();
    let path = dir.path().join("store.db");
    let mut store = SecureStore::open(path.to_str().unwrap(), b"secret").unwrap();
    let engine = RiskEngine::new(RiskConfig::default());
    let mut extractor = FeatureExtractor::new(FeaturesConfig::default());

    let events = vec![
        process_event("a", 100, "one"),
        process_event("b", 200, "two"),
    ];
    let payloads = vec!["payload-a".to_string(), "payload-b".to_string()];
    let vectors = extractor.push(vec![
        process_event("a", 100, "one"),
        process_event("b", 200, "two"),
    ]);
    assert_eq!(vectors.len(), 1);

    let result =
        complete_cycle(&engine, &mut store, &events, &payloads, &vectors, 900_000).unwrap();
    assert_eq!(result.score, 900_000);
    assert_eq!(result.level, RiskLevel::High);
    assert_eq!(result.event_id, "b");

    let (ts_a, payload_a, score_a) = store.get_event("a").unwrap().unwrap();
    assert_eq!((ts_a, payload_a.as_str(), score_a), (100, "payload-a", Some(900_000)));
    let (ts_b, payload_b, score_b) = store.get_event("b").unwrap().unwrap();
    assert_eq!((ts_b, payload_b.as_str(), score_b), (200, "payload-b", Some(900_000)));
}

#[test]
fn cycle_without_vector_scores_zero_with_empty_id() {
    let dir = tempfile::tempdir().unwrap();
    let path = dir.path().join("store.db");
    let mut store = SecureStore::open(path.to_str().unwrap(), b"secret").unwrap();
    let engine = RiskEngine::new(RiskConfig::default());

    // events were collected but the extractor produced no vector
    let events = vec![process_event("x", 10, "x")];
    let payloads = vec!["px".to_string()];
    let vectors = Vec::new();
    let result = complete_cycle(&engine, &mut store, &events, &payloads, &vectors, 0).unwrap();
    assert_eq!(result.event_id, "");
    assert_eq!(result.ts, 0);
    assert_eq!(result.level, RiskLevel::Low);
    let (_, payload, score) = store.get_event("x").unwrap().unwrap();
    assert_eq!(payload, "px");
    assert_eq!(score, Some(0));
}
