//! Behavioral analytics and secure persistence pipeline for an endpoint
//! telemetry agent: a bounded sliding-window feature extractor, a
//! deterministic risk-scoring engine, an authenticated-encryption event
//! store, and the core of the detection cycle that sequences them.
//!
//! Anomaly scores, thresholds and feature values are fixed-point integers:
//! scores and thresholds in micro-units (`1_000_000` stands for `1.0`),
//! feature values likewise.

pub mod behavioral;
pub mod collectors;
pub mod config;
pub mod cycle;
pub mod events;
pub mod features;
pub mod risk;
pub mod store;
pub mod uplink;

pub use behavioral::BehavioralStats;
pub use collectors::FileIntegrityCollector;
pub use collectors::PrivilegeCollector;
pub use config::CollectorsConfig;
pub use config::FeaturesConfig;
pub use config::LogConfig;
pub use config::RiskConfig;
pub use config::UplinkConfig;
pub use events::Event;
pub use events::EventKind;
pub use events::FileIntegrityChange;
pub use events::FileIntegrityEvent;
pub use events::NetworkEvent;
pub use events::PrivilegeEvent;
pub use events::ProcessEvent;
pub use features::FeatureExtractor;
pub use features::FeatureVector;
pub use risk::RiskEngine;
pub use risk::RiskLevel;
pub use risk::RiskResult;
pub use store::SecureStore;
pub use store::StoreError;
