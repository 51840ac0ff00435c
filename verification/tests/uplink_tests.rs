//! Uplink helpers: node id scheme, endpoint normalization, the fixed
//! reporting window.

use dadm_agent::uplink::{endpoint_base, node_id_of, risk_window_start};

#[test]
fn device_ids_gain_the_did_scheme_once() {
    assert_eq!(node_id_of("test-device"), "did:test-device");
    assert_eq!(node_id_of("did:test-device"), "did:test-device");
    assert_eq!(node_id_of(""), "did:");
    assert_eq!(node_id_of("did"), "did:did");
}

#[test]
fn endpoints_lose_trailing_slashes() {
    assert_eq!(endpoint_base("http://127.0.0.1:9999/"), "http://127.0.0.1:9999");
    assert_eq!(endpoint_base("http://h/api///"), "http://h/api");
    assert_eq!(endpoint_base("http://h"), "http://h");
    assert_eq!(endpoint_base(""), "");
    assert_eq!(endpoint_base("///"), "");
}

#[test]
fn risk_window_is_sixty_seconds_before_the_result() {
    assert_eq!(risk_window_start(123_456), 123_456 - 60_000);
    assert_eq!(risk_window_start(0), -60_000);
}
