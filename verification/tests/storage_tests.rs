//! Secure store behavior: round trip, upsert, pruning, tamper rejection.

use base64::Engine;
use dadm_agent::store::{derive_key, SecureStore, StoreError};

#[test]
fn storage_roundtrip() {
    let dir = tempfile::tempdir().unwrap();
    let path = dir.path().join("store.db");
    let mut store = SecureStore::open(path.to_str().unwrap(), b"test-secret").unwrap();
    store
        .insert_event("id1", 123, "process", r#"{"x":1}"#, Some(500_000))
        .unwrap();
    let out = store.get_event("id1").unwrap();
    assert!(out.is_some());
    let (ts, payload, score) = out.unwrap();
    assert_eq!(ts, 123);
    assert_eq!(payload, r#"{"x":1}"#);
    assert_eq!(score, Some(500_000));
}

#[test]
fn get_of_absent_id_is_none() {
    let dir = tempfile::tempdir().unwrap();
    let path = dir.path().join("store.db");
    let store = SecureStore::open(path.to_str().unwrap(), b"s").unwrap();
    assert_eq!(store.get_event("missing").unwrap(), None);
}

#[test]
fn upsert_keeps_only_second_payload() {
    let dir = tempfile::tempdir().unwrap();
    let path = dir.path().join("store.db");
    let mut store = SecureStore::open(path.to_str().unwrap(), b"secret").unwrap();
    store.insert_event("e1", 1, "process", "first", None).unwrap();
    store.insert_event("e1", 2, "process", "second", Some(10)).unwrap();
    let (ts, payload, score) = store.get_event("e1").unwrap().unwrap();
    assert_eq!(ts, 2);
    assert_eq!(payload, "second");
    assert_eq!(score, Some(10));
}

#[test]
fn prune_deletes_strictly_older_records() {
    let dir = tempfile::tempdir().unwrap();
    let path = dir.path().join("store.db");
    let mut store = SecureStore::open(path.to_str().unwrap(), b"secret").unwrap();
    store.insert_event("a", 10, "process", "pa", None).unwrap();
    store.insert_event("b", 20, "process", "pb", None).unwrap();
    store.insert_event("c", 30, "process", "pc", None).unwrap();
    let removed = store.prune_before(20).unwrap();
    assert_eq!(removed, 1);
    assert!(store.get_event("a").unwrap().is_none());
    assert!(store.get_event("b").unwrap().is_some());
    assert!(store.get_event("c").unwrap().is_some());
}

#[test]
fn reopening_with_same_secret_reads_old_records() {
    let dir = tempfile::tempdir().unwrap();
    let path = dir.path().join("store.db");
    {
        let mut store = SecureStore::open(path.to_str().unwrap(), b"stable").unwrap();
        store.insert_event("e", 5, "network", "payload", None).unwrap();
    }
    let store = SecureStore::open(path.to_str().unwrap(), b"stable").unwrap();
    let (ts, payload, _) = store.get_event("e").unwrap().unwrap();
    assert_eq!(ts, 5);
    assert_eq!(payload, "payload");
}

#[test]
fn wrong_secret_fails_decryption() {
    let dir = tempfile::tempdir().unwrap();
    let path = dir.path().join("store.db");
    {
        let mut store = SecureStore::open(path.to_str().unwrap(), b"right").unwrap();
        store.insert_event("e", 5, "network", "payload", None).unwrap();
    }
    let store = SecureStore::open(path.to_str().unwrap(), b"wrong").unwrap();
    assert!(store.get_event("e").is_err());
}

#[test]
fn key_derivation_is_deterministic_and_one_way() {
    let k1 = derive_key(b"secret");
    let k2 = derive_key(b"secret");
    let k3 = derive_key(b"other");
    assert_eq!(k1, k2);
    assert_ne!(k1, k3);
    assert_eq!(k1.len(), 32);
    assert_ne!(k1.as_slice(), b"secret");
}

#[test]
fn open_at_an_impossible_path_is_a_database_error() {
    let err = match SecureStore::open("/nonexistent-dir/sub/store.db", b"s") {
        Ok(_) => panic!("opening under a missing directory must fail"),
        Err(e) => e,
    };
    assert_eq!(err, StoreError::Database);
}

#[test]
fn wrong_secret_is_a_crypto_error() {
    let dir = tempfile::tempdir().unwrap();
    let path = dir.path().join("store.db");
    {
        let mut store = SecureStore::open(path.to_str().unwrap(), b"right").unwrap();
        store.insert_event("e", 5, "network", "payload", None).unwrap();
    }
    let store = SecureStore::open(path.to_str().unwrap(), b"wrong").unwrap();
    assert_eq!(store.get_event("e").unwrap_err(), StoreError::Crypto);
}

#[test]
fn garbled_blob_text_is_an_encoding_error() {
    let dir = tempfile::tempdir().unwrap();
    let path = dir.path().join("store.db");
    {
        let mut store = SecureStore::open(path.to_str().unwrap(), b"secret").unwrap();
        store.insert_event("e1", 1, "process", "data", None).unwrap();
    }
    let conn = rusqlite::Connection::open(path.to_str().unwrap()).unwrap();
    conn.execute(
        "UPDATE events SET payload_enc = 'not base64 at all!!!' WHERE id = 'e1'",
        [],
    )
    .unwrap();
    drop(conn);
    let store = SecureStore::open(path.to_str().unwrap(), b"secret").unwrap();
    assert_eq!(store.get_event("e1").unwrap_err(), StoreError::Encoding);
}

#[test]
fn tampering_any_bit_of_the_blob_is_rejected() {
    let dir = tempfile::tempdir().unwrap();
    let path = dir.path().join("store.db");
    let mut store = SecureStore::open(path.to_str().unwrap(), b"secret").unwrap();
    store.insert_event("e1", 1, "process", r#"{"k":"v"}"#, Some(1)).unwrap();
    drop(store);

    let conn = rusqlite::Connection::open(path.to_str().unwrap()).unwrap();
    let blob: String = conn
        .query_row("SELECT payload_enc FROM events WHERE id = 'e1'", [], |row| row.get(0))
        .unwrap();
    let raw = base64::engine::general_purpose::STANDARD.decode(&blob).unwrap();

    for byte_index in 0..raw.len() {
        for bit in 0..8u8 {
            let mut bad = raw.clone();
            bad[byte_index] ^= 1 << bit;
            let bad_blob = base64::engine::general_purpose::STANDARD.encode(&bad);
            conn.execute(
                "UPDATE events SET payload_enc = ?1 WHERE id = 'e1'",
                (bad_blob.as_str(),),
            )
            .unwrap();
            let reopened = SecureStore::open(path.to_str().unwrap(), b"secret").unwrap();
            assert!(
                reopened.get_event("e1").is_err(),
                "a flipped bit must be rejected, never decrypted"
            );
        }
    }
}
