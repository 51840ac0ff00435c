//! Encrypted, indexed, prunable event log keyed by event id.
//!
//! Payloads are sealed with AES-256-GCM under a key derived from a caller
//! secret by a single unsalted SHA-256 (intentionally simple; a hardened
//! deployment would add a per-install salt and a hardware-backed secret,
//! which is outside this store's contract); each record stores `nonce ||
//! ciphertext`
//! base64-encoded, beside its plaintext timestamp, kind and optional
//! micro-unit risk score. The store's model is [`SecureStore::rows`], a
//! finite map from id to row; every method states how it changes that map.

use vstd::prelude::*;
use vstd::utf8::{decode_utf8, encode_utf8, valid_utf8};
use aes_gcm::aead::{Aead, KeyInit};
use base64::Engine;
use rand::RngCore;

verus! {

/// How a store operation failed: the database refused it, a seal or an
/// authentication check failed, or a stored blob was not decodable.
#[derive(Clone, Copy, Debug, PartialEq, Eq, Structural)]
pub enum StoreError {
    Database,
    Crypto,
    Encoding,
}

/// One stored row: timestamp, kind, encrypted blob, optional score.
pub type StoredRow = (i64, Seq<char>, Seq<char>, Option<u32>);

/// Everything a connection's events table holds, keyed by id. The store
/// owns its connection exclusively, so only the wrappers below change
/// what this map holds.
pub uninterp spec fn db_rows(conn: rusqlite::Connection) -> Map<Seq<char>, StoredRow>;

/// The SHA-256 digest of a byte sequence.
pub uninterp spec fn sha256_of(data: Seq<u8>) -> Seq<u8>;

/// What decrypting a ciphertext with AES-256-GCM under a key and nonce
/// yields: the plaintext, or nothing when authentication fails.
pub uninterp spec fn aead_open(key: Seq<u8>, nonce: Seq<u8>, ct: Seq<u8>) -> Option<Seq<u8>>;

/// What the standard base64 alphabet decodes a string to, if anything.
pub uninterp spec fn b64_parse(s: Seq<char>) -> Option<Seq<u8>>;

pub const KEY_LEN: usize = 32;

pub const NONCE_LEN: usize = 12;

#[verifier::external_type_specification]
#[verifier::external_body]
pub struct ExConnection(rusqlite::Connection);

/// Relies on `ring::digest::digest` with `SHA256`: a digest of
/// `SHA256_OUTPUT_LEN` (32) bytes that depends on the input bytes alone.
#[verifier::external_body]
fn sha256(data: &[u8]) -> (r: Vec<u8>)
    ensures
        r@ == sha256_of(data@),
        r@.len() == 32,
{
    ring::digest::digest(&ring::digest::SHA256, data).as_ref().to_vec()
}

/// Relies on `rand::thread_rng` and `RngCore::fill_bytes`: twelve bytes
/// of which nothing more is known.
#[verifier::external_body]
fn random_nonce() -> (r: Vec<u8>)
    ensures
        r@.len() == NONCE_LEN,
{
    let mut nonce = [0u8; 12];
    rand::thread_rng().fill_bytes(&mut nonce);
    nonce.to_vec()
}

/// Relies on `aes_gcm::Aes256Gcm` through `aead::Aead::encrypt`: sealing
/// under a 32-byte key and 12-byte nonce produces a ciphertext that
/// `decrypt` with the same key and nonce restores to the plaintext.
#[verifier::external_body]
fn aead_seal(key: &[u8], nonce: &[u8], plaintext: &[u8]) -> (r: Result<Vec<u8>, StoreError>)
    requires
        key@.len() == KEY_LEN,
        nonce@.len() == NONCE_LEN,
    ensures
        r matches Ok(ct) ==> aead_open(key@, nonce@, ct@) == Some(plaintext@),
{
    let cipher = aes_gcm::Aes256Gcm::new_from_slice(key).map_err(|_| StoreError::Crypto)?;
    let ct = cipher
        .encrypt(aes_gcm::Nonce::from_slice(nonce), plaintext)
        .map_err(|_| StoreError::Crypto)?;
    Ok(ct)
}

/// Relies on `aes_gcm::Aes256Gcm` through `aead::Aead::decrypt`: a pure
/// function of key, nonce and ciphertext that yields the plaintext, or
/// an error exactly when authentication rejects the ciphertext.
#[verifier::external_body]
fn aead_unseal(key: &[u8], nonce: &[u8], ct: &[u8]) -> (r: Result<Vec<u8>, StoreError>)
    requires
        key@.len() == KEY_LEN,
        nonce@.len() == NONCE_LEN,
    ensures
        (r is Ok) <==> (aead_open(key@, nonce@, ct@) is Some),
        r matches Ok(pt) ==> aead_open(key@, nonce@, ct@) == Some(pt@),
        r matches Err(e) ==> e == StoreError::Crypto,
{
    let cipher = aes_gcm::Aes256Gcm::new_from_slice(key).map_err(|_| StoreError::Crypto)?;
    let pt = cipher
        .decrypt(aes_gcm::Nonce::from_slice(nonce), ct)
        .map_err(|_| StoreError::Crypto)?;
    Ok(pt)
}

/// Relies on base64's `STANDARD` engine: `encode` produces exactly the
/// string that `decode` reverses to the input bytes.
#[verifier::external_body]
fn b64_encode(data: &[u8]) -> (r: String)
    ensures
        b64_parse(r@) == Some(data@),
{
    base64::engine::general_purpose::STANDARD.encode(data)
}

/// Relies on base64's `STANDARD` engine: `decode` is a pure function of
/// the string that succeeds exactly on well-formed base64.
#[verifier::external_body]
fn b64_decode(s: &str) -> (r: Result<Vec<u8>, StoreError>)
    ensures
        (r is Ok) <==> (b64_parse(s@) is Some),
        r matches Ok(d) ==> b64_parse(s@) == Some(d@),
        r matches Err(e) ==> e == StoreError::Encoding,
{
    base64::engine::general_purpose::STANDARD.decode(s).map_err(|_| StoreError::Encoding)
}

/// Relies on `String::from_utf8` as std documents it: it succeeds exactly
/// on valid UTF-8 and yields the decoded characters; vstd's `valid_utf8`
/// and `decode_utf8` are that encoding's specification.
#[verifier::external_body]
fn string_from_utf8(bytes: Vec<u8>) -> (r: Option<String>)
    ensures
        (r is Some) <==> valid_utf8(bytes@),
        r matches Some(s) ==> s@ == decode_utf8(bytes@),
{
    String::from_utf8(bytes).ok()
}

/// Relies on `rusqlite::Connection::open`: opens or creates the database
/// file at `path`; a SQLite table holds finitely many rows.
#[verifier::external_body]
fn db_open(path: &str) -> (r: Result<rusqlite::Connection, StoreError>)
    ensures
        r matches Ok(c) ==> db_rows(c).dom().finite(),
{
    rusqlite::Connection::open(path).map_err(|_| StoreError::Database)
}

/// Relies on `rusqlite::Connection::execute_batch` running `CREATE TABLE
/// IF NOT EXISTS` and `CREATE INDEX IF NOT EXISTS`: idempotent schema
/// setup that neither adds nor removes event rows.
#[verifier::external_body]
fn db_init_schema(conn: &mut rusqlite::Connection) -> (r: Result<(), StoreError>)
    ensures
        db_rows(*final(conn)) == db_rows(*old(conn)),
{
    conn.execute_batch(
        "CREATE TABLE IF NOT EXISTS events (
            id TEXT PRIMARY KEY,
            ts INTEGER NOT NULL,
            kind TEXT NOT NULL,
            payload_enc TEXT NOT NULL,
            risk_score INTEGER
        );
        CREATE INDEX IF NOT EXISTS idx_events_ts ON events(ts);
        CREATE TABLE IF NOT EXISTS meta (k TEXT PRIMARY KEY, v TEXT);",
    ).map_err(|_| StoreError::Database)
}

/// Derive the fixed-size symmetric key from a secret: one unsalted
/// SHA-256, so the same secret always yields the same key.
pub fn derive_key(secret: &[u8]) -> (r: Vec<u8>)
    ensures
        r@ == sha256_of(secret@),
        r@.len() == KEY_LEN,
{
    sha256(secret)
}

/// What a stored blob yields under a key: base64-decode, split off the
/// nonce, and authenticate-decrypt the rest; nothing on any failure.
pub open spec fn opened_payload(key: Seq<u8>, blob: Seq<char>) -> Option<Seq<u8>> {
    match b64_parse(blob) {
        Some(raw) => if raw.len() >= NONCE_LEN {
            aead_open(key, raw.take(NONCE_LEN as int), raw.skip(NONCE_LEN as int))
        } else {
            None
        },
        None => None,
    }
}

/// A blob stores `payload` under `key` when it opens to exactly the
/// payload's UTF-8 bytes.
pub open spec fn blob_opens_to(key: Seq<u8>, blob: Seq<char>, payload: Seq<char>) -> bool {
    opened_payload(key, blob) == Some(encode_utf8(payload))
}

/// The text a decrypted payload reads as: its UTF-8 decoding, or the
/// empty string when the bytes are not valid UTF-8.
pub open spec fn payload_text(bytes: Seq<u8>) -> Seq<char> {
    if valid_utf8(bytes) {
        decode_utf8(bytes)
    } else {
        Seq::empty()
    }
}

/// Seal a payload under `key` with a fresh random nonce and encode
/// `nonce || ciphertext` as one base64 blob.
fn encrypt_payload(key: &[u8], payload: &str) -> (r: Result<String, StoreError>)
    requires
        key@.len() == KEY_LEN,
    ensures
        r matches Ok(blob) ==> blob_opens_to(key@, blob@, payload@),
{
    let nonce = random_nonce();
    let ct = match aead_seal(key, nonce.as_slice(), payload.as_bytes()) {
        Ok(ct) => ct,
        Err(e) => {
            return Err(e);
        },
    };
    let mut raw = nonce;
    let ghost nonce_view = raw@;
    let mut ct = ct;
    let ghost ct_view = ct@;
    raw.append(&mut ct);
    proof {
        assert(raw@.take(NONCE_LEN as int) =~= nonce_view);
        assert(raw@.skip(NONCE_LEN as int) =~= ct_view);
    }
    let blob = b64_encode(raw.as_slice());
    Ok(blob)
}

/// Open a stored blob under `key`: base64-decode it, split nonce from
/// ciphertext, authenticate-decrypt, and read the bytes as text (empty
/// when they are not valid UTF-8, never a partial or altered payload).
fn decrypt_payload(key: &[u8], blob: &str) -> (r: Result<String, StoreError>)
    requires
        key@.len() == KEY_LEN,
    ensures
        (r is Ok) <==> (opened_payload(key@, blob@) is Some),
        r matches Ok(p) ==> opened_payload(key@, blob@) matches Some(b) && p@ == payload_text(b),
{
    let raw = match b64_decode(blob) {
        Ok(raw) => raw,
        Err(e) => {
            return Err(e);
        },
    };
    if raw.len() < NONCE_LEN {
        return Err(StoreError::Encoding);
    }
    let nonce: &[u8] = &raw.as_slice()[0..NONCE_LEN];
    let ct: &[u8] = &raw.as_slice()[NONCE_LEN..raw.len()];
    proof {
        assert(nonce@ =~= raw@.take(NONCE_LEN as int));
        assert(ct@ =~= raw@.skip(NONCE_LEN as int));
    }
    let pt = match aead_unseal(key, nonce, ct) {
        Ok(pt) => pt,
        Err(e) => {
            return Err(e);
        },
    };
    match string_from_utf8(pt) {
        Some(s) => Ok(s),
        None => Ok(String::new()),
    }
}

/// The rows that survive pruning at `cutoff`: exactly those whose
/// timestamp is at or above it.
pub open spec fn kept_rows(rows: Map<Seq<char>, StoredRow>, cutoff: i64) -> Map<
    Seq<char>,
    StoredRow,
> {
    Map::new(
        |k: Seq<char>| rows.contains_key(k) && rows[k].0 >= cutoff,
        |k: Seq<char>| rows[k],
    )
}

/// How many rows pruning at `cutoff` removes.
pub open spec fn pruned_count(rows: Map<Seq<char>, StoredRow>, cutoff: i64) -> int {
    rows.dom().len() - kept_rows(rows, cutoff).dom().len()
}

/// Encrypted event store: one connection and the key derived at open.
pub struct SecureStore {
    conn: rusqlite::Connection,
    key: Vec<u8>,
}

impl SecureStore {
    /// The derived symmetric key held for this handle's lifetime.
    pub closed spec fn key(&self) -> Seq<u8> {
        self.key@
    }

    /// The store's contents: a finite map from event id to stored row.
    pub closed spec fn rows(&self) -> Map<Seq<char>, StoredRow> {
        db_rows(self.conn)
    }

    /// The key has its fixed size and the row map is finite.
    pub open spec fn wf(&self) -> bool {
        &&& self.key().len() == KEY_LEN
        &&& self.rows().dom().finite()
    }

    /// Relies on `rusqlite::Connection::execute` with `INSERT OR REPLACE
    /// INTO events`: an upsert keyed by id, atomic per statement.
    #[verifier::external_body]
    fn db_insert(
        &mut self,
        id: &str,
        ts: i64,
        kind: &str,
        blob: &str,
        score: Option<u32>,
    ) -> (r: Result<(), StoreError>)
        ensures
            final(self).key() == old(self).key(),
            r is Ok ==> final(self).rows() == old(self).rows().insert(
                id@,
                (ts, kind@, blob@, score),
            ),
            r is Err ==> final(self).rows() == old(self).rows(),
    {
        self.conn
            .execute(
                "INSERT OR REPLACE INTO events (id, ts, kind, payload_enc, risk_score) VALUES (?1, ?2, ?3, ?4, ?5)",
                (id, ts, kind, blob, score),
            )
            .map(|_| ())
            .map_err(|_| StoreError::Database)
    }

    /// Relies on `rusqlite::Connection::query_row` over `SELECT ... WHERE
    /// id = ?`: the row under the primary key, if any.
    #[verifier::external_body]
    fn db_get(&self, id: &str) -> (r: Result<Option<(i64, String, Option<u32>)>, StoreError>)
        ensures
            r matches Ok(row) ==> match row {
                Some((ts, blob, score)) => {
                    &&& self.rows().contains_key(id@)
                    &&& self.rows()[id@].0 == ts
                    &&& self.rows()[id@].2 == blob@
                    &&& self.rows()[id@].3 == score
                },
                None => !self.rows().contains_key(id@),
            },
    {
        let res = self.conn.query_row(
            "SELECT ts, payload_enc, risk_score FROM events WHERE id = ?1",
            (id,),
            |row| Ok((row.get(0)?, row.get(1)?, row.get(2)?)),
        );
        match res {
            Ok(t) => Ok(Some(t)),
            Err(rusqlite::Error::QueryReturnedNoRows) => Ok(None),
            Err(_) => Err(StoreError::Database),
        }
    }

    /// Relies on `rusqlite::Connection::execute` with `DELETE FROM events
    /// WHERE ts < ?`, whose result counts the deleted rows (via
    /// `sqlite3_changes`); a statement is atomic, so an error deletes
    /// nothing.
    #[verifier::external_body]
    fn db_delete_before(&mut self, cutoff: i64) -> (r: Result<usize, StoreError>)
        ensures
            final(self).key() == old(self).key(),
            r matches Ok(n) ==> {
                &&& final(self).rows() == kept_rows(old(self).rows(), cutoff)
                &&& n == pruned_count(old(self).rows(), cutoff)
            },
            r is Err ==> final(self).rows() == old(self).rows(),
    {
        self.conn
            .execute("DELETE FROM events WHERE ts < ?1", (cutoff,))
            .map_err(|_| StoreError::Database)
    }

    /// Open or create the store at `path` (idempotent on an existing
    /// store) and derive the key from `secret`: the same secret always
    /// yields the same key.
    pub fn open(path: &str, secret: &[u8]) -> (r: Result<SecureStore, StoreError>)
        ensures
            r matches Ok(s) ==> s.wf() && s.key() == sha256_of(secret@),
    {
        let conn = match db_open(path) {
            Ok(c) => c,
            Err(e) => {
                return Err(e);
            },
        };
        let mut conn = conn;
        match db_init_schema(&mut conn) {
            Ok(()) => {},
            Err(e) => {
                return Err(e);
            },
        }
        let key = derive_key(secret);
        Ok(SecureStore { conn, key })
    }

    /// Encrypt `payload_json` under the store's key with a fresh random
    /// nonce and upsert it under `id`: an existing row with the same id
    /// is fully replaced, and on any error the store is unchanged.
    pub fn insert_event(
        &mut self,
        id: &str,
        ts: i64,
        kind: &str,
        payload_json: &str,
        risk_score: Option<u32>,
    ) -> (r: Result<(), StoreError>)
        requires
            old(self).wf(),
        ensures
            final(self).wf(),
            final(self).key() == old(self).key(),
            r is Ok ==> exists|blob: Seq<char>|
                {
                    &&& final(self).rows() == old(self).rows().insert(
                        id@,
                        (ts, kind@, blob, risk_score),
                    )
                    &&& #[trigger] blob_opens_to(old(self).key(), blob, payload_json@)
                },
            r is Err ==> final(self).rows() == old(self).rows(),
    {
        let blob = match encrypt_payload(self.key.as_slice(), payload_json) {
            Ok(b) => b,
            Err(e) => {
                return Err(e);
            },
        };
        match self.db_insert(id, ts, kind, blob.as_str(), risk_score) {
            Ok(()) => {
                proof {
                    assert(blob_opens_to(old(self).key(), blob@, payload_json@));
                }
                Ok(())
            },
            Err(e) => Err(e),
        }
    }

    /// Look `id` up and decrypt its payload. A found record comes back
    /// exactly as stored: its timestamp, its decrypted payload text, its
    /// score. A blob that fails decoding or authentication is an error,
    /// never data.
    pub fn get_event(&self, id: &str) -> (r: Result<
        Option<(i64, String, Option<u32>)>,
        StoreError,
    >)
        requires
            self.wf(),
        ensures
            r matches Ok(Some((ts, payload, score))) ==> {
                &&& self.rows().contains_key(id@)
                &&& self.rows()[id@].0 == ts
                &&& self.rows()[id@].3 == score
                &&& opened_payload(self.key(), self.rows()[id@].2) matches Some(b)
                    && payload@ == payload_text(b)
            },
            r matches Ok(None) ==> !self.rows().contains_key(id@),
            self.rows().contains_key(id@) && opened_payload(self.key(), self.rows()[id@].2)
                is None ==> r is Err,
    {
        let row = match self.db_get(id) {
            Ok(row) => row,
            Err(e) => {
                return Err(e);
            },
        };
        match row {
            Some((ts, blob, score)) => {
                let payload = match decrypt_payload(self.key.as_slice(), blob.as_str()) {
                    Ok(p) => p,
                    Err(e) => {
                        return Err(e);
                    },
                };
                Ok(Some((ts, payload, score)))
            },
            None => Ok(None),
        }
    }

    /// Delete every record whose timestamp is strictly below `cutoff`
    /// and report how many were removed.
    pub fn prune_before(&mut self, cutoff: i64) -> (r: Result<u64, StoreError>)
        requires
            old(self).wf(),
        ensures
            final(self).wf(),
            final(self).key() == old(self).key(),
            r matches Ok(n) ==> {
                &&& final(self).rows() == kept_rows(old(self).rows(), cutoff)
                &&& n == pruned_count(old(self).rows(), cutoff)
            },
            r is Err ==> final(self).rows() == old(self).rows(),
    {
        let n = match self.db_delete_before(cutoff) {
            Ok(n) => n,
            Err(e) => {
                return Err(e);
            },
        };
        proof {
            lemma_kept_rows_finite(old(self).rows(), cutoff);
        }
        Ok(n as u64)
    }
}

/// Pruning a finite row map leaves a finite row map.
pub proof fn lemma_kept_rows_finite(rows: Map<Seq<char>, StoredRow>, cutoff: i64)
    requires
        rows.dom().finite(),
    ensures
        kept_rows(rows, cutoff).dom().finite(),
        kept_rows(rows, cutoff).dom().subset_of(rows.dom()),
{
    assert(kept_rows(rows, cutoff).dom().subset_of(rows.dom()));
    vstd::set_lib::lemma_len_subset(kept_rows(rows, cutoff).dom(), rows.dom());
}

/// Round trip: a blob that stores `payload` under `key` always reads
/// back as exactly `payload`, whatever else the row carries. Together
/// with the contracts of `insert_event` and `get_event` this says that
/// inserting `(id, ts, kind, payload, score)` and then looking `id` up
/// yields `(ts, payload, score)` unchanged.
pub proof fn lemma_insert_then_get(
    rows: Map<Seq<char>, StoredRow>,
    key: Seq<u8>,
    id: Seq<char>,
    ts: i64,
    kind: Seq<char>,
    blob: Seq<char>,
    payload: Seq<char>,
    score: Option<u32>,
)
    requires
        blob_opens_to(key, blob, payload),
    ensures
        ({
            let rows2 = rows.insert(id, (ts, kind, blob, score));
            &&& rows2.contains_key(id)
            &&& rows2[id].0 == ts
            &&& rows2[id].3 == score
            &&& opened_payload(key, rows2[id].2) matches Some(b) && payload_text(b) == payload
        }),
{
    broadcast use vstd::utf8::encode_utf8_valid_utf8;
    broadcast use vstd::utf8::encode_utf8_decode_utf8;

}

/// Upsert: inserting under an id that already exists fully replaces the
/// old row, and leaves every other id's row alone.
pub proof fn lemma_upsert_replaces(
    rows: Map<Seq<char>, StoredRow>,
    id: Seq<char>,
    first: StoredRow,
    second: StoredRow,
)
    ensures
        rows.insert(id, first).insert(id, second)[id] == second,
        forall|other: Seq<char>|
            other != id && rows.contains_key(other) ==> rows.insert(id, first).insert(
                id,
                second,
            )[other] == rows[other],
{
}

} // verus!
