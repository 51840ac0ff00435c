//! The computed parts of uplink reporting: the node id scheme, the
//! endpoint normalization, and the fixed reporting window. Sending the
//! payloads over the wire is a caller's concern.

use vstd::prelude::*;
use vstd::utf8::{
    decode_utf8, encode_utf8, is_char_boundary, is_continuation_byte, valid_utf8,
};
use vstd::string::StringExecFns;
use vstd::string::StringSliceAdditionalSpecFns;

verus! {

/// A reported risk result is labelled with a window of this many
/// milliseconds ending at the result's timestamp.
pub const RISK_WINDOW_MS: i64 = 60_000;

/// Where the reporting window of a risk result stamped `ts` starts.
pub fn risk_window_start(ts: i64) -> (r: i64)
    requires
        ts >= i64::MIN + RISK_WINDOW_MS,
    ensures
        r == ts - RISK_WINDOW_MS,
{
    ts - RISK_WINDOW_MS
}

/// The UTF-8 bytes of `did:`.
pub open spec fn did_prefix_bytes() -> Seq<u8> {
    seq![100u8, 105u8, 100u8, 58u8]
}

/// Whether a string already carries the `did:` scheme.
pub open spec fn has_did_prefix(s: Seq<char>) -> bool {
    encode_utf8(s).len() >= 4 && encode_utf8(s).take(4) == did_prefix_bytes()
}

/// The node id reported for a device: the device id itself when it
/// already carries the `did:` scheme, else the id under that scheme.
pub open spec fn spec_node_id(device: Seq<char>) -> Seq<char> {
    if has_did_prefix(device) {
        device
    } else {
        "did:"@ + device
    }
}

/// Qualify a configured device id as a node id.
pub fn node_id_of(device_id: &str) -> (r: String)
    ensures
        r@ == spec_node_id(device_id@),
{
    let b: &[u8] = device_id.as_bytes();
    // the bytes of 'd', 'i', 'd', ':'
    let prefixed = b.len() >= 4 && b[0] == 100 && b[1] == 105 && b[2] == 100 && b[3] == 58;
    proof {
        if b@.len() >= 4 {
            assert(has_did_prefix(device_id@) <==> b@.take(4) =~= did_prefix_bytes());
        }
    }
    if prefixed {
        device_id.to_owned()
    } else {
        let mut r = "did:".to_owned();
        r.append(device_id);
        r
    }
}

/// A byte sequence with its trailing `/` bytes removed.
pub open spec fn trim_trailing_slashes(b: Seq<u8>) -> Seq<u8>
    decreases b.len(),
{
    if b.len() > 0 && b.last() == 47 {
        trim_trailing_slashes(b.drop_last())
    } else {
        b
    }
}

/// The base URL an uplink endpoint is joined onto: the configured
/// endpoint with its trailing slashes removed. The result is pinned
/// through the UTF-8 encoding, which determines its characters.
pub fn endpoint_base(endpoint: &str) -> (r: String)
    ensures
        encode_utf8(r@) == trim_trailing_slashes(encode_utf8(endpoint@)),
        r@ == decode_utf8(trim_trailing_slashes(encode_utf8(endpoint@))),
{
    broadcast use vstd::utf8::encode_utf8_valid_utf8;
    broadcast use vstd::utf8::encode_utf8_decode_utf8;

    let b: &[u8] = endpoint.as_bytes();
    let mut k: usize = b.len();
    proof {
        assert(b@.take(b@.len() as int) =~= b@);
    }
    while k > 0 && b[k - 1] == 47
        invariant
            k <= b@.len(),
            b@ == encode_utf8(endpoint@),
            trim_trailing_slashes(b@) == trim_trailing_slashes(b@.take(k as int)),
            forall|j: int| k <= j < b@.len() ==> b@[j] == 47,
        decreases k,
    {
        proof {
            assert(b@.take(k as int).last() == 47);
            assert(b@.take(k as int).drop_last() =~= b@.take(k - 1));
        }
        k = k - 1;
    }
    proof {
        assert(trim_trailing_slashes(b@.take(k as int)) == b@.take(k as int));
        if k == 0 {
            vstd::utf8::is_char_boundary_start_end_of_seq(b@);
        } else if k == b@.len() {
            vstd::utf8::is_char_boundary_start_end_of_seq(b@);
        } else {
            assert(b@[k as int] == 47);
            assert(!is_continuation_byte(47u8));
            vstd::utf8::is_char_boundary_iff_not_is_continuation_byte(b@, k as int);
        }
        assert(is_char_boundary(endpoint.spec_bytes(), k as int));
    }
    let parts = endpoint.split_at(k);
    let head: &str = parts.0;
    proof {
        assert(head.spec_bytes() =~= b@.take(k as int));
    }
    head.to_owned()
}

} // verus!
