//! Revision quantization for cache keys, and the configuration of the three
//! cache layers (L1 model, L2 result, L3 tuple).
//!
//! Revisions are ULIDs; their first 48 bits are a millisecond timestamp.
//! Rounding that timestamp down to a quantum lets requests made within the
//! same window share cache entries.

use vstd::prelude::*;
use vstd::string::{StringExecFns, StrSliceExecFns};
use crate::guc::{clamp_below, get_cache_max_capacity, get_model_cache_ttl, get_result_cache_ttl, get_revision_quantization_secs, get_tuple_cache_ttl, GucSettings};
use crate::text::{decimal, push_decimal};

verus! {

broadcast use vstd::string::group_string_axioms;

/// The value of a character of the Crockford base32 alphabet that ULIDs are
/// written in ("0123456789ABCDEFGHJKMNPQRSTVWXYZ", letters in either case),
/// or `None` for any other character.
pub open spec fn crockford_digit(c: char) -> Option<int> {
    let u = if 'a' <= c <= 'z' {
        c as int - 32
    } else {
        c as int
    };
    if 48 <= u <= 57 {
        Some(u - 48)
    } else if 65 <= u <= 72 {
        Some(u - 55)
    } else if 74 <= u <= 75 {
        Some(u - 56)
    } else if 77 <= u <= 78 {
        Some(u - 57)
    } else if 80 <= u <= 84 {
        Some(u - 58)
    } else if 86 <= u <= 90 {
        Some(u - 59)
    } else {
        None
    }
}

/// The number the digits of a base32 string stand for, most significant
/// first.
pub open spec fn base32_value(s: Seq<char>) -> int
    decreases s.len(),
{
    if s.len() == 0 {
        0
    } else {
        base32_value(s.drop_last()) * 32 + match crockford_digit(s.last()) {
            Some(d) => d,
            None => 0,
        }
    }
}

/// The 128-bit value a ULID string decodes to: for 26 characters of the
/// alphabet, their base32 value reduced to 128 bits; `None` for any other
/// string.
pub open spec fn ulid_decode(s: Seq<char>) -> Option<u128> {
    if s.len() == 26 && forall|i: int| 0 <= i < 26 ==> (#[trigger] crockford_digit(s[i])) is Some {
        Some((base32_value(s) % 0x1_0000_0000_0000_0000_0000_0000_0000_0000int) as u128)
    } else {
        None
    }
}

/// Calls `ulid::Ulid::from_string` and keeps the decoded 128-bit value: the
/// string must be 26 bytes, each a character of the alphabet, and the value
/// is built by shifting in five bits per character, the top bits falling off
/// the 128-bit word.
#[verifier::external_body]
fn ulid_from_string(s: &str) -> (r: Option<u128>)
    ensures
        r == ulid_decode(s@),
{
    ulid::Ulid::from_string(s).ok().map(|u| u.0)
}

/// The millisecond timestamp a ULID value carries in its top 48 bits.
pub open spec fn ulid_timestamp_ms(value: u128) -> u64 {
    (value >> 80u128) as u64
}

/// `timestamp_ms` rounded down to a multiple of `quantum_ms`.
pub open spec fn quantize_ms(timestamp_ms: nat, quantum_ms: nat) -> nat
    recommends
        quantum_ms > 0,
{
    (timestamp_ms / quantum_ms) * quantum_ms
}

/// The cache key of a revision whose ULID value is `value`, for a quantum of
/// `quantum_secs > 0`: `q` followed by the quantized timestamp in milliseconds.
pub open spec fn quantized_key(value: u128, quantum_secs: nat) -> Seq<char> {
    "q"@ + decimal(quantize_ms(ulid_timestamp_ms(value) as nat, quantum_secs * 1000))
}

/// The key `quantize_revision` gives a revision.
pub open spec fn quantized_revision(revision: Seq<char>, quantum_secs: nat) -> Seq<char> {
    if quantum_secs == 0 || revision == "0"@ {
        revision
    } else {
        match ulid_decode(revision) {
            Some(value) => quantized_key(value, quantum_secs),
            None => revision,
        }
    }
}

/// Rounds a millisecond timestamp down to a multiple of `quantum_ms`.
pub fn quantize_timestamp_ms(timestamp_ms: u64, quantum_ms: u64) -> (r: u64)
    requires
        quantum_ms > 0,
    ensures
        r == quantize_ms(timestamp_ms as nat, quantum_ms as nat),
        r <= timestamp_ms,
        r % quantum_ms == 0,
        timestamp_ms - r < quantum_ms,
{
    let q = timestamp_ms / quantum_ms;
    proof {
        let t = timestamp_ms as int;
        let m = quantum_ms as int;
        vstd::arithmetic::div_mod::lemma_fundamental_div_mod(t, m);
        vstd::arithmetic::div_mod::lemma_mod_pos_bound(t, m);
        vstd::arithmetic::div_mod::lemma_mod_multiples_basic(q as int, m);
        assert(q as int == t / m);
        assert((q as int) * m == m * (q as int)) by (nonlinear_arith);
        assert((q as int) * m == t - t % m);
    }
    q * quantum_ms
}

/// The cache key of a revision with ULID value `value` for a quantum of
/// `quantum_secs` seconds: `q` followed by the timestamp rounded down to the
/// quantum, in milliseconds.
pub fn quantized_revision_key(value: u128, quantum_secs: u64) -> (r: String)
    requires
        quantum_secs > 0,
        quantum_secs * 1000 <= u64::MAX,
    ensures
        r@ == quantized_key(value, quantum_secs as nat),
{
    let timestamp_ms = (value >> 80u128) as u64;
    let quantum_ms = quantum_secs * 1000;
    let quantized = quantize_timestamp_ms(timestamp_ms, quantum_ms);
    let mut key = String::from_str("q");
    push_decimal(&mut key, quantized as u128);
    key
}

/// Whether the string is exactly "0" (the revision of an empty store).
fn is_bootstrap_revision(s: &str) -> (r: bool)
    ensures
        r == (s@ == "0"@),
{
    proof {
        reveal_strlit("0");
    }
    if s.unicode_len() != 1 {
        assert(s@ != "0"@);
        return false;
    }
    let c = s.get_char(0);
    if c == '0' {
        assert(s@ =~= "0"@);
        true
    } else {
        assert(s@[0] != "0"@[0]);
        false
    }
}

/// Quantize a revision ULID to a time boundary for cache key sharing.
///
/// When `quantum_secs` is 0, or the revision is "0", or it is not a valid
/// ULID, the revision is returned unchanged. Otherwise the result is `q`
/// followed by the ULID's timestamp rounded down to the quantum, in
/// milliseconds.
pub fn quantize_revision(revision_ulid: &str, quantum_secs: u64) -> (r: String)
    requires
        quantum_secs * 1000 <= u64::MAX,
    ensures
        r@ == quantized_revision(revision_ulid@, quantum_secs as nat),
{
    if quantum_secs == 0 || is_bootstrap_revision(revision_ulid) {
        return String::from_str(revision_ulid);
    }
    match ulid_from_string(revision_ulid) {
        Some(value) => quantized_revision_key(value, quantum_secs),
        None => String::from_str(revision_ulid),
    }
}

/// The L1 model cache key of a (quantized) revision and the id of the
/// latest policy: `<revision>:<policy_id>`.
pub open spec fn model_cache_key_of(revision: Seq<char>, policy_id: Seq<char>) -> Seq<char> {
    revision + ":"@ + policy_id
}

/// The L1 model cache key for the latest policy at a raw revision, or `None`
/// when the model cache is disabled (TTL 0) and the model is always loaded
/// fresh. The key names the policy, so a model cached for an earlier policy
/// is never found under the key of a later one.
pub fn model_cache_key(settings: &GucSettings, raw_revision: &str, policy_id: &str) -> (r: Option<String>)
    ensures
        r is None <==> clamp_below(settings.model_cache_ttl_secs, 0) == 0,
        r matches Some(k) ==> k@ == model_cache_key_of(
            quantized_revision(raw_revision@, clamp_below(settings.revision_quantization_secs, 0) as nat),
            policy_id@,
        ),
{
    let ttl = get_model_cache_ttl(settings);
    if ttl == 0 {
        return None;
    }
    let quantum_secs = get_revision_quantization_secs(settings);
    let mut key = quantize_revision(raw_revision, quantum_secs);
    key.append(":");
    key.append(policy_id);
    Some(key)
}

/// How one cache layer is set up.
#[derive(Debug, Clone, Copy, PartialEq, Eq, Structural)]
pub enum CacheLayer {
    /// Entries are never stored.
    Disabled,
    /// Entries are stored for `ttl_secs` seconds, at most `max_capacity` of them.
    Enabled { max_capacity: u64, ttl_secs: u64 },
}

/// The layer a TTL and capacity setting describe: disabled when the TTL is 0.
pub open spec fn layer_of(ttl_secs: i32, max_capacity: i32) -> CacheLayer {
    if clamp_below(ttl_secs, 0) == 0 {
        CacheLayer::Disabled
    } else {
        CacheLayer::Enabled {
            max_capacity: clamp_below(max_capacity, 1) as u64,
            ttl_secs: clamp_below(ttl_secs, 0) as u64,
        }
    }
}

/// The L1 model cache layer.
pub fn model_cache_layer(settings: &GucSettings) -> (r: CacheLayer)
    ensures
        r == layer_of(settings.model_cache_ttl_secs, settings.cache_max_capacity),
{
    let ttl = get_model_cache_ttl(settings);
    if ttl == 0 {
        CacheLayer::Disabled
    } else {
        CacheLayer::Enabled { max_capacity: get_cache_max_capacity(settings), ttl_secs: ttl }
    }
}

/// The L2 result cache layer.
pub fn result_cache_layer(settings: &GucSettings) -> (r: CacheLayer)
    ensures
        r == layer_of(settings.result_cache_ttl_secs, settings.cache_max_capacity),
{
    let ttl = get_result_cache_ttl(settings);
    if ttl == 0 {
        CacheLayer::Disabled
    } else {
        CacheLayer::Enabled { max_capacity: get_cache_max_capacity(settings), ttl_secs: ttl }
    }
}

/// The L3 tuple cache layer.
pub fn tuple_cache_layer(settings: &GucSettings) -> (r: CacheLayer)
    ensures
        r == layer_of(settings.tuple_cache_ttl_secs, settings.cache_max_capacity),
{
    let ttl = get_tuple_cache_ttl(settings);
    if ttl == 0 {
        CacheLayer::Disabled
    } else {
        CacheLayer::Enabled { max_capacity: get_cache_max_capacity(settings), ttl_secs: ttl }
    }
}

/// The hit and miss counts reported for a cache that only exposes its entry
/// count and weighted size: hits = entries, misses = weighted size minus
/// entries (never below zero).
pub fn cache_metrics_counts(entry_count: u64, weighted_size: u64) -> (r: (u64, u64))
    ensures
        r.0 == entry_count,
        r.1 == (if weighted_size >= entry_count { weighted_size - entry_count } else { 0 }),
{
    let misses = if weighted_size >= entry_count { weighted_size - entry_count } else { 0 };
    (entry_count, misses)
}

} // verus!
