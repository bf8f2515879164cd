//! Properties that hold across the library's operations.

use vstd::prelude::*;
use crate::guc::{clamp_below, GucSettings};
use crate::model::{condition_rows, def_rows, outline_rows, type_rows, TypeOutlineView};
use crate::listing::{is_sorted_set_of, page_capacity, page_end, page_of, page_start, same_members, strictly_sorted};
use crate::ordering::{lemma_lex_asymmetric, lemma_lex_irreflexive, lex_lt};
use crate::revision::{model_cache_key_of, quantize_ms, quantized_key, quantized_revision, ulid_decode, ulid_timestamp_ms};
use crate::text::{byte_len, decimal, digit_char, is_blank, is_identifier};
use crate::validation::{check_args_check, page_size_check, MAX_ID_LEN, MAX_TYPE_LEN};

verus! {

/// A check request passes validation exactly when all five fields are
/// non-blank, the type, relation and subject type are at most 255 bytes and
/// the ids at most 1000 bytes, and the type, relation and subject type hold
/// identifier characters only.
pub proof fn lemma_check_args_accepted_exactly(
    object_type: Seq<char>,
    object_id: Seq<char>,
    relation: Seq<char>,
    subject_type: Seq<char>,
    subject_id: Seq<char>,
)
    ensures
        check_args_check(object_type, object_id, relation, subject_type, subject_id) is Ok <==> {
            &&& !is_blank(object_type) && !is_blank(object_id) && !is_blank(relation)
            &&& !is_blank(subject_type) && !is_blank(subject_id)
            &&& byte_len(object_type) <= MAX_TYPE_LEN && byte_len(relation) <= MAX_TYPE_LEN
            &&& byte_len(subject_type) <= MAX_TYPE_LEN
            &&& byte_len(object_id) <= MAX_ID_LEN && byte_len(subject_id) <= MAX_ID_LEN
            &&& is_identifier(object_type) && is_identifier(relation) && is_identifier(subject_type)
        },
{
}

/// A page size is accepted exactly when it lies in `1..=1000`.
pub proof fn lemma_page_size_accepted_exactly(page_size: i32)
    ensures
        page_size_check(page_size) is Ok <==> 1 <= page_size <= 1000,
{
}

/// A page is a run of consecutive candidates, in sorted order without
/// repeats, and holds at most `max(page_size, 1)` of them.
pub proof fn lemma_page_is_sorted_run(ids: Seq<Seq<char>>, token: Option<Seq<char>>, page_size: i32)
    requires
        strictly_sorted(ids),
    ensures
        0 <= page_start(ids, token) <= page_end(ids, token, page_size) <= ids.len(),
        page_of(ids, token, page_size).len() <= page_capacity(page_size),
        strictly_sorted(page_of(ids, token, page_size)),
        forall|i: int|
            0 <= i < page_of(ids, token, page_size).len() ==> #[trigger] page_of(ids, token, page_size)[i]
                == ids[page_start(ids, token) + i],
{
    let start = page_start(ids, token);
    if let Some(t) = token {
        if ids.contains(t) {
            let k = ids.index_of(t);
            assert(0 <= k < ids.len());
        }
    }
    let p = page_of(ids, token, page_size);
    assert forall|i: int, j: int| 0 <= i < j < p.len() implies lex_lt(#[trigger] p[i], #[trigger] p[j]) by {
        assert(p[i] == ids[start + i]);
        assert(p[j] == ids[start + j]);
    }
}

/// Passing the last id of a page as the continuation token yields the ids
/// that follow the page, up to the page size: successive pages neither skip
/// nor repeat a candidate.
pub proof fn lemma_next_page_follows(ids: Seq<Seq<char>>, token: Option<Seq<char>>, page_size: i32)
    requires
        strictly_sorted(ids),
        page_of(ids, token, page_size).len() > 0,
    ensures
        page_start(ids, Some(page_of(ids, token, page_size).last())) == page_end(ids, token, page_size),
        page_of(ids, Some(page_of(ids, token, page_size).last()), page_size) == ids.subrange(
            page_end(ids, token, page_size),
            if page_end(ids, token, page_size) + page_capacity(page_size) < ids.len() {
                page_end(ids, token, page_size) + page_capacity(page_size)
            } else {
                ids.len() as int
            },
        ),
{
    lemma_page_is_sorted_run(ids, token, page_size);
    let end = page_end(ids, token, page_size);
    let p = page_of(ids, token, page_size);
    let last = p.last();
    assert(last == ids[end - 1]);
    assert(ids.contains(last));
    let k = ids.index_of(last);
    if k != end - 1 {
        if k < end - 1 {
            assert(lex_lt(ids[k], ids[end - 1]));
        } else {
            assert(lex_lt(ids[end - 1], ids[k]));
        }
        lemma_lex_irreflexive(last);
    }
}

/// A continuation token that is not one of the candidates starts the page at
/// the beginning, as if no token had been given.
pub proof fn lemma_unknown_token_restarts(ids: Seq<Seq<char>>, token: Seq<char>, page_size: i32)
    requires
        !ids.contains(token),
    ensures
        page_of(ids, Some(token), page_size) == page_of(ids, None, page_size),
{
}

/// The sorted, duplicate-free list of a collection of ids is unique, so the
/// candidates a list operation pages through do not depend on the order in
/// which the tuples were read.
pub proof fn lemma_sorted_set_unique(a: Seq<Seq<char>>, b: Seq<Seq<char>>, s: Seq<Seq<char>>)
    requires
        is_sorted_set_of(a, s),
        is_sorted_set_of(b, s),
    ensures
        a == b,
    decreases a.len(),
{
    if a.len() == 0 {
        if b.len() > 0 {
            assert(b.contains(b[0]));
            assert(s.contains(b[0]));
            assert(a.contains(b[0]));
        }
        assert(a =~= b);
    } else if b.len() == 0 {
        assert(a.contains(a[0]));
        assert(s.contains(a[0]));
        assert(b.contains(a[0]));
    } else {
        assert(a.contains(a[0]));
        assert(b.contains(a[0]));
        assert(b.contains(b[0]));
        assert(a.contains(b[0]));
        let j = choose|j: int| 0 <= j < b.len() && b[j] == a[0];
        let i = choose|i: int| 0 <= i < a.len() && a[i] == b[0];
        if j > 0 {
            assert(lex_lt(b[0], b[j]));
            if i == 0 {
                lemma_lex_irreflexive(a[0]);
            } else {
                assert(lex_lt(a[0], a[i]));
                lemma_lex_asymmetric(a[0], a[i]);
            }
        }
        assert(a[0] == b[0]);
        let a1 = a.drop_first();
        let b1 = b.drop_first();
        assert forall|x: Seq<char>| a1.contains(x) <==> b1.contains(x) by {
            if a1.contains(x) {
                let p = choose|p: int| 0 <= p < a1.len() && a1[p] == x;
                assert(lex_lt(a[0], a[p + 1]));
                assert(a.contains(x));
                assert(b.contains(x));
                let q = choose|q: int| 0 <= q < b.len() && b[q] == x;
                if q == 0 {
                    lemma_lex_irreflexive(x);
                } else {
                    assert(b1[q - 1] == x);
                }
            }
            if b1.contains(x) {
                let p = choose|p: int| 0 <= p < b1.len() && b1[p] == x;
                assert(lex_lt(b[0], b[p + 1]));
                assert(b.contains(x));
                assert(a.contains(x));
                let q = choose|q: int| 0 <= q < a.len() && a[q] == x;
                if q == 0 {
                    lemma_lex_irreflexive(x);
                } else {
                    assert(a1[q - 1] == x);
                }
            }
        }
        assert(strictly_sorted(a1)) by {
            assert forall|i: int, j: int| 0 <= i < j < a1.len() implies lex_lt(#[trigger] a1[i], #[trigger] a1[j]) by {
                assert(a1[i] == a[i + 1]);
                assert(a1[j] == a[j + 1]);
            }
        }
        assert(strictly_sorted(b1)) by {
            assert forall|i: int, j: int| 0 <= i < j < b1.len() implies lex_lt(#[trigger] b1[i], #[trigger] b1[j]) by {
                assert(b1[i] == b[i + 1]);
                assert(b1[j] == b[j + 1]);
            }
        }
        assert(same_members(a1, b1));
        lemma_sorted_set_unique(a1, b1, b1);
        assert(a =~= seq![a[0]] + a1);
        assert(b =~= seq![b[0]] + b1);
    }
}

/// Revisions whose timestamps fall in the same quantum window share one
/// cache key, and the key's timestamp is the start of that window.
pub proof fn lemma_same_window_same_key(v1: u128, v2: u128, quantum_secs: nat)
    requires
        quantum_secs > 0,
        ulid_timestamp_ms(v1) as int / (quantum_secs * 1000) as int == ulid_timestamp_ms(v2) as int / (
        quantum_secs * 1000) as int,
    ensures
        quantized_key(v1, quantum_secs) == quantized_key(v2, quantum_secs),
{
}

/// With quantization disabled (quantum 0), and for the bootstrap revision
/// "0", the revision itself is the cache key.
pub proof fn lemma_unquantized_revisions_kept(revision: Seq<char>, quantum_secs: nat)
    requires
        quantum_secs == 0 || revision == "0"@,
    ensures
        quantized_revision(revision, quantum_secs) == revision,
{
}

/// Settings within the ranges the server enforces are read back unchanged.
pub proof fn lemma_registered_settings_read_back(s: GucSettings)
    requires
        s.within_registered_ranges(),
    ensures
        clamp_below(s.model_cache_ttl_secs, 0) == s.model_cache_ttl_secs,
        clamp_below(s.result_cache_ttl_secs, 0) == s.result_cache_ttl_secs,
        clamp_below(s.tuple_cache_ttl_secs, 0) == s.tuple_cache_ttl_secs,
        clamp_below(s.cache_max_capacity, 1) == s.cache_max_capacity,
        clamp_below(s.revision_quantization_secs, 0) == s.revision_quantization_secs,
{
}

/// The number of relations and permissions of a list of types.
pub open spec fn definition_count(types: Seq<TypeOutlineView>) -> nat
    decreases types.len(),
{
    if types.len() == 0 {
        0
    } else {
        definition_count(types.drop_last()) + types.last().1.len() + types.last().2.len()
    }
}

proof fn lemma_type_rows_cover(policy_id: Seq<char>, types: Seq<TypeOutlineView>)
    ensures
        type_rows(policy_id, types).len() == definition_count(types),
        forall|i: int| 0 <= i < type_rows(policy_id, types).len() ==> #[trigger] type_rows(policy_id, types)[i].policy_id == policy_id,
    decreases types.len(),
{
    if types.len() > 0 {
        let ti = types.len() - 1;
        lemma_type_rows_cover(policy_id, types.drop_last());
        let a = type_rows(policy_id, types.drop_last());
        let b = def_rows(policy_id, types.last(), ti, false);
        let c = def_rows(policy_id, types.last(), ti, true);
        assert(type_rows(policy_id, types) == a + b + c);
        assert forall|i: int| 0 <= i < (a + b + c).len() implies #[trigger] (a + b + c)[i].policy_id == policy_id by {
            if i < a.len() {
                assert((a + b + c)[i] == a[i]);
            } else if i < a.len() + b.len() {
                assert((a + b + c)[i] == b[i - a.len()]);
            } else {
                assert((a + b + c)[i] == c[i - a.len() - b.len()]);
            }
        }
    }
}

/// The computed policy has one row for each relation, each permission and
/// each condition, and every row carries the policy's id.
pub proof fn lemma_computed_policy_rows_cover(
    policy_id: Seq<char>,
    types: Seq<TypeOutlineView>,
    conditions: Seq<(Seq<char>, Seq<char>)>,
)
    ensures
        outline_rows(policy_id, types, conditions).len() == definition_count(types) + conditions.len(),
        forall|i: int|
            0 <= i < outline_rows(policy_id, types, conditions).len() ==> #[trigger] outline_rows(
                policy_id,
                types,
                conditions,
            )[i].policy_id == policy_id,
{
    lemma_type_rows_cover(policy_id, types);
    let a = type_rows(policy_id, types);
    let c = condition_rows(policy_id, conditions);
    assert forall|i: int| 0 <= i < (a + c).len() implies #[trigger] (a + c)[i].policy_id == policy_id by {
        if i < a.len() {
            assert((a + c)[i] == a[i]);
        } else {
            assert((a + c)[i] == c[i - a.len()]);
        }
    }
}

proof fn lemma_digit_char_injective(a: nat, b: nat)
    requires
        a < 10,
        b < 10,
        digit_char(a) == digit_char(b),
    ensures
        a == b,
{
}

proof fn lemma_decimal_injective(a: nat, b: nat)
    requires
        decimal(a) == decimal(b),
    ensures
        a == b,
    decreases a + b,
{
    if a < 10 && b < 10 {
        assert(decimal(a)[0] == digit_char(a));
        assert(decimal(b)[0] == digit_char(b));
        lemma_digit_char_injective(a, b);
    } else if a < 10 {
        lemma_decimal_nonempty(b / 10);
        assert(decimal(b).len() >= 2);
    } else if b < 10 {
        lemma_decimal_nonempty(a / 10);
        assert(decimal(a).len() >= 2);
    } else {
        let da = decimal(a / 10);
        let db = decimal(b / 10);
        assert(decimal(a) == da.push(digit_char(a % 10)));
        assert(decimal(b) == db.push(digit_char(b % 10)));
        assert(da =~= decimal(a).drop_last());
        assert(db =~= decimal(b).drop_last());
        lemma_decimal_injective(a / 10, b / 10);
        assert(decimal(a)[decimal(a).len() - 1] == digit_char(a % 10));
        assert(decimal(b)[decimal(b).len() - 1] == digit_char(b % 10));
        lemma_digit_char_injective(a % 10, b % 10);
    }
}

proof fn lemma_decimal_nonempty(n: nat)
    ensures
        decimal(n).len() >= 1,
    decreases n,
{
    if n >= 10 {
        lemma_decimal_nonempty(n / 10);
    }
}

/// `10^k`.
spec fn power_of_ten(k: nat) -> nat
    decreases k,
{
    if k == 0 {
        1
    } else {
        10 * power_of_ten((k - 1) as nat)
    }
}

proof fn lemma_decimal_len(n: nat, k: nat)
    requires
        k >= 1,
        n < power_of_ten(k),
    ensures
        decimal(n).len() <= k,
    decreases k,
{
    if n >= 10 {
        if k == 1 {
            reveal_with_fuel(power_of_ten, 2);
            assert(power_of_ten(1) == 10);
        } else {
            lemma_decimal_len(n / 10, (k - 1) as nat);
        }
    }
}

proof fn lemma_quantized_key_short(value: u128, quantum_secs: nat)
    requires
        quantum_secs > 0,
    ensures
        quantized_key(value, quantum_secs).len() <= 16,
        quantized_key(value, quantum_secs)[0] == 'q',
{
    reveal_strlit("q");
    let t = ulid_timestamp_ms(value) as nat;
    let q = quantum_secs * 1000;
    assert((value >> 80u128) < 0x1_0000_0000_0000u128) by (bit_vector);
    assert(t < 0x1_0000_0000_0000);
    vstd::arithmetic::div_mod::lemma_fundamental_div_mod(t as int, q as int);
    vstd::arithmetic::div_mod::lemma_mod_pos_bound(t as int, q as int);
    assert(quantize_ms(t, q) <= t) by (nonlinear_arith)
        requires
            q > 0,
            t as int == q * (t as int / q as int) + t as int % q as int,
            t as int % q as int >= 0,
    {
        assert(quantize_ms(t, q) == (t / q) * q);
    }
    reveal_with_fuel(power_of_ten, 16);
    assert(power_of_ten(15) == 1000000000000000);
    lemma_decimal_len(quantize_ms(t, q), 15);
}

/// Two ULID revisions get the same cache key exactly when their timestamps
/// fall in the same quantum window.
pub proof fn lemma_same_key_iff_same_window(a: Seq<char>, b: Seq<char>, quantum_secs: nat)
    requires
        quantum_secs > 0,
        ulid_decode(a) is Some,
        ulid_decode(b) is Some,
    ensures
        (quantized_revision(a, quantum_secs) == quantized_revision(b, quantum_secs)) == (ulid_timestamp_ms(
            ulid_decode(a).unwrap(),
        ) as int / (quantum_secs * 1000) as int == ulid_timestamp_ms(ulid_decode(b).unwrap()) as int / (
        quantum_secs * 1000) as int),
{
    assert(a.len() == 26 && a != "0"@) by {
        reveal_strlit("0");
    }
    assert(b.len() == 26 && b != "0"@) by {
        reveal_strlit("0");
    }
    let ta = ulid_timestamp_ms(ulid_decode(a).unwrap()) as nat;
    let tb = ulid_timestamp_ms(ulid_decode(b).unwrap()) as nat;
    let q = quantum_secs * 1000;
    let ka = quantized_key(ulid_decode(a).unwrap(), quantum_secs);
    let kb = quantized_key(ulid_decode(b).unwrap(), quantum_secs);
    reveal_strlit("q");
    if ka == kb {
        let da = decimal(quantize_ms(ta, q));
        let db = decimal(quantize_ms(tb, q));
        assert(da =~= ka.subrange(1, ka.len() as int));
        assert(db =~= kb.subrange(1, kb.len() as int));
        lemma_decimal_injective(quantize_ms(ta, q), quantize_ms(tb, q));
        assert((ta / q) * q == (tb / q) * q);
        assert(ta / q == tb / q) by (nonlinear_arith)
            requires
                q > 0,
                (ta / q) * q == (tb / q) * q,
        ;
    }
}

/// Quantizing a cache key again leaves it unchanged.
pub proof fn lemma_quantization_idempotent(revision: Seq<char>, quantum_secs: nat)
    ensures
        quantized_revision(quantized_revision(revision, quantum_secs), quantum_secs) == quantized_revision(
            revision,
            quantum_secs,
        ),
{
    if quantum_secs > 0 && revision != "0"@ {
        if let Some(v) = ulid_decode(revision) {
            let k = quantized_key(v, quantum_secs);
            lemma_quantized_key_short(v, quantum_secs);
            assert(k != "0"@) by {
                reveal_strlit("0");
                assert(k[0] != "0"@[0]);
            }
            assert(ulid_decode(k) is None);
        }
    }
}

/// A newly defined policy never finds the model cached for another policy:
/// at any revision, keys of different policies differ.
pub proof fn lemma_policies_have_distinct_keys(revision: Seq<char>, p1: Seq<char>, p2: Seq<char>)
    requires
        p1 != p2,
    ensures
        model_cache_key_of(revision, p1) != model_cache_key_of(revision, p2),
{
    let prefix = revision + ":"@;
    assert(model_cache_key_of(revision, p1) == prefix + p1);
    assert(model_cache_key_of(revision, p2) == prefix + p2);
    if prefix + p1 == prefix + p2 {
        assert(p1 =~= (prefix + p1).subrange(prefix.len() as int, (prefix + p1).len() as int));
        assert(p2 =~= (prefix + p2).subrange(prefix.len() as int, (prefix + p2).len() as int));
    }
}

} // verus!
