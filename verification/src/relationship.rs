//! Relationship tuples as the SQL interface exchanges them, and the parsing
//! of the `type:id` and `type:id#relation` notation.

use vstd::prelude::*;
use vstd::string::{StringExecFns, StrSliceExecFns};
use crate::text::chars_of;

verus! {

broadcast use vstd::string::group_string_axioms;

/// A relationship `object_type:object_id#relation@subject_type:subject_id`,
/// optionally guarded by a named condition.
pub struct PgRelationship {
    pub object_type: String,
    pub object_id: String,
    pub relation: String,
    pub subject_type: String,
    pub subject_id: String,
    pub condition: Option<String>,
}

/// A relationship as a test matrix writes it: `type:id` strings for object
/// and subject (the subject may carry `#relation`).
pub struct TestTuple {
    /// Object in format "type:id"
    pub object: String,
    /// Relation name
    pub relation: String,
    /// Subject in format "type:id" or "type:id#relation"
    pub subject: String,
    /// Optional condition for conditional relationships
    pub condition: Option<String>,
}

/// The position of the first occurrence of `c` in `s`, if any.
pub open spec fn first_index(s: Seq<char>, c: char) -> Option<int> {
    if exists|i: int| 0 <= i < s.len() && s[i] == c && forall|j: int| 0 <= j < i ==> s[j] != c {
        Some(choose|i: int| 0 <= i < s.len() && s[i] == c && forall|j: int| 0 <= j < i ==> s[j] != c)
    } else {
        None
    }
}

/// The first piece of `s` split at `c` (everything before the first `c`).
pub open spec fn piece_before(s: Seq<char>, c: char) -> Seq<char> {
    match first_index(s, c) {
        Some(i) => s.take(i),
        None => s,
    }
}

/// What follows the first `c` in `s`, if `s` holds a `c`.
pub open spec fn rest_after(s: Seq<char>, c: char) -> Option<Seq<char>> {
    match first_index(s, c) {
        Some(i) => Some(s.skip(i + 1)),
        None => None,
    }
}

/// The second piece of `s` split at `c`, if there is one.
pub open spec fn second_piece(s: Seq<char>, c: char) -> Option<Seq<char>> {
    match rest_after(s, c) {
        Some(r) => Some(piece_before(r, c)),
        None => None,
    }
}

/// The second piece of `s` split at `c`, or the empty string.
pub open spec fn second_piece_or_empty(s: Seq<char>, c: char) -> Seq<char> {
    match second_piece(s, c) {
        Some(p) => p,
        None => Seq::empty(),
    }
}

/// The type and id that `parse_object_id` reads from `type:id`.
pub open spec fn object_parts(object: Seq<char>) -> (Seq<char>, Seq<char>) {
    (piece_before(object, ':'), second_piece_or_empty(object, ':'))
}

/// The type, id and optional relation that `parse_subject_id` reads from
/// `type:id` or `type:id#relation`.
pub open spec fn subject_parts(subject: Seq<char>) -> (Seq<char>, Seq<char>, Option<Seq<char>>) {
    let base = piece_before(subject, '#');
    (piece_before(base, ':'), second_piece_or_empty(base, ':'), second_piece(subject, '#'))
}

/// The optional string's view.
pub open spec fn opt_str_view(o: Option<String>) -> Option<Seq<char>> {
    match o {
        Some(s) => Some(s@),
        None => None,
    }
}

/// The subject id a test tuple stores: the id, followed by `#relation` when
/// the subject names one.
pub open spec fn stored_subject_id(subject: Seq<char>) -> Seq<char> {
    let (_t, id, rel) = subject_parts(subject);
    match rel {
        Some(r) => id + "#"@ + r,
        None => id,
    }
}

/// Finds the first `c` in `s`.
fn find_char(s: &str, c: char) -> (r: Option<usize>)
    ensures
        r matches Some(i) ==> first_index(s@, c) == Some(i as int),
        r is None ==> first_index(s@, c) is None,
{
    let cs = chars_of(s);
    let mut i: usize = 0;
    while i < cs.len()
        invariant
            cs@ == s@,
            i <= cs.len(),
            forall|j: int| 0 <= j < i ==> cs@[j] != c,
        decreases cs.len() - i,
    {
        if cs[i] == c {
            let ghost w = choose|k: int|
                0 <= k < s@.len() && s@[k] == c && forall|j: int| 0 <= j < k ==> s@[j] != c;
            assert(0 <= i < s@.len() && s@[i as int] == c && forall|j: int|
                0 <= j < i ==> s@[j] != c);
            proof {
                if w < i {
                    assert(s@[w] != c);
                } else if w > i {
                    assert(s@[i as int] != c);
                }
            }
            return Some(i);
        }
        i += 1;
    }
    None
}

/// Splits `s` at its first `c`: the part before, and the part after if any.
fn split_once_char(s: &str, c: char) -> (r: (String, Option<String>))
    ensures
        r.0@ == piece_before(s@, c),
        opt_str_view(r.1) == rest_after(s@, c),
{
    match find_char(s, c) {
        Some(i) => {
            let n = s.unicode_len();
            let head = s.substring_char(0, i);
            let tail = s.substring_char(i + 1, n);
            (String::from_str(head), Some(String::from_str(tail)))
        },
        None => (String::from_str(s), None),
    }
}

/// The first two pieces of `s` split at `c`; the second is absent when `s`
/// holds no `c`.
fn first_two_pieces(s: &str, c: char) -> (r: (String, Option<String>))
    ensures
        r.0@ == piece_before(s@, c),
        opt_str_view(r.1) == second_piece(s@, c),
{
    let (head, rest) = split_once_char(s, c);
    match rest {
        Some(r) => {
            let (second, _more) = split_once_char(r.as_str(), c);
            (head, Some(second))
        },
        None => (head, None),
    }
}

/// Parses an object in `type:id` format into its type and id (missing
/// parts are empty; anything after a second `:` is dropped).
pub fn parse_object_id(object: &str) -> (r: (String, String))
    ensures
        (r.0@, r.1@) == object_parts(object@),
{
    let (object_type, id) = first_two_pieces(object, ':');
    let object_id = match id {
        Some(id) => id,
        None => String::new(),
    };
    (object_type, object_id)
}

/// Parses a subject in `type:id` or `type:id#relation` format into its type,
/// id and optional relation.
pub fn parse_subject_id(subject: &str) -> (r: (String, String, Option<String>))
    ensures
        (r.0@, r.1@, opt_str_view(r.2)) == subject_parts(subject@),
{
    let (base, relation) = first_two_pieces(subject, '#');
    let (subject_type, id) = first_two_pieces(base.as_str(), ':');
    let subject_id = match id {
        Some(id) => id,
        None => String::new(),
    };
    (subject_type, subject_id, relation)
}

/// Builds a relationship from its parts.
pub fn create_test_tuple(
    object_type: &str,
    object_id: &str,
    relation: &str,
    subject_type: &str,
    subject_id: &str,
    condition: Option<String>,
) -> (r: PgRelationship)
    ensures
        r.object_type@ == object_type@,
        r.object_id@ == object_id@,
        r.relation@ == relation@,
        r.subject_type@ == subject_type@,
        r.subject_id@ == subject_id@,
        r.condition == condition,
{
    PgRelationship {
        object_type: String::from_str(object_type),
        object_id: String::from_str(object_id),
        relation: String::from_str(relation),
        subject_type: String::from_str(subject_type),
        subject_id: String::from_str(subject_id),
        condition,
    }
}

/// Converts a test-matrix tuple into a relationship: the object splits into
/// type and id, the subject into type and id, and a subject relation stays
/// attached to the id as `id#relation`.
pub fn relationship_from_test_tuple(tuple: &TestTuple) -> (r: PgRelationship)
    ensures
        (r.object_type@, r.object_id@) == object_parts(tuple.object@),
        r.relation@ == tuple.relation@,
        r.subject_type@ == subject_parts(tuple.subject@).0,
        r.subject_id@ == stored_subject_id(tuple.subject@),
        opt_str_view(r.condition) == opt_str_view(tuple.condition),
{
    let (object_type, object_id) = parse_object_id(tuple.object.as_str());
    let (subject_type, base_id, subject_relation) = parse_subject_id(tuple.subject.as_str());
    let subject_id = match subject_relation {
        Some(rel) => {
            let mut id = base_id;
            id.append("#");
            id.append(rel.as_str());
            id
        },
        None => base_id,
    };
    let condition = match &tuple.condition {
        Some(c) => Some(c.clone()),
        None => None,
    };
    PgRelationship {
        object_type,
        object_id,
        relation: tuple.relation.clone(),
        subject_type,
        subject_id,
        condition,
    }
}

} // verus!
