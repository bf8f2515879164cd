//! What the model queries, the expand tree, argument validation and the
//! allowed-id filter mean, stated over all inputs.

use vstd::prelude::*;
use crate::expand::{direct_items, direct_line, node};
use crate::listing::allowed_ids;
use crate::relationship::PgRelationship;
use crate::model::{
    allowed_types, allowed_types_all, computed_names, computed_names_all, lookup_def, lookup_type, relations_to_check_of,
    target_types,
    tuple_check, writes_check, AssignableTarget, ModelFile, RelationExpr, TypeDef,
};
use crate::text::{byte_len, is_blank, is_identifier};
use crate::validation::{expand_args_check, MAX_ID_LEN, MAX_TYPE_LEN};

verus! {

proof fn lemma_allowed_all_has_member(es: Seq<RelationExpr>, i: int, t: Seq<char>)
    requires
        0 <= i < es.len(),
        allowed_types(es[i]).contains(t),
    ensures
        allowed_types_all(es).contains(t),
    decreases es.len(),
{
    let k = allowed_types(es.last()).index_of(t);
    if i == es.len() - 1 {
        let a = allowed_types_all(es.drop_last());
        let b = allowed_types(es.last());
        let j = choose|j: int| 0 <= j < b.len() && b[j] == t;
        assert((a + b)[a.len() + j] == t);
    } else {
        lemma_allowed_all_has_member(es.drop_last(), i, t);
        let a = allowed_types_all(es.drop_last());
        let b = allowed_types(es.last());
        let j = choose|j: int| 0 <= j < a.len() && a[j] == t;
        assert((a + b)[j] == t);
    }
}

proof fn lemma_target_types_has_type(targets: Seq<AssignableTarget>, j: int, t: Seq<char>)
    requires
        0 <= j < targets.len(),
        (targets[j] matches AssignableTarget::Type(name) && name@ == t) || (targets[j] matches AssignableTarget::Userset {
            object_type,
            ..
        } && object_type@ == t),
    ensures
        target_types(targets).contains(t),
    decreases targets.len(),
{
    let a = target_types(targets.drop_last());
    if j == targets.len() - 1 {
        assert((a + seq![t])[a.len() as int] == t);
    } else {
        lemma_target_types_has_type(targets.drop_last(), j, t);
        let k = choose|k: int| 0 <= k < a.len() && a[k] == t;
        let b = match targets.last() {
            AssignableTarget::Type(x) => seq![x@],
            AssignableTarget::Userset { object_type, .. } => seq![object_type@],
            _ => Seq::<Seq<char>>::empty(),
        };
        assert((a + b)[k] == t);
    }
}

/// A type that a direct assignment names, plainly (`[user]`) or through a
/// userset (`[group#member]`), is an allowed subject type of it.
pub proof fn lemma_direct_type_is_allowed(e: RelationExpr, j: int, t: Seq<char>)
    requires
        e matches RelationExpr::DirectAssignment(targets) && 0 <= j < targets@.len() && ((targets@[j] matches AssignableTarget::Type(
            name,
        ) && name@ == t) || (targets@[j] matches AssignableTarget::Userset { object_type, .. } && object_type@ == t)),
    ensures
        allowed_types(e).contains(t),
{
    if let RelationExpr::DirectAssignment(targets) = e {
        lemma_target_types_has_type(targets@, j, t);
    }
}

/// Every subject type allowed by a member of a union or of an intersection is
/// allowed by the union and by the intersection; an exclusion allows exactly
/// what its base allows.
pub proof fn lemma_set_operations_keep_allowed_types(e: RelationExpr, i: int, t: Seq<char>)
    ensures
        e is ComputedUserset || e is TupleToUserset ==> allowed_types(e).len() == 0,
        e matches RelationExpr::Union(es) && 0 <= i < es@.len() && allowed_types(es@[i]).contains(t) ==> allowed_types(
            e,
        ).contains(t),
        e matches RelationExpr::Intersection(es) && 0 <= i < es@.len() && allowed_types(es@[i]).contains(t)
            ==> allowed_types(e).contains(t),
        e matches RelationExpr::Exclusion { base, .. } ==> allowed_types(e) == allowed_types(*base),
{
    match e {
        RelationExpr::Union(es) => {
            if 0 <= i < es@.len() && allowed_types(es@[i]).contains(t) {
                lemma_allowed_all_has_member(es@, i, t);
            }
        },
        RelationExpr::Intersection(es) => {
            if 0 <= i < es@.len() && allowed_types(es@[i]).contains(t) {
                lemma_allowed_all_has_member(es@, i, t);
            }
        },
        _ => {},
    }
}

/// A relationship whose subject type is not among the non-empty allowed
/// types of its relation is refused, alone and among other writes.
pub proof fn lemma_disallowed_subject_refused(model: ModelFile, w: PgRelationship, td: TypeDef, rest: Seq<PgRelationship>)
    requires
        lookup_type(model, w.object_type@) == Some(td),
        lookup_def(td.relations@, w.relation@) matches Some(rd) && allowed_types(rd.expression).len() > 0
            && !allowed_types(rd.expression).contains(w.subject_type@),
    ensures
        tuple_check(model, w) is Err,
        writes_check(model, seq![w] + rest) is Err,
{
    assert((seq![w] + rest)[0] == w);
}

proof fn lemma_names_all_has_member(es: Seq<RelationExpr>, i: int, n: Seq<char>)
    requires
        0 <= i < es.len(),
        computed_names(es[i]).contains(n),
    ensures
        computed_names_all(es).contains(n),
    decreases es.len(),
{
    let a = computed_names_all(es.drop_last());
    let b = computed_names(es.last());
    if i == es.len() - 1 {
        let j = choose|j: int| 0 <= j < b.len() && b[j] == n;
        assert((a + b)[a.len() + j] == n);
    } else {
        lemma_names_all_has_member(es.drop_last(), i, n);
        let j = choose|j: int| 0 <= j < a.len() && a[j] == n;
        assert((a + b)[j] == n);
    }
}

/// The relations a permission refers to: a computed userset refers to its
/// relation; a union refers to everything its members refer to; an
/// exclusion refers exactly to what its base refers to, whatever the base
/// is; an intersection refers to nothing.
pub proof fn lemma_referred_relations(e: RelationExpr, i: int, n: Seq<char>)
    ensures
        e matches RelationExpr::ComputedUserset(r) ==> computed_names(e) == seq![r@],
        e matches RelationExpr::Union(es) && 0 <= i < es@.len() && computed_names(es@[i]).contains(n)
            ==> computed_names(e).contains(n),
        e matches RelationExpr::Exclusion { base, .. } ==> computed_names(e) == computed_names(*base),
        e matches RelationExpr::Intersection(_) ==> computed_names(e).len() == 0,
        e is DirectAssignment || e is TupleToUserset ==> computed_names(e).len() == 0,
{
    if let RelationExpr::Union(es) = e {
        if 0 <= i < es@.len() && computed_names(es@[i]).contains(n) {
            lemma_names_all_has_member(es@, i, n);
        }
    }
}

/// The node of a union is named `union`, that of an intersection
/// `intersection` and that of an exclusion `exclusion`.
pub proof fn lemma_nodes_name_their_operator(
    t: TypeDef,
    tuples: Seq<PgRelationship>,
    object_type: Seq<char>,
    object_id: Seq<char>,
    e: RelationExpr,
    relation: Seq<char>,
    indent: Seq<char>,
    fuel: nat,
)
    ensures
        e is Union ==> node(t, tuples, object_type, object_id, e, relation, indent, fuel).take(6) == "union("@,
        e is Intersection ==> node(t, tuples, object_type, object_id, e, relation, indent, fuel).take(13)
            == "intersection("@,
        e is Exclusion ==> node(t, tuples, object_type, object_id, e, relation, indent, fuel).take(10)
            == "exclusion("@,
{
    reveal_strlit("union");
    reveal_strlit("union(");
    reveal_strlit("intersection");
    reveal_strlit("intersection(");
    reveal_strlit("exclusion");
    reveal_strlit("exclusion(");
    reveal_strlit("()");
    reveal_strlit("(\n");
    let s = node(t, tuples, object_type, object_id, e, relation, indent, fuel);
    match e {
        RelationExpr::Union(_) => {
            assert(s.take(6) =~= "union("@);
        },
        RelationExpr::Intersection(_) => {
            assert(s.take(13) =~= "intersection("@);
        },
        RelationExpr::Exclusion { .. } => {
            assert(s.take(10) =~= "exclusion("@);
        },
        _ => {},
    }
}

/// An expand request is accepted exactly when the type, id and relation are
/// non-blank, the type and relation are at most 255 bytes and hold
/// identifier characters only, and the id is at most 1000 bytes; the
/// characters of the id are not restricted.
pub proof fn lemma_expand_args_accepted_exactly(object_type: Seq<char>, object_id: Seq<char>, relation: Seq<char>)
    ensures
        expand_args_check(object_type, object_id, relation) is Ok <==> {
            &&& !is_blank(object_type) && !is_blank(object_id) && !is_blank(relation)
            &&& byte_len(object_type) <= MAX_TYPE_LEN && byte_len(relation) <= MAX_TYPE_LEN
            &&& byte_len(object_id) <= MAX_ID_LEN
            &&& is_identifier(object_type) && is_identifier(relation)
        },
{
}

/// The number of `true` entries.
pub open spec fn count_true(s: Seq<bool>) -> nat
    decreases s.len(),
{
    if s.len() == 0 {
        0
    } else {
        (if s[0] {
            1nat
        } else {
            0nat
        }) + count_true(s.drop_first())
    }
}

/// Whether `id` is one of the ids at a position whose check is allowed.
pub open spec fn is_allowed_id(ids: Seq<Seq<char>>, allowed: Seq<bool>, id: Seq<char>) -> bool {
    exists|j: int| 0 <= j < ids.len() && j < allowed.len() && allowed[j] && #[trigger] ids[j] == id
}

/// The ids kept by the allowed filter are exactly the allowed ones: one per
/// `true` entry, every allowed id among them, and each of them an allowed id.
pub proof fn lemma_allowed_ids_exact(ids: Seq<Seq<char>>, allowed: Seq<bool>)
    requires
        ids.len() == allowed.len(),
    ensures
        allowed_ids(ids, allowed).len() == count_true(allowed),
        forall|i: int| 0 <= i < ids.len() && allowed[i] ==> allowed_ids(ids, allowed).contains(#[trigger] ids[i]),
        forall|k: int|
            0 <= k < allowed_ids(ids, allowed).len() ==> #[trigger] is_allowed_id(ids, allowed, allowed_ids(ids, allowed)[k]),
    decreases ids.len(),
{
    if ids.len() > 0 {
        let r = allowed_ids(ids, allowed);
        let rest = allowed_ids(ids.drop_first(), allowed.drop_first());
        lemma_allowed_ids_exact(ids.drop_first(), allowed.drop_first());
        assert forall|i: int| 0 <= i < ids.len() && allowed[i] implies r.contains(#[trigger] ids[i]) by {
            if i == 0 {
                assert(r[0] == ids[0]);
            } else {
                assert(ids.drop_first()[i - 1] == ids[i]);
                assert(allowed.drop_first()[i - 1] == allowed[i]);
                assert(rest.contains(ids[i]));
                let k = choose|k: int| 0 <= k < rest.len() && rest[k] == ids[i];
                if allowed[0] {
                    assert(r[k + 1] == ids[i]);
                } else {
                    assert(r[k] == ids[i]);
                }
            }
        }
    }
    assert forall|k: int| 0 <= k < allowed_ids(ids, allowed).len() implies #[trigger] is_allowed_id(ids, allowed, allowed_ids(ids, allowed)[k]) by {
        lemma_allowed_id_origin(ids, allowed, k);
    }
}

proof fn lemma_allowed_id_origin(ids: Seq<Seq<char>>, allowed: Seq<bool>, k: int)
    requires
        ids.len() == allowed.len(),
        0 <= k < allowed_ids(ids, allowed).len(),
    ensures
        is_allowed_id(ids, allowed, allowed_ids(ids, allowed)[k]),
    decreases ids.len(),
{
    let r = allowed_ids(ids, allowed);
    let rest = allowed_ids(ids.drop_first(), allowed.drop_first());
    if allowed[0] && k == 0 {
        assert(0 <= 0 < ids.len() && allowed[0] && ids[0] == r[k]);
    } else {
        let k2 = if allowed[0] {
            k - 1
        } else {
            k
        };
        assert(r[k] == rest[k2]);
        lemma_allowed_id_origin(ids.drop_first(), allowed.drop_first(), k2);
        let j = choose|j: int|
            0 <= j < ids.drop_first().len() && j < allowed.drop_first().len() && allowed.drop_first()[j] && #[trigger] ids.drop_first()[j] == rest[k2];
        assert(ids.drop_first()[j] == ids[j + 1]);
        assert(allowed.drop_first()[j] == allowed[j + 1]);
        assert(0 <= j + 1 < ids.len() && allowed[j + 1] && ids[j + 1] == r[k]);
    }
}

/// The relations a list-subjects request reads: for a permission of the
/// type, the relations its expression refers to; for anything else, the
/// relation itself.
pub proof fn lemma_relations_to_check(t: TypeDef, relation: Seq<char>)
    ensures
        lookup_def(t.permissions@, relation) is None ==> relations_to_check_of(t, relation) == seq![relation],
        lookup_def(t.permissions@, relation) matches Some(p) ==> relations_to_check_of(t, relation) == computed_names(
            p.expression,
        ),
{
}

/// Whether a stored relationship is on the object and relation.
pub open spec fn stored_on(t: PgRelationship, object_type: Seq<char>, object_id: Seq<char>, relation: Seq<char>) -> bool {
    t.object_type@ == object_type && t.object_id@ == object_id && t.relation@ == relation
}

/// Whether a line is the `direct(type:id)` line of a relationship stored on
/// the object and relation.
pub open spec fn is_stored_line(
    tuples: Seq<PgRelationship>,
    object_type: Seq<char>,
    object_id: Seq<char>,
    relation: Seq<char>,
    line: Seq<char>,
) -> bool {
    exists|j: int|
        0 <= j < tuples.len() && stored_on(tuples[j], object_type, object_id, relation) && #[trigger] direct_line(
            tuples[j],
        ) == line
}

/// The direct children of a node list exactly the relationships stored on
/// the object and relation, in order: each such relationship gives its
/// `direct(type:id)` line, and each line comes from such a relationship.
pub proof fn lemma_direct_items_exact(
    tuples: Seq<PgRelationship>,
    object_type: Seq<char>,
    object_id: Seq<char>,
    relation: Seq<char>,
)
    ensures
        forall|i: int|
            0 <= i < tuples.len() && stored_on(tuples[i], object_type, object_id, relation) ==> direct_items(
                tuples,
                object_type,
                object_id,
                relation,
            ).contains(#[trigger] direct_line(tuples[i])),
        forall|k: int|
            0 <= k < direct_items(tuples, object_type, object_id, relation).len() ==> #[trigger] is_stored_line(
                tuples,
                object_type,
                object_id,
                relation,
                direct_items(tuples, object_type, object_id, relation)[k],
            ),
    decreases tuples.len(),
{
    if tuples.len() > 0 {
        let pre = tuples.drop_last();
        let a = direct_items(pre, object_type, object_id, relation);
        let d = direct_items(tuples, object_type, object_id, relation);
        lemma_direct_items_exact(pre, object_type, object_id, relation);
        let last = tuples.last();
        let b = if stored_on(last, object_type, object_id, relation) {
            seq![direct_line(last)]
        } else {
            Seq::<Seq<char>>::empty()
        };
        assert(d == a + b);
        assert forall|i: int|
            0 <= i < tuples.len() && stored_on(tuples[i], object_type, object_id, relation) implies d.contains(
                #[trigger] direct_line(tuples[i]),
            ) by {
            if i == tuples.len() - 1 {
                assert(d[a.len() as int] == direct_line(tuples[i]));
            } else {
                assert(pre[i] == tuples[i]);
                assert(a.contains(direct_line(pre[i])));
                let k = choose|k: int| 0 <= k < a.len() && a[k] == direct_line(pre[i]);
                assert(d[k] == direct_line(tuples[i]));
            }
        }
        assert forall|k: int| 0 <= k < d.len() implies #[trigger] is_stored_line(tuples, object_type, object_id, relation, d[k]) by {
            if k < a.len() {
                assert(d[k] == a[k]);
                assert(is_stored_line(pre, object_type, object_id, relation, a[k]));
                let j = choose|j: int|
                    0 <= j < pre.len() && stored_on(pre[j], object_type, object_id, relation) && #[trigger] direct_line(
                        pre[j],
                    ) == a[k];
                assert(pre[j] == tuples[j]);
                assert(stored_on(tuples[j], object_type, object_id, relation) && direct_line(tuples[j]) == d[k]);
            } else {
                let j = tuples.len() - 1;
                assert(d[k] == direct_line(tuples[j]));
                assert(stored_on(tuples[j], object_type, object_id, relation));
            }
        }
    }
}

} // verus!
