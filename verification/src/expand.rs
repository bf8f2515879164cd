//! The permission tree of a relation on one object, as text.
//!
//! A relation's expression is rendered node by node: direct assignments list
//! the subjects stored for the relation on the object (`direct(type:id)`),
//! computed usersets follow the named relation of the same object, and
//! tuple-to-userset lists the objects the tupleset relation points to. A
//! union takes the direct subjects of its direct-assignment members as
//! children of its own. Children stand one per line, indented two spaces
//! deeper than their parent and separated by commas:
//!
//! ```text
//! union(
//!   direct(user:alice),
//!   computed(editor) -> union(
//!     direct(user:charlie)
//!   )
//! )
//! ```

use vstd::prelude::*;
use vstd::string::StringExecFns;
use crate::listing::views;
use crate::model::{find_def, find_type, lookup_def, lookup_type, ModelFile, RelationDef, RelationExpr, TypeDef};
use crate::relationship::PgRelationship;
use crate::requests::{expand_not_found_json, expand_not_found_text};

verus! {

broadcast use vstd::string::group_string_axioms;

/// How many computed usersets the tree follows below the root.
pub const MAX_EXPAND_DEPTH: usize = 25;

/// The line of one stored subject: `direct(<subject_type>:<subject_id>)`.
pub open spec fn direct_line(t: PgRelationship) -> Seq<char> {
    "direct("@ + t.subject_type@ + ":"@ + t.subject_id@ + ")"@
}

/// The subjects stored for `relation` on the object, in order.
pub open spec fn direct_items(tuples: Seq<PgRelationship>, object_type: Seq<char>, object_id: Seq<char>, relation: Seq<char>) -> Seq<Seq<char>>
    decreases tuples.len(),
{
    if tuples.len() == 0 {
        Seq::empty()
    } else {
        let t = tuples.last();
        direct_items(tuples.drop_last(), object_type, object_id, relation) + if t.object_type@ == object_type
            && t.object_id@ == object_id && t.relation@ == relation {
            seq![direct_line(t)]
        } else {
            Seq::<Seq<char>>::empty()
        }
    }
}

/// The children lines of a node, each behind `indent`, separated by
/// `",\n"`.
pub open spec fn item_lines(items: Seq<Seq<char>>, indent: Seq<char>) -> Seq<char>
    decreases items.len(),
{
    if items.len() == 0 {
        Seq::empty()
    } else if items.len() == 1 {
        indent + items[0]
    } else {
        item_lines(items.drop_last(), indent) + ",\n"@ + indent + items.last()
    }
}

/// A node named `name` with its children, the node itself standing at
/// `indent`: `name()` without children, otherwise the children on lines of
/// their own and the closing parenthesis back at `indent`.
pub open spec fn group(name: Seq<char>, items: Seq<Seq<char>>, indent: Seq<char>) -> Seq<char> {
    if items.len() == 0 {
        name + "()"@
    } else {
        name + "(\n"@ + item_lines(items, indent + "  "@) + "\n"@ + indent + ")"@
    }
}

/// A relation of the type, or failing that a permission of that name.
pub open spec fn type_def_relation(t: TypeDef, name: Seq<char>) -> Option<RelationDef> {
    match lookup_def(t.relations@, name) {
        Some(d) => Some(d),
        None => lookup_def(t.permissions@, name),
    }
}

/// The text of the node for expression `e` of `relation`, standing at
/// `indent`, following at most `fuel` more computed usersets.
pub open spec fn node(
    t: TypeDef,
    tuples: Seq<PgRelationship>,
    object_type: Seq<char>,
    object_id: Seq<char>,
    e: RelationExpr,
    relation: Seq<char>,
    indent: Seq<char>,
    fuel: nat,
) -> Seq<char>
    decreases fuel, e, 1nat,
{
    match e {
        RelationExpr::Union(es) => group(
            "union"@,
            union_items(t, tuples, object_type, object_id, es@, relation, indent + "  "@, fuel),
            indent,
        ),
        RelationExpr::Intersection(es) => group(
            "intersection"@,
            node_items(t, tuples, object_type, object_id, es@, relation, indent + "  "@, fuel),
            indent,
        ),
        RelationExpr::Exclusion { base, subtract } => group(
            "exclusion"@,
            seq![
                node(t, tuples, object_type, object_id, *base, relation, indent + "  "@, fuel),
                node(t, tuples, object_type, object_id, *subtract, relation, indent + "  "@, fuel),
            ],
            indent,
        ),
        RelationExpr::ComputedUserset(r) => "computed("@ + r@ + ") -> "@ + if fuel == 0 {
            "..."@
        } else {
            match type_def_relation(t, r@) {
                Some(d) => node(t, tuples, object_type, object_id, d.expression, r@, indent, (fuel - 1) as nat),
                None => "undefined"@,
            }
        },
        RelationExpr::TupleToUserset { computed_userset, tupleset } => "tuple_to_userset("@ + tupleset@ + " -> "@
            + computed_userset@ + ") -> "@ + group(
            "union"@,
            direct_items(tuples, object_type, object_id, tupleset@),
            indent,
        ),
        RelationExpr::DirectAssignment(_) => group("union"@, direct_items(tuples, object_type, object_id, relation), indent),
    }
}

/// The children of a union: the direct subjects of its direct-assignment
/// members, and a node for each other member.
pub open spec fn union_items(
    t: TypeDef,
    tuples: Seq<PgRelationship>,
    object_type: Seq<char>,
    object_id: Seq<char>,
    es: Seq<RelationExpr>,
    relation: Seq<char>,
    indent: Seq<char>,
    fuel: nat,
) -> Seq<Seq<char>>
    decreases fuel, es, 0nat,
{
    if es.len() == 0 {
        Seq::empty()
    } else {
        union_items(t, tuples, object_type, object_id, es.drop_last(), relation, indent, fuel) + match es.last() {
            RelationExpr::DirectAssignment(_) => direct_items(tuples, object_type, object_id, relation),
            _ => seq![node(t, tuples, object_type, object_id, es.last(), relation, indent, fuel)],
        }
    }
}

/// The children of an intersection: a node for each member.
pub open spec fn node_items(
    t: TypeDef,
    tuples: Seq<PgRelationship>,
    object_type: Seq<char>,
    object_id: Seq<char>,
    es: Seq<RelationExpr>,
    relation: Seq<char>,
    indent: Seq<char>,
    fuel: nat,
) -> Seq<Seq<char>>
    decreases fuel, es, 0nat,
{
    if es.len() == 0 {
        Seq::empty()
    } else {
        node_items(t, tuples, object_type, object_id, es.drop_last(), relation, indent, fuel) + seq![
            node(t, tuples, object_type, object_id, es.last(), relation, indent, fuel),
        ]
    }
}

/// The permission tree of `relation` on the object, given the tuples stored
/// on it: `None` when the model does not define the type, or the type
/// defines no such relation or permission.
pub open spec fn permission_tree(
    model: ModelFile,
    object_type: Seq<char>,
    object_id: Seq<char>,
    relation: Seq<char>,
    tuples: Seq<PgRelationship>,
) -> Option<Seq<char>> {
    match lookup_type(model, object_type) {
        Some(t) => match type_def_relation(t, relation) {
            Some(d) => Some(node(t, tuples, object_type, object_id, d.expression, relation, Seq::empty(), MAX_EXPAND_DEPTH as nat)),
            None => None,
        },
        None => None,
    }
}

/// Appends `b` to `a`.
fn concat(a: String, b: &str) -> (r: String)
    ensures
        r@ == a@ + b@,
{
    let mut a = a;
    a.append(b);
    a
}

/// The subjects stored for `relation` on the object.
fn direct_list(tuples: &Vec<PgRelationship>, object_type: &str, object_id: &str, relation: &str) -> (r: Vec<String>)
    ensures
        views(r@) == direct_items(tuples@, object_type@, object_id@, relation@),
{
    let ot = String::from_str(object_type);
    let oid = String::from_str(object_id);
    let rel = String::from_str(relation);
    let mut out: Vec<String> = Vec::new();
    let mut i: usize = 0;
    while i < tuples.len()
        invariant
            i <= tuples.len(),
            ot@ == object_type@,
            oid@ == object_id@,
            rel@ == relation@,
            views(out@) == direct_items(tuples@.take(i as int), object_type@, object_id@, relation@),
        decreases tuples.len() - i,
    {
        let t = &tuples[i];
        assert(tuples@.take(i + 1).drop_last() =~= tuples@.take(i as int));
        assert(tuples@.take(i + 1).last() == tuples@[i as int]);
        let ghost before = out@;
        if t.object_type == ot && t.object_id == oid && t.relation == rel {
            let mut line = String::from_str("direct(");
            line.append(t.subject_type.as_str());
            line.append(":");
            line.append(t.subject_id.as_str());
            line.append(")");
            out.push(line);
            assert(views(out@) =~= views(before) + seq![direct_line(tuples@[i as int])]);
        } else {
            assert(views(out@) =~= views(before) + Seq::<Seq<char>>::empty());
        }
        i += 1;
    }
    assert(tuples@.take(tuples.len() as int) =~= tuples@);
    out
}

/// The text of a node with its children.
fn group_text(name: &str, items: &Vec<String>, indent: &str) -> (r: String)
    ensures
        r@ == group(name@, views(items@), indent@),
{
    let ghost vs = views(items@);
    if items.len() == 0 {
        return concat(String::from_str(name), "()");
    }
    let child = concat(String::from_str(indent), "  ");
    let mut lines = String::new();
    let mut i: usize = 0;
    while i < items.len()
        invariant
            0 < items.len(),
            i <= items.len(),
            vs == views(items@),
            child@ == indent@ + "  "@,
            lines@ == item_lines(vs.take(i as int), child@),
        decreases items.len() - i,
    {
        assert(vs.take(i + 1).drop_last() =~= vs.take(i as int));
        assert(vs.take(i + 1).last() == items@[i as int]@);
        if i > 0 {
            lines.append(",\n");
        }
        lines.append(child.as_str());
        lines.append(items[i].as_str());
        proof {
            if i == 0 {
                assert(lines@ =~= child@ + vs.take(1)[0]);
            }
        }
        i += 1;
    }
    assert(vs.take(items.len() as int) =~= vs);
    let mut r = String::from_str(name);
    r.append("(\n");
    r.append(lines.as_str());
    r.append("\n");
    r.append(indent);
    r.append(")");
    r
}

/// A relation of the type, or failing that a permission of that name.
fn find_relation<'a>(t: &'a TypeDef, name: &str) -> (r: Option<&'a RelationDef>)
    ensures
        match type_def_relation(*t, name@) {
            Some(d) => r matches Some(x) && *x == d,
            None => r is None,
        },
{
    match find_def(&t.relations, name) {
        Some(i) => Some(&t.relations[i]),
        None => match find_def(&t.permissions, name) {
            Some(i) => Some(&t.permissions[i]),
            None => None,
        },
    }
}

/// The text of the node for expression `e` of `relation` (see `node`).
fn render_node(
    t: &TypeDef,
    tuples: &Vec<PgRelationship>,
    object_type: &str,
    object_id: &str,
    e: &RelationExpr,
    relation: &str,
    indent: &str,
    fuel: usize,
) -> (r: String)
    ensures
        r@ == node(*t, tuples@, object_type@, object_id@, *e, relation@, indent@, fuel as nat),
    decreases fuel, *e, 1nat,
{
    match e {
        RelationExpr::Union(es) => {
            let child = concat(String::from_str(indent), "  ");
            let items = render_union_items(t, tuples, object_type, object_id, es, relation, child.as_str(), fuel);
            group_text("union", &items, indent)
        },
        RelationExpr::Intersection(es) => {
            let child = concat(String::from_str(indent), "  ");
            let items = render_node_items(t, tuples, object_type, object_id, es, relation, child.as_str(), fuel);
            group_text("intersection", &items, indent)
        },
        RelationExpr::Exclusion { base, subtract } => {
            let child = concat(String::from_str(indent), "  ");
            let mut items: Vec<String> = Vec::new();
            items.push(render_node(t, tuples, object_type, object_id, base, relation, child.as_str(), fuel));
            items.push(render_node(t, tuples, object_type, object_id, subtract, relation, child.as_str(), fuel));
            assert(views(items@) =~= seq![
                node(*t, tuples@, object_type@, object_id@, **base, relation@, child@, fuel as nat),
                node(*t, tuples@, object_type@, object_id@, **subtract, relation@, child@, fuel as nat),
            ]);
            group_text("exclusion", &items, indent)
        },
        RelationExpr::ComputedUserset(r) => {
            let mut s = String::from_str("computed(");
            s.append(r.as_str());
            s.append(") -> ");
            if fuel == 0 {
                s.append("...");
            } else {
                match find_relation(t, r.as_str()) {
                    Some(d) => {
                        let inner = render_node(t, tuples, object_type, object_id, &d.expression, r.as_str(), indent, fuel - 1);
                        s.append(inner.as_str());
                    },
                    None => {
                        s.append("undefined");
                    },
                }
            }
            s
        },
        RelationExpr::TupleToUserset { computed_userset, tupleset } => {
            let mut s = String::from_str("tuple_to_userset(");
            s.append(tupleset.as_str());
            s.append(" -> ");
            s.append(computed_userset.as_str());
            s.append(") -> ");
            let items = direct_list(tuples, object_type, object_id, tupleset.as_str());
            let g = group_text("union", &items, indent);
            s.append(g.as_str());
            s
        },
        RelationExpr::DirectAssignment(_) => {
            let items = direct_list(tuples, object_type, object_id, relation);
            group_text("union", &items, indent)
        },
    }
}

/// The children of a union (see `union_items`).
fn render_union_items(
    t: &TypeDef,
    tuples: &Vec<PgRelationship>,
    object_type: &str,
    object_id: &str,
    es: &Vec<RelationExpr>,
    relation: &str,
    indent: &str,
    fuel: usize,
) -> (r: Vec<String>)
    ensures
        views(r@) == union_items(*t, tuples@, object_type@, object_id@, es@, relation@, indent@, fuel as nat),
    decreases fuel, es@, 0nat,
{
    let mut out: Vec<String> = Vec::new();
    let mut i: usize = 0;
    while i < es.len()
        invariant
            i <= es.len(),
            views(out@) == union_items(*t, tuples@, object_type@, object_id@, es@.take(i as int), relation@, indent@, fuel as nat),
        decreases es.len() - i,
    {
        assert(es@.take(i + 1).drop_last() =~= es@.take(i as int));
        assert(es@.take(i + 1).last() == es@[i as int]);
        let ghost before = views(out@);
        match &es[i] {
            RelationExpr::DirectAssignment(_) => {
                let mut direct = direct_list(tuples, object_type, object_id, relation);
                out.append(&mut direct);
                assert(views(out@) =~= before + direct_items(tuples@, object_type@, object_id@, relation@));
            },
            other => {
                let n = render_node(t, tuples, object_type, object_id, other, relation, indent, fuel);
                out.push(n);
                assert(views(out@) =~= before + seq![
                    node(*t, tuples@, object_type@, object_id@, es@[i as int], relation@, indent@, fuel as nat),
                ]);
            },
        }
        i += 1;
    }
    assert(es@.take(es.len() as int) =~= es@);
    out
}

/// The children of an intersection (see `node_items`).
fn render_node_items(
    t: &TypeDef,
    tuples: &Vec<PgRelationship>,
    object_type: &str,
    object_id: &str,
    es: &Vec<RelationExpr>,
    relation: &str,
    indent: &str,
    fuel: usize,
) -> (r: Vec<String>)
    ensures
        views(r@) == node_items(*t, tuples@, object_type@, object_id@, es@, relation@, indent@, fuel as nat),
    decreases fuel, es@, 0nat,
{
    let mut out: Vec<String> = Vec::new();
    let mut i: usize = 0;
    while i < es.len()
        invariant
            i <= es.len(),
            views(out@) == node_items(*t, tuples@, object_type@, object_id@, es@.take(i as int), relation@, indent@, fuel as nat),
        decreases es.len() - i,
    {
        assert(es@.take(i + 1).drop_last() =~= es@.take(i as int));
        assert(es@.take(i + 1).last() == es@[i as int]);
        let ghost before = views(out@);
        let n = render_node(t, tuples, object_type, object_id, &es[i], relation, indent, fuel);
        out.push(n);
        assert(views(out@) =~= before + seq![
            node(*t, tuples@, object_type@, object_id@, es@[i as int], relation@, indent@, fuel as nat),
        ]);
        i += 1;
    }
    assert(es@.take(es.len() as int) =~= es@);
    out
}

/// The permission tree of `relation` on the object `object_type:object_id`,
/// given the tuples stored on the object (see `permission_tree`); `None`
/// when the type or the relation is not defined.
pub fn permission_tree_text(
    model: &ModelFile,
    object_type: &str,
    object_id: &str,
    relation: &str,
    tuples: &Vec<PgRelationship>,
) -> (r: Option<String>)
    ensures
        match permission_tree(*model, object_type@, object_id@, relation@, tuples@) {
            Some(s) => r matches Some(x) && x@ == s,
            None => r is None,
        },
{
    match find_type(&model.type_defs, object_type) {
        None => None,
        Some(ti) => {
            let t = &model.type_defs[ti];
            assert(lookup_type(*model, object_type@) == Some(*t));
            match find_relation(t, relation) {
                None => None,
                Some(d) => {
                    proof {
                        reveal_strlit("");
                        assert(""@ =~= Seq::<char>::empty());
                    }
                    Some(render_node(t, tuples, object_type, object_id, &d.expression, relation, "", MAX_EXPAND_DEPTH))
                },
            }
        },
    }
}

/// The reply of an expand request: the permission tree, or an error naming
/// the relation and type when the type does not define it.
pub fn expand_reply(
    model: &ModelFile,
    object_type: &str,
    object_id: &str,
    relation: &str,
    tuples: &Vec<PgRelationship>,
) -> (r: String)
    ensures
        r@ == match permission_tree(*model, object_type@, object_id@, relation@, tuples@) {
            Some(s) => s,
            None => expand_not_found_text(object_type@, relation@),
        },
{
    match permission_tree_text(model, object_type, object_id, relation, tuples) {
        Some(s) => s,
        None => expand_not_found_json(object_type, relation),
    }
}

} // verus!
