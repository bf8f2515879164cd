//! The authorization model as the extension reads it: types with their
//! relations and permissions, and the relation expressions that define them.
//!
//! Values of these types are built from a parsed policy definition.

use vstd::prelude::*;
use vstd::string::StringExecFns;
use crate::listing::views;
use crate::errors::AuthzErrorKind;
use crate::relationship::PgRelationship;

verus! {

/// A target that a direct assignment `[...]` admits.
pub enum AssignableTarget {
    /// `user`
    Type(String),
    /// `group#member`
    Userset { object_type: String, relation: String },
    /// `user:*`
    Wildcard(String),
    /// `user with condition`
    Conditional { target: Box<AssignableTarget>, condition: String },
}

/// The expression that defines a relation or permission.
pub enum RelationExpr {
    Union(Vec<RelationExpr>),
    Intersection(Vec<RelationExpr>),
    Exclusion { base: Box<RelationExpr>, subtract: Box<RelationExpr> },
    ComputedUserset(String),
    TupleToUserset { computed_userset: String, tupleset: String },
    DirectAssignment(Vec<AssignableTarget>),
}

/// A named relation or permission.
pub struct RelationDef {
    pub name: String,
    pub expression: RelationExpr,
}

/// A type with its relations and permissions.
pub struct TypeDef {
    pub name: String,
    pub relations: Vec<RelationDef>,
    pub permissions: Vec<RelationDef>,
}

/// A parameter of a condition.
pub struct ConditionParam {
    pub name: String,
    pub param_type: String,
}

/// A named condition over typed parameters.
pub struct ConditionDef {
    pub name: String,
    pub params: Vec<ConditionParam>,
    pub expression: String,
}

/// A parsed authorization model.
pub struct ModelFile {
    pub type_defs: Vec<TypeDef>,
    pub condition_defs: Vec<ConditionDef>,
}

/// The relation names a permission expression refers to through computed
/// usersets, descending into unions and into the base of exclusions
/// (intersections, direct assignments and tuple-to-userset are skipped).
pub open spec fn computed_names(e: RelationExpr) -> Seq<Seq<char>>
    decreases e, 1nat,
{
    match e {
        RelationExpr::ComputedUserset(name) => seq![name@],
        RelationExpr::Union(nested) => computed_names_all(nested@),
        RelationExpr::Exclusion { base, .. } => computed_names(*base),
        _ => Seq::empty(),
    }
}

/// `computed_names` of each expression, in order.
pub open spec fn computed_names_all(exprs: Seq<RelationExpr>) -> Seq<Seq<char>>
    decreases exprs, 0nat,
{
    if exprs.len() == 0 {
        Seq::empty()
    } else {
        computed_names_all(exprs.drop_last()) + computed_names(exprs.last())
    }
}

/// The relation names a relation's expression draws tuples from: computed
/// usersets and the tupleset of tuple-to-userset, through unions,
/// intersections and both sides of exclusions.
pub open spec fn stored_names(e: RelationExpr) -> Seq<Seq<char>>
    decreases e, 1nat,
{
    match e {
        RelationExpr::DirectAssignment(_) => Seq::empty(),
        RelationExpr::ComputedUserset(name) => seq![name@],
        RelationExpr::Union(nested) => stored_names_all(nested@),
        RelationExpr::Intersection(nested) => stored_names_all(nested@),
        RelationExpr::Exclusion { base, subtract } => stored_names(*base) + stored_names(*subtract),
        RelationExpr::TupleToUserset { tupleset, .. } => seq![tupleset@],
    }
}

/// `stored_names` of each expression, in order.
pub open spec fn stored_names_all(exprs: Seq<RelationExpr>) -> Seq<Seq<char>>
    decreases exprs, 0nat,
{
    if exprs.len() == 0 {
        Seq::empty()
    } else {
        stored_names_all(exprs.drop_last()) + stored_names(exprs.last())
    }
}

/// The subject types a direct assignment names: plain types and the types of
/// usersets (wildcards and conditional targets are left out).
pub open spec fn target_types(targets: Seq<AssignableTarget>) -> Seq<Seq<char>>
    decreases targets.len(),
{
    if targets.len() == 0 {
        Seq::empty()
    } else {
        target_types(targets.drop_last()) + match targets.last() {
            AssignableTarget::Type(t) => seq![t@],
            AssignableTarget::Userset { object_type, .. } => seq![object_type@],
            _ => Seq::<Seq<char>>::empty(),
        }
    }
}

/// The subject types a relation's expression admits directly, through
/// unions, intersections and the base of exclusions.
pub open spec fn allowed_types(e: RelationExpr) -> Seq<Seq<char>>
    decreases e, 1nat,
{
    match e {
        RelationExpr::DirectAssignment(targets) => target_types(targets@),
        RelationExpr::Union(nested) => allowed_types_all(nested@),
        RelationExpr::Intersection(nested) => allowed_types_all(nested@),
        RelationExpr::Exclusion { base, .. } => allowed_types(*base),
        _ => Seq::empty(),
    }
}

/// `allowed_types` of each expression, in order.
pub open spec fn allowed_types_all(exprs: Seq<RelationExpr>) -> Seq<Seq<char>>
    decreases exprs, 0nat,
{
    if exprs.len() == 0 {
        Seq::empty()
    } else {
        allowed_types_all(exprs.drop_last()) + allowed_types(exprs.last())
    }
}

/// Appends the relation names that the expressions refer to through computed
/// usersets (see `computed_names`).
pub fn extract_relation_names_from_exprs(exprs: &Vec<RelationExpr>, relations: &mut Vec<String>)
    ensures
        views(final(relations)@) == views(old(relations)@) + computed_names_all(exprs@),
    decreases exprs@, 0nat,
{
    let ghost start = views(relations@);
    let mut i: usize = 0;
    while i < exprs.len()
        invariant
            i <= exprs.len(),
            views(relations@) == start + computed_names_all(exprs@.take(i as int)),
        decreases exprs.len() - i,
    {
        extract_relation_names_from_expr(&exprs[i], relations);
        assert(exprs@.take(i + 1).drop_last() =~= exprs@.take(i as int));
        i += 1;
    }
    assert(exprs@.take(exprs.len() as int) =~= exprs@);
}

/// Appends the relation names one expression refers to through computed
/// usersets (see `computed_names`).
pub fn extract_relation_names_from_expr(expr: &RelationExpr, relations: &mut Vec<String>)
    ensures
        views(final(relations)@) == views(old(relations)@) + computed_names(*expr),
    decreases *expr, 1nat,
{
    match expr {
        RelationExpr::ComputedUserset(name) => {
            let ghost before = relations@;
            relations.push(name.clone());
            assert(views(relations@) =~= views(before) + seq![name@]);
        },
        RelationExpr::Union(nested) => {
            extract_relation_names_from_exprs(nested, relations);
        },
        RelationExpr::Intersection(_) => {
            assert(views(relations@) =~= views(relations@) + Seq::<Seq<char>>::empty());
        },
        RelationExpr::Exclusion { base, .. } => {
            extract_relation_names_from_expr(base, relations);
        },
        _ => {
            assert(views(relations@) =~= views(relations@) + Seq::<Seq<char>>::empty());
        },
    }
}

/// Appends the relation names an expression draws tuples from (see
/// `stored_names`).
pub fn collect_stored_relations(expr: &RelationExpr, out: &mut Vec<String>)
    ensures
        views(final(out)@) == views(old(out)@) + stored_names(*expr),
    decreases *expr, 1nat,
{
    match expr {
        RelationExpr::DirectAssignment(_) => {
            assert(views(out@) =~= views(out@) + Seq::<Seq<char>>::empty());
        },
        RelationExpr::ComputedUserset(rel) => {
            let ghost before = out@;
            out.push(rel.clone());
            assert(views(out@) =~= views(before) + seq![rel@]);
        },
        RelationExpr::Union(exprs) => {
            collect_stored_relations_all(exprs, out);
        },
        RelationExpr::Intersection(exprs) => {
            collect_stored_relations_all(exprs, out);
        },
        RelationExpr::Exclusion { base, subtract } => {
            let ghost before = views(out@);
            collect_stored_relations(base, out);
            collect_stored_relations(subtract, out);
            assert(views(out@) =~= before + (stored_names(**base) + stored_names(**subtract)));
        },
        RelationExpr::TupleToUserset { tupleset, .. } => {
            let ghost before = out@;
            out.push(tupleset.clone());
            assert(views(out@) =~= views(before) + seq![tupleset@]);
        },
    }
}

/// Appends `stored_names` of each expression, in order.
fn collect_stored_relations_all(exprs: &Vec<RelationExpr>, out: &mut Vec<String>)
    ensures
        views(final(out)@) == views(old(out)@) + stored_names_all(exprs@),
    decreases exprs@, 0nat,
{
    let ghost start = views(out@);
    let mut i: usize = 0;
    while i < exprs.len()
        invariant
            i <= exprs.len(),
            views(out@) == start + stored_names_all(exprs@.take(i as int)),
        decreases exprs.len() - i,
    {
        collect_stored_relations(&exprs[i], out);
        assert(exprs@.take(i + 1).drop_last() =~= exprs@.take(i as int));
        i += 1;
    }
    assert(exprs@.take(exprs.len() as int) =~= exprs@);
}

/// Appends the subject types a direct assignment names (see `target_types`).
fn push_target_types(targets: &Vec<AssignableTarget>, out: &mut Vec<String>)
    ensures
        views(final(out)@) == views(old(out)@) + target_types(targets@),
{
    let ghost start = views(out@);
    let mut i: usize = 0;
    while i < targets.len()
        invariant
            i <= targets.len(),
            views(out@) == start + target_types(targets@.take(i as int)),
        decreases targets.len() - i,
    {
        let ghost before = views(out@);
        assert(targets@.take(i + 1).drop_last() =~= targets@.take(i as int));
        match &targets[i] {
            AssignableTarget::Type(t) => {
                out.push(t.clone());
                assert(views(out@) =~= before + seq![t@]);
            },
            AssignableTarget::Userset { object_type, .. } => {
                out.push(object_type.clone());
                assert(views(out@) =~= before + seq![object_type@]);
            },
            _ => {
                assert(views(out@) =~= before + Seq::<Seq<char>>::empty());
            },
        }
        i += 1;
    }
    assert(targets@.take(targets.len() as int) =~= targets@);
}

/// Appends the subject types an expression admits directly (see
/// `allowed_types`).
pub fn push_allowed_types(expr: &RelationExpr, out: &mut Vec<String>)
    ensures
        views(final(out)@) == views(old(out)@) + allowed_types(*expr),
    decreases *expr, 1nat,
{
    match expr {
        RelationExpr::DirectAssignment(targets) => {
            push_target_types(targets, out);
        },
        RelationExpr::Union(exprs) => {
            push_allowed_types_all(exprs, out);
        },
        RelationExpr::Intersection(exprs) => {
            push_allowed_types_all(exprs, out);
        },
        RelationExpr::Exclusion { base, .. } => {
            push_allowed_types(base, out);
        },
        _ => {
            assert(views(out@) =~= views(out@) + Seq::<Seq<char>>::empty());
        },
    }
}

/// Appends `allowed_types` of each expression, in order.
fn push_allowed_types_all(exprs: &Vec<RelationExpr>, out: &mut Vec<String>)
    ensures
        views(final(out)@) == views(old(out)@) + allowed_types_all(exprs@),
    decreases exprs@, 0nat,
{
    let ghost start = views(out@);
    let mut i: usize = 0;
    while i < exprs.len()
        invariant
            i <= exprs.len(),
            views(out@) == start + allowed_types_all(exprs@.take(i as int)),
        decreases exprs.len() - i,
    {
        push_allowed_types(&exprs[i], out);
        assert(exprs@.take(i + 1).drop_last() =~= exprs@.take(i as int));
        i += 1;
    }
    assert(exprs@.take(exprs.len() as int) =~= exprs@);
}

/// The subject types a relation's expression admits directly.
pub fn extract_allowed_types(expr: &RelationExpr) -> (r: Vec<String>)
    ensures
        views(r@) == allowed_types(*expr),
{
    let mut out: Vec<String> = Vec::new();
    push_allowed_types(expr, &mut out);
    assert(views(out@) =~= Seq::<Seq<char>>::empty() + allowed_types(*expr));
    out
}

/// The position of the first of `names` equal to `name`, if any.
pub open spec fn first_named(names: Seq<Seq<char>>, name: Seq<char>) -> Option<int> {
    if exists|i: int| 0 <= i < names.len() && names[i] == name && forall|j: int| 0 <= j < i ==> names[j] != name {
        Some(choose|i: int| 0 <= i < names.len() && names[i] == name && forall|j: int| 0 <= j < i ==> names[j] != name)
    } else {
        None
    }
}

/// The names of a list of types.
pub open spec fn type_names(types: Seq<TypeDef>) -> Seq<Seq<char>> {
    types.map_values(|t: TypeDef| t.name@)
}

/// The names of a list of relations or permissions.
pub open spec fn def_names(defs: Seq<RelationDef>) -> Seq<Seq<char>> {
    defs.map_values(|d: RelationDef| d.name@)
}

/// The first type of the model with the given name.
pub open spec fn lookup_type(model: ModelFile, name: Seq<char>) -> Option<TypeDef> {
    match first_named(type_names(model.type_defs@), name) {
        Some(i) => Some(model.type_defs@[i]),
        None => None,
    }
}

/// The first definition in the list with the given name.
pub open spec fn lookup_def(defs: Seq<RelationDef>, name: Seq<char>) -> Option<RelationDef> {
    match first_named(def_names(defs), name) {
        Some(i) => Some(defs[i]),
        None => None,
    }
}

/// A relation of a type, or failing that a permission of that name.
pub open spec fn lookup_relation(model: ModelFile, object_type: Seq<char>, relation: Seq<char>) -> Option<RelationDef> {
    match lookup_type(model, object_type) {
        Some(t) => match lookup_def(t.relations@, relation) {
            Some(r) => Some(r),
            None => lookup_def(t.permissions@, relation),
        },
        None => None,
    }
}

/// Whether the type defines a permission of that name.
pub open spec fn is_permission_of(model: ModelFile, object_type: Seq<char>, relation: Seq<char>) -> bool {
    match lookup_type(model, object_type) {
        Some(t) => lookup_def(t.permissions@, relation) is Some,
        None => false,
    }
}

/// Finds the first of `names` equal to `name`, given a way to read the i-th name.
proof fn lemma_first_named(names: Seq<Seq<char>>, name: Seq<char>, i: int)
    requires
        0 <= i < names.len(),
        names[i] == name,
        forall|j: int| 0 <= j < i ==> names[j] != name,
    ensures
        first_named(names, name) == Some(i),
{
    let k = choose|k: int| 0 <= k < names.len() && names[k] == name && forall|j: int| 0 <= j < k ==> names[j] != name;
    if k < i {
        assert(names[k] != name);
    } else if k > i {
        assert(names[i] != name);
    }
}

/// The index of the first type with the given name.
pub(crate) fn find_type(types: &Vec<TypeDef>, name: &str) -> (r: Option<usize>)
    ensures
        r matches Some(i) ==> i < types.len() && first_named(type_names(types@), name@) == Some(i as int),
        r is None ==> first_named(type_names(types@), name@) is None,
{
    let target = String::from_str(name);
    let ghost names = type_names(types@);
    let mut i: usize = 0;
    while i < types.len()
        invariant
            i <= types.len(),
            names == type_names(types@),
            target@ == name@,
            forall|j: int| 0 <= j < i ==> names[j] != name@,
        decreases types.len() - i,
    {
        assert(names[i as int] == types@[i as int].name@);
        if types[i].name == target {
            proof {
                lemma_first_named(names, name@, i as int);
            }
            return Some(i);
        }
        i += 1;
    }
    None
}

/// The index of the first definition with the given name.
pub(crate) fn find_def(defs: &Vec<RelationDef>, name: &str) -> (r: Option<usize>)
    ensures
        r matches Some(i) ==> i < defs.len() && first_named(def_names(defs@), name@) == Some(i as int),
        r is None ==> first_named(def_names(defs@), name@) is None,
{
    let target = String::from_str(name);
    let ghost names = def_names(defs@);
    let mut i: usize = 0;
    while i < defs.len()
        invariant
            i <= defs.len(),
            names == def_names(defs@),
            target@ == name@,
            forall|j: int| 0 <= j < i ==> names[j] != name@,
        decreases defs.len() - i,
    {
        assert(names[i as int] == defs@[i as int].name@);
        if defs[i].name == target {
            proof {
                lemma_first_named(names, name@, i as int);
            }
            return Some(i);
        }
        i += 1;
    }
    None
}

/// The relation names a list-subjects request reads tuples for, when the
/// type exists: a permission's computed-userset relations, or the relation
/// itself.
pub open spec fn relations_to_check_of(t: TypeDef, relation: Seq<char>) -> Seq<Seq<char>> {
    match lookup_def(t.permissions@, relation) {
        Some(p) => computed_names(p.expression),
        None => seq![relation],
    }
}

/// The relation names a list-subjects request reads tuples for: when
/// `relation` is a permission of the type, the relations its expression
/// refers to through computed usersets; otherwise the relation itself. Fails
/// with "Type '<object_type>' not found" when the model has no such type.
pub fn relations_to_check(model: &ModelFile, object_type: &str, relation: &str) -> (r: Result<Vec<String>, String>)
    ensures
        match lookup_type(*model, object_type@) {
            Some(t) => r matches Ok(v) && views(v@) == relations_to_check_of(t, relation@),
            None => r matches Err(m) && m@ == "Type '"@ + object_type@ + "' not found"@,
        },
{
    match find_type(&model.type_defs, object_type) {
        Some(ti) => {
            let t = &model.type_defs[ti];
            match find_def(&t.permissions, relation) {
                Some(pi) => {
                    let mut relations: Vec<String> = Vec::new();
                    extract_relation_names_from_expr(&t.permissions[pi].expression, &mut relations);
                    assert(views(relations@) =~= Seq::<Seq<char>>::empty() + computed_names(t.permissions@[pi as int].expression));
                    Ok(relations)
                },
                None => {
                    let mut relations: Vec<String> = Vec::new();
                    relations.push(String::from_str(relation));
                    assert(views(relations@) =~= seq![relation@]);
                    Ok(relations)
                },
            }
        },
        None => {
            let mut m = String::from_str("Type '");
            m.append(object_type);
            m.append("' not found");
            Err(m)
        },
    }
}

/// The relation names a relation or permission resolves to when its stored
/// tuples are read: for a permission whose expression refers to stored
/// relations, those relations; otherwise the name itself.
pub open spec fn stored_relations_of(model: ModelFile, object_type: Seq<char>, relation: Seq<char>) -> Seq<Seq<char>> {
    if is_permission_of(model, object_type, relation) {
        match lookup_relation(model, object_type, relation) {
            Some(d) => if stored_names(d.expression).len() > 0 {
                stored_names(d.expression)
            } else {
                seq![relation]
            },
            None => seq![relation],
        }
    } else {
        seq![relation]
    }
}

/// The relation names to read stored tuples for (see `stored_relations_of`).
pub fn resolve_stored_relations(model: &ModelFile, object_type: &str, relation: &str) -> (r: Vec<String>)
    ensures
        views(r@) == stored_relations_of(*model, object_type@, relation@),
{
    let mut single: Vec<String> = Vec::new();
    single.push(String::from_str(relation));
    assert(views(single@) =~= seq![relation@]);
    let ti = match find_type(&model.type_defs, object_type) {
        Some(ti) => ti,
        None => return single,
    };
    let t = &model.type_defs[ti];
    if find_def(&t.permissions, relation).is_none() {
        return single;
    }
    let def = match find_def(&t.relations, relation) {
        Some(ri) => &t.relations[ri],
        None => match find_def(&t.permissions, relation) {
            Some(pi) => &t.permissions[pi],
            None => return single,
        },
    };
    let mut relations: Vec<String> = Vec::new();
    collect_stored_relations(&def.expression, &mut relations);
    assert(views(relations@) =~= Seq::<Seq<char>>::empty() + stored_names(def.expression));
    if relations.len() > 0 {
        relations
    } else {
        single
    }
}

/// The text `format!("{:?}", list)` gives for a list of strings.
pub uninterp spec fn debug_list(items: Seq<Seq<char>>) -> Seq<char>;

/// Renders a list of strings as `Debug` does (e.g. `["user", "group"]`); the
/// text depends on the strings alone.
#[verifier::external_body]
fn debug_string_list(items: &Vec<String>) -> (r: String)
    ensures
        r@ == debug_list(views(items@)),
{
    format!("{:?}", items)
}

/// Why writing a relationship is refused, if it is: its object type must be a
/// type of the model, its relation a relation (not a permission) of that
/// type, and its subject type one the relation admits directly (any subject
/// type is accepted when the relation admits none directly).
pub open spec fn tuple_check(model: ModelFile, t: PgRelationship) -> Result<(), Seq<char>> {
    match lookup_type(model, t.object_type@) {
        None => Err("object_type '"@ + t.object_type@ + "' not defined in authorization model"@),
        Some(td) => match lookup_def(td.relations@, t.relation@) {
            None => Err("relation '"@ + t.relation@ + "' not defined for type '"@ + t.object_type@
                + "' in authorization model"@),
            Some(rd) => {
                let allowed = allowed_types(rd.expression);
                if allowed.len() > 0 && !allowed.contains(t.subject_type@) {
                    Err("subject_type '"@ + t.subject_type@ + "' not allowed for relation '"@
                        + t.relation@ + "' on type '"@ + t.object_type@ + "'. Allowed types: "@
                        + debug_list(allowed))
                } else {
                    Ok(())
                }
            },
        },
    }
}

/// The first refusal among a list of relationships, in order.
pub open spec fn writes_check(model: ModelFile, writes: Seq<PgRelationship>) -> Result<(), Seq<char>>
    decreases writes.len(),
{
    if writes.len() == 0 {
        Ok(())
    } else {
        match tuple_check(model, writes[0]) {
            Ok(()) => writes_check(model, writes.drop_first()),
            Err(m) => Err(m),
        }
    }
}

/// Whether `items` holds a string equal to `s`.
fn contains_string(items: &Vec<String>, s: &String) -> (r: bool)
    ensures
        r == views(items@).contains(s@),
{
    let mut i: usize = 0;
    while i < items.len()
        invariant
            i <= items.len(),
            forall|j: int| 0 <= j < i ==> views(items@)[j] != s@,
        decreases items.len() - i,
    {
        if items[i] == *s {
            assert(views(items@)[i as int] == s@);
            return true;
        }
        i += 1;
    }
    false
}

/// Checks one relationship against the model (see `tuple_check`).
pub fn check_tuple_against_model(model: &ModelFile, t: &PgRelationship) -> (r: Result<(), String>)
    ensures
        match tuple_check(*model, *t) {
            Ok(()) => r is Ok,
            Err(m) => r matches Err(s) && s@ == m,
        },
{
    let ti = match find_type(&model.type_defs, t.object_type.as_str()) {
        Some(ti) => ti,
        None => {
            let mut m = String::from_str("object_type '");
            m.append(t.object_type.as_str());
            m.append("' not defined in authorization model");
            return Err(m);
        },
    };
    let td = &model.type_defs[ti];
    let ri = match find_def(&td.relations, t.relation.as_str()) {
        Some(ri) => ri,
        None => {
            let mut m = String::from_str("relation '");
            m.append(t.relation.as_str());
            m.append("' not defined for type '");
            m.append(t.object_type.as_str());
            m.append("' in authorization model");
            return Err(m);
        },
    };
    let allowed = extract_allowed_types(&td.relations[ri].expression);
    if allowed.len() > 0 && !contains_string(&allowed, &t.subject_type) {
        let mut m = String::from_str("subject_type '");
        m.append(t.subject_type.as_str());
        m.append("' not allowed for relation '");
        m.append(t.relation.as_str());
        m.append("' on type '");
        m.append(t.object_type.as_str());
        m.append("'. Allowed types: ");
        let listed = debug_string_list(&allowed);
        m.append(listed.as_str());
        return Err(m);
    }
    Ok(())
}

/// Checks relationships about to be written against the model, in order,
/// and refuses the first that does not fit it as a relationship validation
/// error (see `tuple_check`).
pub fn validate_tuple_writes(model: &ModelFile, writes: &Vec<PgRelationship>) -> (r: Result<(), AuthzErrorKind>)
    ensures
        match writes_check(*model, writes@) {
            Ok(()) => r is Ok,
            Err(m) => r matches Err(AuthzErrorKind::RelationshipValidation(s)) && s@ == m,
        },
{
    let mut i: usize = 0;
    assert(writes@.skip(0) =~= writes@);
    while i < writes.len()
        invariant
            i <= writes.len(),
            writes_check(*model, writes@) == writes_check(*model, writes@.skip(i as int)),
        decreases writes.len() - i,
    {
        assert(writes@.skip(i as int)[0] == writes@[i as int]);
        assert(writes@.skip(i as int).drop_first() =~= writes@.skip(i + 1));
        match check_tuple_against_model(model, &writes[i]) {
            Ok(()) => {},
            Err(m) => return Err(AuthzErrorKind::RelationshipValidation(m)),
        }
        i += 1;
    }
    assert(writes@.skip(i as int).len() == 0);
    Ok(())
}

/// Checks relationships about to be written against the latest model: with
/// nothing to write, or no model defined yet, every write is accepted.
pub fn validate_writes_against_policy(model: Option<&ModelFile>, writes: &Vec<PgRelationship>) -> (r: Result<(), AuthzErrorKind>)
    ensures
        writes@.len() == 0 ==> r is Ok,
        model is None ==> r is Ok,
        model matches Some(m) ==> match writes_check(*m, writes@) {
            Ok(()) => r is Ok,
            Err(e) => r matches Err(AuthzErrorKind::RelationshipValidation(s)) && s@ == e,
        },
{
    if writes.len() == 0 {
        return Ok(());
    }
    match model {
        Some(m) => validate_tuple_writes(m, writes),
        None => Ok(()),
    }
}

/// What a row of the computed policy describes.
#[derive(Debug, Clone, Copy, PartialEq, Eq, Structural)]
pub enum RowSource {
    /// The `index`-th relation of the `type_index`-th type.
    Relation { type_index: usize, index: usize },
    /// The `index`-th permission of the `type_index`-th type.
    Permission { type_index: usize, index: usize },
    /// The `index`-th condition.
    Condition { index: usize },
}

/// One row of the computed policy: for a relation or permission, its type
/// and name; for a condition, an empty type, its name, and its name and
/// expression again as condition details. The expression and parameter
/// texts of a row are rendered from the definition its source points at.
pub struct PolicyRow {
    pub policy_id: String,
    pub type_label: String,
    pub relation_name: String,
    pub relation_type: String,
    pub condition_name: Option<String>,
    pub condition_expression: Option<String>,
    pub source: RowSource,
}

/// A row's contents as character sequences.
pub struct PolicyRowView {
    pub policy_id: Seq<char>,
    pub type_label: Seq<char>,
    pub relation_name: Seq<char>,
    pub relation_type: Seq<char>,
    pub condition_name: Option<Seq<char>>,
    pub condition_expression: Option<Seq<char>>,
    pub source: RowSource,
}

/// The view of a row.
pub open spec fn row_view(r: PolicyRow) -> PolicyRowView {
    PolicyRowView {
        policy_id: r.policy_id@,
        type_label: r.type_label@,
        relation_name: r.relation_name@,
        relation_type: r.relation_type@,
        condition_name: match r.condition_name {
            Some(c) => Some(c@),
            None => None,
        },
        condition_expression: match r.condition_expression {
            Some(c) => Some(c@),
            None => None,
        },
        source: r.source,
    }
}

/// The views of a list of rows.
pub open spec fn rows_view(rows: Seq<PolicyRow>) -> Seq<PolicyRowView> {
    rows.map_values(|r: PolicyRow| row_view(r))
}

/// A type as the computed policy sees it: its name, the names of its
/// relations and the names of its permissions.
pub type TypeOutlineView = (Seq<char>, Seq<Seq<char>>, Seq<Seq<char>>);

/// The view of a type outline.
pub open spec fn type_outline_view(t: (String, Vec<String>, Vec<String>)) -> TypeOutlineView {
    (t.0@, views(t.1@), views(t.2@))
}

/// The views of a list of type outlines.
pub open spec fn outline_view(types: Seq<(String, Vec<String>, Vec<String>)>) -> Seq<TypeOutlineView> {
    types.map_values(|t: (String, Vec<String>, Vec<String>)| type_outline_view(t))
}

/// A condition as its name and expression.
pub open spec fn pair_view(p: (String, String)) -> (Seq<char>, Seq<char>) {
    (p.0@, p.1@)
}

/// The views of a list of conditions.
pub open spec fn pairs_view(ps: Seq<(String, String)>) -> Seq<(Seq<char>, Seq<char>)> {
    ps.map_values(|p: (String, String)| pair_view(p))
}

/// The outline of a model's types.
pub open spec fn model_types_outline(model: ModelFile) -> Seq<TypeOutlineView> {
    model.type_defs@.map_values(|t: TypeDef| (t.name@, def_names(t.relations@), def_names(t.permissions@)))
}

/// A model's conditions as (name, expression).
pub open spec fn model_conditions(model: ModelFile) -> Seq<(Seq<char>, Seq<char>)> {
    model.condition_defs@.map_values(|c: ConditionDef| (c.name@, c.expression@))
}

/// The rows of the relations (or permissions) of the `ti`-th type.
pub open spec fn def_rows(policy_id: Seq<char>, t: TypeOutlineView, ti: int, permissions: bool) -> Seq<PolicyRowView> {
    let names = if permissions {
        t.2
    } else {
        t.1
    };
    Seq::new(
        names.len(),
        |i: int|
            PolicyRowView {
                policy_id,
                type_label: t.0,
                relation_name: names[i],
                relation_type: if permissions {
                    "permission"@
                } else {
                    "relation"@
                },
                condition_name: None,
                condition_expression: None,
                source: if permissions {
                    RowSource::Permission { type_index: ti as usize, index: i as usize }
                } else {
                    RowSource::Relation { type_index: ti as usize, index: i as usize }
                },
            },
    )
}

/// The rows of a list of types: for each type, its relations, then its
/// permissions.
pub open spec fn type_rows(policy_id: Seq<char>, types: Seq<TypeOutlineView>) -> Seq<PolicyRowView>
    decreases types.len(),
{
    if types.len() == 0 {
        Seq::empty()
    } else {
        let ti = types.len() - 1;
        type_rows(policy_id, types.drop_last()) + def_rows(policy_id, types.last(), ti, false) + def_rows(
            policy_id,
            types.last(),
            ti,
            true,
        )
    }
}

/// The rows of the conditions.
pub open spec fn condition_rows(policy_id: Seq<char>, conditions: Seq<(Seq<char>, Seq<char>)>) -> Seq<PolicyRowView> {
    Seq::new(
        conditions.len(),
        |i: int|
            PolicyRowView {
                policy_id,
                type_label: Seq::empty(),
                relation_name: conditions[i].0,
                relation_type: "condition"@,
                condition_name: Some(conditions[i].0),
                condition_expression: Some(conditions[i].1),
                source: RowSource::Condition { index: i as usize },
            },
    )
}

/// All rows of the computed policy of an outline: the type rows, then the
/// condition rows.
pub open spec fn outline_rows(policy_id: Seq<char>, types: Seq<TypeOutlineView>, conditions: Seq<(Seq<char>, Seq<char>)>) -> Seq<PolicyRowView> {
    type_rows(policy_id, types) + condition_rows(policy_id, conditions)
}

/// All rows of the computed policy of a model.
pub open spec fn policy_rows_of(policy_id: Seq<char>, model: ModelFile) -> Seq<PolicyRowView> {
    outline_rows(policy_id, model_types_outline(model), model_conditions(model))
}

/// A copy of a list of strings.
fn copy_strings(v: &Vec<String>) -> (r: Vec<String>)
    ensures
        views(r@) == views(v@),
{
    let mut out: Vec<String> = Vec::new();
    let mut i: usize = 0;
    while i < v.len()
        invariant
            i <= v.len(),
            views(out@) =~= views(v@).take(i as int),
        decreases v.len() - i,
    {
        let ghost before = out@;
        out.push(v[i].clone());
        assert(views(out@) =~= views(before).push(v@[i as int]@));
        assert(views(v@).take(i + 1) =~= views(v@).take(i as int).push(v@[i as int]@));
        i += 1;
    }
    assert(views(v@).take(v.len() as int) =~= views(v@));
    out
}

/// The names of a list of relations or permissions.
fn names_of(defs: &Vec<RelationDef>) -> (r: Vec<String>)
    ensures
        views(r@) == def_names(defs@),
{
    let mut out: Vec<String> = Vec::new();
    let mut i: usize = 0;
    while i < defs.len()
        invariant
            i <= defs.len(),
            views(out@) =~= def_names(defs@).take(i as int),
        decreases defs.len() - i,
    {
        let ghost before = out@;
        out.push(defs[i].name.clone());
        assert(views(out@) =~= views(before).push(defs@[i as int].name@));
        assert(def_names(defs@).take(i + 1) =~= def_names(defs@).take(i as int).push(defs@[i as int].name@));
        i += 1;
    }
    assert(def_names(defs@).take(defs.len() as int) =~= def_names(defs@));
    out
}

/// The outline of a model: its types and its conditions.
pub fn model_outline(model: &ModelFile) -> (r: (Vec<(String, Vec<String>, Vec<String>)>, Vec<(String, String)>))
    ensures
        outline_view(r.0@) == model_types_outline(*model),
        pairs_view(r.1@) == model_conditions(*model),
{
    let mut types: Vec<(String, Vec<String>, Vec<String>)> = Vec::new();
    let mut i: usize = 0;
    while i < model.type_defs.len()
        invariant
            i <= model.type_defs.len(),
            outline_view(types@) =~= model_types_outline(*model).take(i as int),
        decreases model.type_defs.len() - i,
    {
        let t = &model.type_defs[i];
        let ghost before = types@;
        types.push((t.name.clone(), names_of(&t.relations), names_of(&t.permissions)));
        let ghost tv = (t.name@, def_names(t.relations@), def_names(t.permissions@));
        assert(outline_view(types@) =~= outline_view(before).push(tv));
        assert(model_types_outline(*model).take(i + 1) =~= model_types_outline(*model).take(i as int).push(tv));
        i += 1;
    }
    assert(model_types_outline(*model).take(model.type_defs.len() as int) =~= model_types_outline(*model));
    let mut conditions: Vec<(String, String)> = Vec::new();
    let mut j: usize = 0;
    while j < model.condition_defs.len()
        invariant
            j <= model.condition_defs.len(),
            pairs_view(conditions@) =~= model_conditions(*model).take(j as int),
        decreases model.condition_defs.len() - j,
    {
        let c = &model.condition_defs[j];
        let ghost before = conditions@;
        conditions.push((c.name.clone(), c.expression.clone()));
        assert(pairs_view(conditions@) =~= pairs_view(before).push((c.name@, c.expression@)));
        assert(model_conditions(*model).take(j + 1) =~= model_conditions(*model).take(j as int).push((c.name@, c.expression@)));
        j += 1;
    }
    assert(model_conditions(*model).take(model.condition_defs.len() as int) =~= model_conditions(*model));
    (types, conditions)
}

/// Appends the rows of the relations (or permissions) of the `ti`-th type.
fn push_def_rows(policy_id: &str, t: &(String, Vec<String>, Vec<String>), ti: usize, permissions: bool, rows: &mut Vec<PolicyRow>)
    ensures
        rows_view(final(rows)@) == rows_view(old(rows)@) + def_rows(policy_id@, type_outline_view(*t), ti as int, permissions),
{
    let names = if permissions {
        &t.2
    } else {
        &t.1
    };
    let ghost start = rows_view(rows@);
    let ghost want = def_rows(policy_id@, type_outline_view(*t), ti as int, permissions);
    let mut i: usize = 0;
    while i < names.len()
        invariant
            i <= names.len(),
            views(names@) == (if permissions { views(t.2@) } else { views(t.1@) }),
            want == def_rows(policy_id@, type_outline_view(*t), ti as int, permissions),
            rows_view(rows@) =~= start + want.take(i as int),
        decreases names.len() - i,
    {
        let ghost before = rows@;
        let row = PolicyRow {
            policy_id: String::from_str(policy_id),
            type_label: t.0.clone(),
            relation_name: names[i].clone(),
            relation_type: if permissions {
                String::from_str("permission")
            } else {
                String::from_str("relation")
            },
            condition_name: None,
            condition_expression: None,
            source: if permissions {
                RowSource::Permission { type_index: ti, index: i }
            } else {
                RowSource::Relation { type_index: ti, index: i }
            },
        };
        rows.push(row);
        assert(views(names@)[i as int] == names@[i as int]@);
        assert(row_view(rows@[rows@.len() - 1]) == want[i as int]);
        assert(rows_view(rows@) =~= rows_view(before).push(want[i as int]));
        assert(want.take(i + 1) =~= want.take(i as int).push(want[i as int]));
        i += 1;
    }
    assert(want.take(names.len() as int) =~= want);
}

/// The rows of the computed policy of an outline (see `outline_rows`).
pub fn rows_from_outline(
    policy_id: &str,
    types: &Vec<(String, Vec<String>, Vec<String>)>,
    conditions: &Vec<(String, String)>,
) -> (r: Vec<PolicyRow>)
    ensures
        rows_view(r@) == outline_rows(policy_id@, outline_view(types@), pairs_view(conditions@)),
{
    let ghost ts = outline_view(types@);
    let mut rows: Vec<PolicyRow> = Vec::new();
    let mut ti: usize = 0;
    while ti < types.len()
        invariant
            ti <= types.len(),
            ts == outline_view(types@),
            rows_view(rows@) == type_rows(policy_id@, ts.take(ti as int)),
        decreases types.len() - ti,
    {
        assert(ts.take(ti + 1).drop_last() =~= ts.take(ti as int));
        assert(ts.take(ti + 1).last() == type_outline_view(types@[ti as int]));
        push_def_rows(policy_id, &types[ti], ti, false, &mut rows);
        push_def_rows(policy_id, &types[ti], ti, true, &mut rows);
        ti += 1;
    }
    assert(ts.take(types.len() as int) =~= ts);
    let ghost cs = pairs_view(conditions@);
    let ghost base = rows_view(rows@);
    let ghost want = condition_rows(policy_id@, cs);
    let mut ci: usize = 0;
    while ci < conditions.len()
        invariant
            ci <= conditions.len(),
            cs == pairs_view(conditions@),
            want == condition_rows(policy_id@, cs),
            rows_view(rows@) =~= base + want.take(ci as int),
        decreases conditions.len() - ci,
    {
        let ghost before = rows@;
        let c = &conditions[ci];
        rows.push(PolicyRow {
            policy_id: String::from_str(policy_id),
            type_label: String::new(),
            relation_name: c.0.clone(),
            relation_type: String::from_str("condition"),
            condition_name: Some(c.0.clone()),
            condition_expression: Some(c.1.clone()),
            source: RowSource::Condition { index: ci },
        });
        assert(row_view(rows@[rows@.len() - 1]) == want[ci as int]);
        assert(rows_view(rows@) =~= rows_view(before).push(want[ci as int]));
        assert(want.take(ci + 1) =~= want.take(ci as int).push(want[ci as int]));
        ci += 1;
    }
    assert(want.take(conditions.len() as int) =~= want);
    rows
}

/// The rows of the computed policy of a model (see `policy_rows_of`).
pub fn computed_policy_rows(policy_id: &str, model: &ModelFile) -> (r: Vec<PolicyRow>)
    ensures
        rows_view(r@) == policy_rows_of(policy_id@, *model),
{
    let (types, conditions) = model_outline(model);
    rows_from_outline(policy_id, &types, &conditions)
}

/// Whether two lists of strings hold the same strings in the same order.
fn same_strings(a: &Vec<String>, b: &Vec<String>) -> (r: bool)
    ensures
        r == (views(a@) == views(b@)),
{
    if a.len() != b.len() {
        assert(views(a@).len() != views(b@).len());
        return false;
    }
    let mut i: usize = 0;
    while i < a.len()
        invariant
            i <= a.len() == b.len(),
            views(a@).take(i as int) =~= views(b@).take(i as int),
        decreases a.len() - i,
    {
        if a[i] != b[i] {
            assert(views(a@)[i as int] != views(b@)[i as int]);
            return false;
        }
        assert(views(a@).take(i + 1) =~= views(a@).take(i as int).push(a@[i as int]@));
        assert(views(b@).take(i + 1) =~= views(b@).take(i as int).push(b@[i as int]@));
        i += 1;
    }
    assert(views(a@).take(a.len() as int) =~= views(a@));
    assert(views(b@).take(b.len() as int) =~= views(b@));
    true
}

/// Whether two outlines of types are the same.
pub fn same_type_outlines(
    a: &Vec<(String, Vec<String>, Vec<String>)>,
    b: &Vec<(String, Vec<String>, Vec<String>)>,
) -> (r: bool)
    ensures
        r == (outline_view(a@) == outline_view(b@)),
{
    if a.len() != b.len() {
        assert(outline_view(a@).len() != outline_view(b@).len());
        return false;
    }
    let mut i: usize = 0;
    while i < a.len()
        invariant
            i <= a.len() == b.len(),
            outline_view(a@).take(i as int) =~= outline_view(b@).take(i as int),
        decreases a.len() - i,
    {
        let x = &a[i];
        let y = &b[i];
        if !(x.0 == y.0 && same_strings(&x.1, &y.1) && same_strings(&x.2, &y.2)) {
            assert(outline_view(a@)[i as int] != outline_view(b@)[i as int]);
            return false;
        }
        assert(outline_view(a@).take(i + 1) =~= outline_view(a@).take(i as int).push(outline_view(a@)[i as int]));
        assert(outline_view(b@).take(i + 1) =~= outline_view(b@).take(i as int).push(outline_view(b@)[i as int]));
        i += 1;
    }
    assert(outline_view(a@).take(a.len() as int) =~= outline_view(a@));
    assert(outline_view(b@).take(b.len() as int) =~= outline_view(b@));
    true
}

} // verus!
