use pgauthz::errors::AuthzErrorKind;
use pgauthz::model::{
    computed_policy_rows, extract_allowed_types, extract_relation_names_from_exprs, relations_to_check,
    resolve_stored_relations, validate_tuple_writes, validate_writes_against_policy,
    AssignableTarget, ConditionDef, ConditionParam, ModelFile, RelationDef, RelationExpr, RowSource, TypeDef,
};
use pgauthz::relationship::create_test_tuple;
use RelationExpr::DirectAssignment as Direct;

fn cu(n: &str) -> RelationExpr {
    RelationExpr::ComputedUserset(n.to_string())
}

fn ty(n: &str) -> AssignableTarget {
    AssignableTarget::Type(n.to_string())
}

fn userset(t: &str, r: &str) -> AssignableTarget {
    AssignableTarget::Userset { object_type: t.to_string(), relation: r.to_string() }
}

fn rel(name: &str, expression: RelationExpr) -> RelationDef {
    RelationDef { name: name.to_string(), expression }
}

fn typedef(name: &str, relations: Vec<RelationDef>, permissions: Vec<RelationDef>) -> TypeDef {
    TypeDef { name: name.to_string(), relations, permissions }
}

/// type user {}
/// type group { relations define member: [user | group#member] }
/// type folder { relations define viewer: [user | group#member] }
/// type document {
///   relations define parent: [folder] define owner: [user] define editor: [user]
///             define viewer: [user | group#member] define blocked: [user]
///   permissions define can_view = viewer + editor + owner
///               define can_edit = editor & owner
///               define can_delete = owner - blocked
///               define via_parent = viewer from parent
/// }
fn model() -> ModelFile {
    ModelFile {
        type_defs: vec![
            typedef("user", vec![], vec![]),
            typedef("group", vec![rel("member", Direct(vec![ty("user"), userset("group", "member")]))], vec![]),
            typedef("folder", vec![rel("viewer", Direct(vec![ty("user"), userset("group", "member")]))], vec![]),
            typedef(
                "document",
                vec![
                    rel("parent", Direct(vec![ty("folder")])),
                    rel("owner", Direct(vec![ty("user")])),
                    rel("editor", Direct(vec![ty("user")])),
                    rel("viewer", Direct(vec![ty("user"), userset("group", "member")])),
                    rel("blocked", Direct(vec![ty("user")])),
                ],
                vec![
                    rel("can_view", RelationExpr::Union(vec![cu("viewer"), cu("editor"), cu("owner")])),
                    rel("can_edit", RelationExpr::Intersection(vec![cu("editor"), cu("owner")])),
                    rel(
                        "can_delete",
                        RelationExpr::Exclusion { base: Box::new(cu("owner")), subtract: Box::new(cu("blocked")) },
                    ),
                    rel(
                        "via_parent",
                        RelationExpr::TupleToUserset {
                            computed_userset: "viewer".to_string(),
                            tupleset: "parent".to_string(),
                        },
                    ),
                ],
            ),
        ],
        condition_defs: vec![ConditionDef {
            name: "in_hours".to_string(),
            params: vec![ConditionParam { name: "hour".to_string(), param_type: "int".to_string() }],
            expression: "hour >= 9".to_string(),
        }],
    }
}

fn strings(v: &[&str]) -> Vec<String> {
    v.iter().map(|s| s.to_string()).collect()
}

#[test]
fn relations_checked_for_a_permission_or_a_relation() {
    let m = model();
    assert_eq!(
        relations_to_check(&m, "document", "can_view"),
        Ok(strings(&["viewer", "editor", "owner"]))
    );
    // intersections are skipped, exclusions contribute their base only
    assert_eq!(relations_to_check(&m, "document", "can_edit"), Ok(vec![]));
    assert_eq!(relations_to_check(&m, "document", "can_delete"), Ok(strings(&["owner"])));
    assert_eq!(relations_to_check(&m, "document", "viewer"), Ok(strings(&["viewer"])));
    assert_eq!(
        relations_to_check(&m, "photo", "viewer"),
        Err("Type 'photo' not found".to_string())
    );
}

#[test]
fn relation_names_are_appended() {
    let mut out = strings(&["already"]);
    let exprs = vec![
        RelationExpr::ComputedUserset("a".to_string()),
        RelationExpr::Union(vec![
            RelationExpr::ComputedUserset("b".to_string()),
            RelationExpr::Intersection(vec![RelationExpr::ComputedUserset("x".to_string())]),
        ]),
        RelationExpr::Exclusion {
            base: Box::new(RelationExpr::ComputedUserset("c".to_string())),
            subtract: Box::new(RelationExpr::ComputedUserset("d".to_string())),
        },
        RelationExpr::TupleToUserset { computed_userset: "viewer".to_string(), tupleset: "parent".to_string() },
    ];
    extract_relation_names_from_exprs(&exprs, &mut out);
    assert_eq!(out, strings(&["already", "a", "b", "c"]));
}

#[test]
fn stored_relations_for_matrix_expand() {
    let m = model();
    assert_eq!(
        resolve_stored_relations(&m, "document", "can_delete"),
        strings(&["owner", "blocked"])
    );
    assert_eq!(
        resolve_stored_relations(&m, "document", "can_edit"),
        strings(&["editor", "owner"])
    );
    assert_eq!(resolve_stored_relations(&m, "document", "via_parent"), strings(&["parent"]));
    assert_eq!(resolve_stored_relations(&m, "document", "viewer"), strings(&["viewer"]));
    assert_eq!(resolve_stored_relations(&m, "nothing", "viewer"), strings(&["viewer"]));
}

#[test]
fn allowed_types_of_direct_assignments() {
    let m = model();
    let viewer = &m.type_defs[3].relations[3];
    assert_eq!(viewer.name, "viewer");
    assert_eq!(extract_allowed_types(&viewer.expression), strings(&["user", "group"]));
    let wild = RelationExpr::DirectAssignment(vec![
        AssignableTarget::Wildcard("user".to_string()),
        AssignableTarget::Conditional {
            target: Box::new(AssignableTarget::Type("user".to_string())),
            condition: "c".to_string(),
        },
    ]);
    assert_eq!(extract_allowed_types(&wild), Vec::<String>::new());
}

#[test]
fn writes_are_checked_against_the_model() {
    let m = model();
    let ok = vec![
        create_test_tuple("document", "1", "viewer", "user", "alice", None),
        create_test_tuple("document", "1", "viewer", "group", "eng#member", None),
    ];
    assert_eq!(validate_tuple_writes(&m, &ok), Ok(()));

    let bad_type = vec![
        create_test_tuple("document", "1", "viewer", "user", "alice", None),
        create_test_tuple("photo", "1", "viewer", "user", "alice", None),
    ];
    assert_eq!(
        validate_tuple_writes(&m, &bad_type),
        Err(AuthzErrorKind::RelationshipValidation(
            "object_type 'photo' not defined in authorization model".to_string()
        ))
    );

    let permission = vec![create_test_tuple("document", "1", "can_view", "user", "alice", None)];
    assert_eq!(
        validate_tuple_writes(&m, &permission),
        Err(AuthzErrorKind::RelationshipValidation(
            "relation 'can_view' not defined for type 'document' in authorization model".to_string()
        ))
    );

    let bad_subject = vec![create_test_tuple("document", "1", "viewer", "folder", "f1", None)];
    assert_eq!(
        validate_tuple_writes(&m, &bad_subject),
        Err(AuthzErrorKind::RelationshipValidation(
            "subject_type 'folder' not allowed for relation 'viewer' on type 'document'. Allowed types: [\"user\", \"group\"]"
                .to_string()
        ))
    );
}

#[test]
fn bootstrap_and_empty_writes_are_accepted() {
    let m = model();
    let bad = vec![create_test_tuple("photo", "1", "viewer", "user", "alice", None)];
    assert_eq!(validate_writes_against_policy(None, &bad), Ok(()));
    assert_eq!(validate_writes_against_policy(Some(&m), &vec![]), Ok(()));
    assert!(validate_writes_against_policy(Some(&m), &bad).is_err());
}

#[test]
fn computed_policy_lists_relations_permissions_then_conditions() {
    let m = model();
    let rows = computed_policy_rows("01P", &m);
    // group: 1 relation; folder: 1 relation; document: 5 relations and 4 permissions; 1 condition
    assert_eq!(rows.len(), 1 + 1 + 5 + 4 + 1);
    assert!(rows.iter().all(|r| r.policy_id == "01P"));
    let summary: Vec<(String, String, String)> = rows
        .iter()
        .map(|r| (r.type_label.clone(), r.relation_name.clone(), r.relation_type.clone()))
        .collect();
    let expect = |t: &str, n: &str, k: &str| (t.to_string(), n.to_string(), k.to_string());
    assert_eq!(summary[0], expect("group", "member", "relation"));
    assert_eq!(summary[1], expect("folder", "viewer", "relation"));
    assert_eq!(summary[2], expect("document", "parent", "relation"));
    assert_eq!(summary[6], expect("document", "blocked", "relation"));
    assert_eq!(summary[7], expect("document", "can_view", "permission"));
    assert_eq!(summary[10], expect("document", "via_parent", "permission"));
    assert_eq!(summary[11], expect("", "in_hours", "condition"));
    assert_eq!(rows[3].source, RowSource::Relation { type_index: 3, index: 1 });
    assert_eq!(rows[8].source, RowSource::Permission { type_index: 3, index: 1 });
    assert_eq!(rows[11].source, RowSource::Condition { index: 0 });
    assert_eq!(rows[11].condition_name.as_deref(), Some("in_hours"));
    assert_eq!(rows[11].condition_expression.as_deref(), Some("hour >= 9"));
    assert_eq!(rows[0].condition_name, None);
}
