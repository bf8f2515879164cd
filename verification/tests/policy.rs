use pgauthz::errors::AuthzErrorKind;
use pgauthz::model::{AssignableTarget, ModelFile, RelationDef, RelationExpr, TypeDef};
use pgauthz::policy::{
    check_condition_expressions, check_definition_parses, check_writes_against_definition,
    computed_policy, invalid_condition_error, policy_id_for, prepare_policy_write,
    validation_failure,
};
use pgauthz::relationship::create_test_tuple;

fn condition(name: &str, expression: &str) -> (String, String) {
    (name.to_string(), expression.to_string())
}

const DOCUMENT: &str = "type user {} type document { relations define viewer: [user] }";

fn document_model() -> ModelFile {
    ModelFile {
        type_defs: vec![
            TypeDef { name: "user".to_string(), relations: vec![], permissions: vec![] },
            TypeDef {
                name: "document".to_string(),
                relations: vec![RelationDef {
                    name: "viewer".to_string(),
                    expression: RelationExpr::DirectAssignment(vec![AssignableTarget::Type("user".to_string())]),
                }],
                permissions: vec![],
            },
        ],
        condition_defs: vec![],
    }
}

fn parse_error_of(definition: &str) -> String {
    authz_core::model_parser::parse_dsl(definition).err().expect("does not parse").to_string()
}

#[test]
fn validation_messages_are_joined_in_order() {
    let messages = vec!["first".to_string(), "second".to_string(), "third".to_string()];
    assert_eq!(
        validation_failure(&messages),
        AuthzErrorKind::ModelValidation("first; second; third".to_string())
    );
    assert_eq!(
        validation_failure(&vec!["only".to_string()]),
        AuthzErrorKind::ModelValidation("only".to_string())
    );
    assert_eq!(validation_failure(&vec![]), AuthzErrorKind::ModelValidation(String::new()));
}

#[test]
fn invalid_condition_message_names_the_condition() {
    assert_eq!(
        invalid_condition_error("in_hours", "CEL compile error: boom"),
        AuthzErrorKind::ModelValidation("Invalid condition 'in_hours': CEL compile error: boom".to_string())
    );
}

#[test]
fn conditions_that_compile_are_accepted() {
    let conditions = vec![condition("in_hours", "hour >= 9 && hour < 17"), condition("always", "true")];
    assert_eq!(check_condition_expressions(&conditions), Ok(()));
    assert_eq!(check_condition_expressions(&vec![]), Ok(()));
}

#[test]
fn the_first_condition_that_fails_to_compile_is_reported() {
    let conditions = vec![
        condition("good", "hour >= 9"),
        condition("bad", "hour >= (("),
        condition("worse", "&&"),
    ];
    let expected = authz_core::cel::compile("hour >= ((").err().expect("does not compile").to_string();
    assert_eq!(
        check_condition_expressions(&conditions),
        Err(AuthzErrorKind::ModelValidation(format!("Invalid condition 'bad': {}", expected)))
    );
}

#[test]
fn requested_policy_ids_are_kept() {
    assert_eq!(policy_id_for("01HZZZZZZZZZZZZZZZZZZZZZZZ"), "01HZZZZZZZZZZZZZZZZZZZZZZZ");
    assert_eq!(policy_id_for("my-policy"), "my-policy");
}

#[test]
fn missing_policy_ids_get_a_fresh_ulid() {
    let id = policy_id_for("");
    assert_eq!(id.len(), 26);
    assert!(id.chars().all(|c| "0123456789ABCDEFGHJKMNPQRSTVWXYZ".contains(c)));
    assert!(ulid::Ulid::from_string(&id).is_ok());
}

#[test]
fn policy_writes_are_prepared_in_order() {
    // a definition that parses and validates keeps the requested id
    assert_eq!(prepare_policy_write(DOCUMENT, "P1"), Ok("P1".to_string()));
    let fresh = prepare_policy_write(DOCUMENT, "").unwrap();
    assert_eq!(fresh.len(), 26);
    // a parse error comes first
    let bad = "type document { relations define viewer: [user }";
    assert_eq!(
        prepare_policy_write(bad, "P1"),
        Err(AuthzErrorKind::ModelParse(parse_error_of(bad)))
    );
    // then semantic validation
    match prepare_policy_write("type document { relations define viewer: [nobody] }", "P1") {
        Err(AuthzErrorKind::ModelValidation(m)) => assert!(!m.is_empty()),
        other => panic!("unexpected {:?}", other),
    }
    // then the conditions
    let with_bad_condition = "type user {} type document { relations define viewer: [user with c] } condition c(x: int) { x >= (( }";
    let cel_error = authz_core::cel::compile(" x >= (( ").err().map(|e| e.to_string());
    match prepare_policy_write(with_bad_condition, "P1") {
        Err(AuthzErrorKind::ModelValidation(m)) => {
            assert!(m.starts_with("Invalid condition 'c': CEL compile error"), "{}", m);
            assert!(cel_error.is_some());
        }
        other => panic!("unexpected {:?}", other),
    }
}

#[test]
fn definitions_that_do_not_parse_are_reported() {
    assert_eq!(check_definition_parses(DOCUMENT), Ok(()));
    assert_eq!(
        check_definition_parses("type {"),
        Err(AuthzErrorKind::ModelParse(parse_error_of("type {")))
    );
}

#[test]
fn writes_are_checked_against_the_stored_definition() {
    let m = document_model();
    let good = vec![create_test_tuple("document", "1", "viewer", "user", "alice", None)];
    let bad = vec![create_test_tuple("photo", "1", "viewer", "user", "alice", None)];
    assert_eq!(check_writes_against_definition(Some((DOCUMENT, &m)), &good), Ok(()));
    assert_eq!(
        check_writes_against_definition(Some((DOCUMENT, &m)), &bad),
        Err(AuthzErrorKind::RelationshipValidation(
            "object_type 'photo' not defined in authorization model".to_string()
        ))
    );
    // bootstrap and empty writes
    assert_eq!(check_writes_against_definition(None, &bad), Ok(()));
    assert_eq!(check_writes_against_definition(Some(("type {", &m)), &vec![]), Ok(()));
    assert_eq!(
        check_writes_against_definition(Some(("type {", &m)), &good),
        Err(AuthzErrorKind::ModelParse(parse_error_of("type {")))
    );
}

#[test]
fn computed_policy_of_a_stored_definition() {
    let def = "type user {} type document { relations define viewer: [user] define editor: [user] permissions define can_view = viewer + editor } condition c(x: int) { x > 1 }";
    let rows = computed_policy("P1", def).unwrap();
    let summary: Vec<(String, String, String)> = rows
        .iter()
        .map(|r| (r.type_label.clone(), r.relation_name.clone(), r.relation_type.clone()))
        .collect();
    let expect = |t: &str, n: &str, k: &str| (t.to_string(), n.to_string(), k.to_string());
    assert_eq!(
        summary,
        vec![
            expect("document", "viewer", "relation"),
            expect("document", "editor", "relation"),
            expect("document", "can_view", "permission"),
            expect("", "c", "condition"),
        ]
    );
    assert!(rows.iter().all(|r| r.policy_id == "P1"));
    assert_eq!(rows[3].condition_name.as_deref(), Some("c"));
    assert!(matches!(computed_policy("P1", "type {"), Err(AuthzErrorKind::ModelParse(_))));
}

#[test]
fn a_model_that_is_not_its_definition_is_refused() {
    let mut m = document_model();
    m.type_defs[1].relations[0].name = "reader".to_string();
    let good = vec![create_test_tuple("document", "1", "viewer", "user", "alice", None)];
    assert!(matches!(
        check_writes_against_definition(Some((DOCUMENT, &m)), &good),
        Err(AuthzErrorKind::Internal(_))
    ));
}
