use pgauthz::expand::{expand_reply, permission_tree_text};
use pgauthz::model::{AssignableTarget, ModelFile, RelationDef, RelationExpr, TypeDef};
use pgauthz::relationship::{create_test_tuple, PgRelationship};

fn cu(n: &str) -> RelationExpr {
    RelationExpr::ComputedUserset(n.to_string())
}

fn users() -> RelationExpr {
    RelationExpr::DirectAssignment(vec![AssignableTarget::Type("user".to_string())])
}

fn rel(name: &str, expression: RelationExpr) -> RelationDef {
    RelationDef { name: name.to_string(), expression }
}

/// type document {
///   relations define parent: [folder] define editor: [user] define viewer: [user] or editor
///             define blocked: [user]
///   permissions define can_view = viewer but not blocked
///               define can_edit = editor and viewer
///               define via_parent = viewer from parent
///               define loop = loop
/// }
fn model() -> ModelFile {
    ModelFile {
        type_defs: vec![TypeDef {
            name: "document".to_string(),
            relations: vec![
                rel("parent", RelationExpr::DirectAssignment(vec![AssignableTarget::Type("folder".to_string())])),
                rel("editor", users()),
                rel("viewer", RelationExpr::Union(vec![users(), cu("editor")])),
                rel("blocked", users()),
            ],
            permissions: vec![
                rel(
                    "can_view",
                    RelationExpr::Exclusion { base: Box::new(cu("viewer")), subtract: Box::new(cu("blocked")) },
                ),
                rel("can_edit", RelationExpr::Intersection(vec![cu("editor"), cu("viewer")])),
                rel(
                    "via_parent",
                    RelationExpr::TupleToUserset {
                        computed_userset: "viewer".to_string(),
                        tupleset: "parent".to_string(),
                    },
                ),
                rel("loop", cu("loop")),
                rel("dangling", cu("missing")),
            ],
        }],
        condition_defs: vec![],
    }
}

fn tuples() -> Vec<PgRelationship> {
    vec![
        create_test_tuple("document", "doc1", "viewer", "user", "alice", None),
        create_test_tuple("document", "doc1", "viewer", "user", "bob", None),
        create_test_tuple("document", "doc1", "editor", "user", "charlie", None),
        create_test_tuple("document", "doc2", "viewer", "user", "dave", None),
        create_test_tuple("document", "doc1", "parent", "folder", "f1", None),
    ]
}

#[test]
fn expand_shows_the_documented_tree() {
    let m = model();
    assert_eq!(
        expand_reply(&m, "document", "doc1", "viewer", &tuples()),
        "union(\n  direct(user:alice),\n  direct(user:bob),\n  computed(editor) -> union(\n    direct(user:charlie)\n  )\n)"
    );
}

#[test]
fn expand_set_operations_and_tuple_to_userset() {
    let m = model();
    let t = tuples();
    assert_eq!(
        expand_reply(&m, "document", "doc1", "can_view", &t),
        "exclusion(\n  computed(viewer) -> union(\n    direct(user:alice),\n    direct(user:bob),\n    computed(editor) -> union(\n      direct(user:charlie)\n    )\n  ),\n  computed(blocked) -> union()\n)"
    );
    assert_eq!(
        expand_reply(&m, "document", "doc1", "via_parent", &t),
        "tuple_to_userset(parent -> viewer) -> union(\n  direct(folder:f1)\n)"
    );
    assert_eq!(
        expand_reply(&m, "document", "doc2", "editor", &t),
        "union()"
    );
    assert_eq!(expand_reply(&m, "document", "doc1", "dangling", &t), "computed(missing) -> undefined");
}

#[test]
fn expand_stops_at_the_depth_limit() {
    let m = model();
    let text = permission_tree_text(&m, "document", "doc1", "loop", &tuples()).unwrap();
    assert_eq!(text.matches("computed(loop)").count(), 26);
    assert!(text.ends_with("-> ..."));
}

#[test]
fn expand_of_unknown_relation_or_type() {
    let m = model();
    assert_eq!(permission_tree_text(&m, "document", "doc1", "owner", &tuples()), None);
    assert_eq!(
        expand_reply(&m, "photo", "p1", "viewer", &tuples()),
        r#"{"error": "Relation 'viewer' not found on type 'photo'"}"#
    );
}
