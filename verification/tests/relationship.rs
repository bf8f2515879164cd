use pgauthz::relationship::{
    create_test_tuple, parse_object_id, parse_subject_id, relationship_from_test_tuple, TestTuple,
};

#[test]
fn test_parse_object_id() {
    let (obj_type, obj_id) = parse_object_id("document:doc1");
    assert_eq!(obj_type, "document");
    assert_eq!(obj_id, "doc1");
}

#[test]
fn test_parse_subject_id() {
    let (subj_type, subj_id, relation) = parse_subject_id("user:alice");
    assert_eq!(subj_type, "user");
    assert_eq!(subj_id, "alice");
    assert_eq!(relation, None);

    let (subj_type, subj_id, relation) = parse_subject_id("group:eng#member");
    assert_eq!(subj_type, "group");
    assert_eq!(subj_id, "eng");
    assert_eq!(relation, Some("member".to_string()));
}

#[test]
fn test_test_tuple_conversion() {
    let test_tuple = TestTuple {
        object: "document:doc1".to_string(),
        relation: "viewer".to_string(),
        subject: "user:alice".to_string(),
        condition: None,
    };

    let pg_relationship = relationship_from_test_tuple(&test_tuple);
    assert_eq!(pg_relationship.object_type, "document");
    assert_eq!(pg_relationship.object_id, "doc1");
    assert_eq!(pg_relationship.relation, "viewer");
    assert_eq!(pg_relationship.subject_type, "user");
    assert_eq!(pg_relationship.subject_id, "alice");
    assert_eq!(pg_relationship.condition, None);
}

#[test]
fn userset_subject_keeps_its_relation_in_the_id() {
    let t = TestTuple {
        object: "folder:f1".to_string(),
        relation: "viewer".to_string(),
        subject: "group:eng#member".to_string(),
        condition: Some("in_hours".to_string()),
    };
    let r = relationship_from_test_tuple(&t);
    assert_eq!(r.subject_type, "group");
    assert_eq!(r.subject_id, "eng#member");
    assert_eq!(r.condition, Some("in_hours".to_string()));
}

#[test]
fn missing_and_extra_pieces() {
    assert_eq!(parse_object_id("document"), ("document".to_string(), String::new()));
    assert_eq!(parse_object_id("a:b:c"), ("a".to_string(), "b".to_string()));
    assert_eq!(parse_object_id(""), (String::new(), String::new()));
    assert_eq!(
        parse_subject_id("user:bob#x#y"),
        ("user".to_string(), "bob".to_string(), Some("x".to_string()))
    );
    assert_eq!(
        parse_subject_id("ünï:cödé"),
        ("ünï".to_string(), "cödé".to_string(), None)
    );
}

#[test]
fn create_test_tuple_copies_its_parts() {
    let t = create_test_tuple("document", "1", "viewer", "user", "alice", None);
    assert_eq!(t.object_type, "document");
    assert_eq!(t.object_id, "1");
    assert_eq!(t.relation, "viewer");
    assert_eq!(t.subject_type, "user");
    assert_eq!(t.subject_id, "alice");
    assert_eq!(t.condition, None);
}
