use authz_core::error::AuthzError;
use pgauthz::errors::{authz_error_report, invalid_param_report, AuthzErrorKind, SqlState};

fn kind(e: &AuthzError) -> AuthzErrorKind {
    match e.clone() {
        AuthzError::Validation { field, message } => AuthzErrorKind::Validation { field, message },
        AuthzError::ModelParse(m) => AuthzErrorKind::ModelParse(m),
        AuthzError::ModelValidation(m) => AuthzErrorKind::ModelValidation(m),
        AuthzError::ModelNotFound => AuthzErrorKind::ModelNotFound,
        AuthzError::RelationshipValidation(m) => AuthzErrorKind::RelationshipValidation(m),
        AuthzError::RelationNotFound { object_type, relation } => {
            AuthzErrorKind::RelationNotFound { object_type, relation }
        }
        AuthzError::MaxDepthExceeded => AuthzErrorKind::MaxDepthExceeded,
        AuthzError::ResolutionError(m) => AuthzErrorKind::ResolutionError(m),
        AuthzError::Datastore(m) => AuthzErrorKind::Datastore(m),
        AuthzError::CachePoisoned => AuthzErrorKind::CachePoisoned,
        AuthzError::Internal(m) => AuthzErrorKind::Internal(m),
    }
}

fn all_errors() -> Vec<(AuthzError, &'static str, &'static str)> {
    vec![
        (AuthzError::Validation { field: "object_type".into(), message: "must not be empty".into() }, "validation", "22023"),
        (AuthzError::ModelParse("unexpected token".into()), "model_parse", "22000"),
        (AuthzError::ModelValidation("undefined type".into()), "model_validation", "23514"),
        (AuthzError::ModelNotFound, "model_not_found", "02000"),
        (AuthzError::RelationshipValidation("bad tuple".into()), "relationship_validation", "23514"),
        (AuthzError::RelationNotFound { object_type: "document".into(), relation: "owner".into() }, "relation_not_found", "42704"),
        (AuthzError::MaxDepthExceeded, "max_depth_exceeded", "54000"),
        (AuthzError::ResolutionError("boom".into()), "internal", "XX000"),
        (AuthzError::Datastore("connection lost".into()), "datastore", "38000"),
        (AuthzError::CachePoisoned, "internal", "XX000"),
        (AuthzError::Internal("oops".into()), "internal", "XX000"),
    ]
}

#[test]
fn every_error_gets_its_documented_sqlstate() {
    for (err, error_type, code) in all_errors() {
        let report = authz_error_report(&kind(&err));
        assert_eq!(report.error_type, error_type, "{:?}", err);
        assert_eq!(report.sqlstate.code(), code, "{:?}", err);
    }
}

#[test]
fn messages_match_the_error_display() {
    for (err, _, _) in all_errors() {
        let report = authz_error_report(&kind(&err));
        assert_eq!(report.message, err.to_string());
    }
    let r = authz_error_report(&AuthzErrorKind::RelationNotFound {
        object_type: "document".to_string(),
        relation: "owner".to_string(),
    });
    assert_eq!(r.message, "relation 'owner' not found on type 'document'");
    assert_eq!(r.sqlstate, SqlState::UndefinedObject);
}

#[test]
fn invalid_parameters_are_22023() {
    let r = invalid_param_report("page_size must be between 1 and 1000");
    assert_eq!(r.error_type, "invalid_parameter");
    assert_eq!(r.sqlstate.code(), "22023");
    assert_eq!(r.message, "page_size must be between 1 and 1000");
}
