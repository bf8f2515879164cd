//! Mapping of authorization errors to PostgreSQL SQLSTATE codes.

use vstd::prelude::*;
use vstd::string::StringExecFns;

verus! {

/// The errors an authorization operation reports, by kind, with the details
/// each carries.
#[derive(Debug, PartialEq, Eq)]
pub enum AuthzErrorKind {
    Validation { field: String, message: String },
    ModelParse(String),
    ModelValidation(String),
    ModelNotFound,
    RelationshipValidation(String),
    RelationNotFound { object_type: String, relation: String },
    MaxDepthExceeded,
    ResolutionError(String),
    Datastore(String),
    CachePoisoned,
    Internal(String),
}

/// The SQLSTATE conditions the extension raises.
#[derive(Debug, Clone, Copy, PartialEq, Eq, Structural)]
pub enum SqlState {
    /// 22023
    InvalidParameterValue,
    /// 22000
    DataException,
    /// 23514
    CheckViolation,
    /// 02000
    NoDataFound,
    /// 42704
    UndefinedObject,
    /// 54000
    ProgramLimitExceeded,
    /// 38000
    ExternalRoutineException,
    /// XX000
    InternalError,
}

/// The five-character SQLSTATE code of a condition.
pub open spec fn sqlstate_code(s: SqlState) -> Seq<char> {
    match s {
        SqlState::InvalidParameterValue => "22023"@,
        SqlState::DataException => "22000"@,
        SqlState::CheckViolation => "23514"@,
        SqlState::NoDataFound => "02000"@,
        SqlState::UndefinedObject => "42704"@,
        SqlState::ProgramLimitExceeded => "54000"@,
        SqlState::ExternalRoutineException => "38000"@,
        SqlState::InternalError => "XX000"@,
    }
}

impl SqlState {
    /// The five-character SQLSTATE code.
    pub fn code(&self) -> (r: String)
        ensures
            r@ == sqlstate_code(*self),
    {
        match self {
            SqlState::InvalidParameterValue => String::from_str("22023"),
            SqlState::DataException => String::from_str("22000"),
            SqlState::CheckViolation => String::from_str("23514"),
            SqlState::NoDataFound => String::from_str("02000"),
            SqlState::UndefinedObject => String::from_str("42704"),
            SqlState::ProgramLimitExceeded => String::from_str("54000"),
            SqlState::ExternalRoutineException => String::from_str("38000"),
            SqlState::InternalError => String::from_str("XX000"),
        }
    }
}

/// The error type label (for the error metric) and condition of each kind.
pub open spec fn classification(e: AuthzErrorKind) -> (Seq<char>, SqlState) {
    match e {
        AuthzErrorKind::Validation { .. } => ("validation"@, SqlState::InvalidParameterValue),
        AuthzErrorKind::ModelParse(_) => ("model_parse"@, SqlState::DataException),
        AuthzErrorKind::ModelValidation(_) => ("model_validation"@, SqlState::CheckViolation),
        AuthzErrorKind::ModelNotFound => ("model_not_found"@, SqlState::NoDataFound),
        AuthzErrorKind::RelationshipValidation(_) => ("relationship_validation"@, SqlState::CheckViolation),
        AuthzErrorKind::RelationNotFound { .. } => ("relation_not_found"@, SqlState::UndefinedObject),
        AuthzErrorKind::MaxDepthExceeded => ("max_depth_exceeded"@, SqlState::ProgramLimitExceeded),
        AuthzErrorKind::Datastore(_) => ("datastore"@, SqlState::ExternalRoutineException),
        AuthzErrorKind::ResolutionError(_) => ("internal"@, SqlState::InternalError),
        AuthzErrorKind::CachePoisoned => ("internal"@, SqlState::InternalError),
        AuthzErrorKind::Internal(_) => ("internal"@, SqlState::InternalError),
    }
}

/// The message each kind displays.
pub open spec fn error_message(e: AuthzErrorKind) -> Seq<char> {
    match e {
        AuthzErrorKind::Validation { field, message } => "validation: "@ + field@ + " \u{2014} "@ + message@,
        AuthzErrorKind::ModelParse(m) => "model parse error: "@ + m@,
        AuthzErrorKind::ModelValidation(m) => "model validation: "@ + m@,
        AuthzErrorKind::ModelNotFound => "no authorization model found"@,
        AuthzErrorKind::RelationshipValidation(m) => "relationship validation: "@ + m@,
        AuthzErrorKind::RelationNotFound { object_type, relation } => "relation '"@ + relation@ + "' not found on type '"@ + object_type@ + "'"@,
        AuthzErrorKind::MaxDepthExceeded => "max recursion depth exceeded"@,
        AuthzErrorKind::ResolutionError(m) => "resolution failed: "@ + m@,
        AuthzErrorKind::Datastore(m) => "datastore error: "@ + m@,
        AuthzErrorKind::CachePoisoned => "cache lock poisoned"@,
        AuthzErrorKind::Internal(m) => "internal error: "@ + m@,
    }
}

/// What the extension raises for an error: the label it counts the error
/// under, the SQLSTATE condition and the message.
pub struct ErrorReport {
    pub error_type: String,
    pub sqlstate: SqlState,
    pub message: String,
}

/// A string made of a prefix and a suffix.
fn joined(prefix: &str, rest: &str) -> (r: String)
    ensures
        r@ == prefix@ + rest@,
{
    let mut s = String::from_str(prefix);
    s.append(rest);
    s
}

/// The message an error displays.
pub fn authz_error_message(err: &AuthzErrorKind) -> (r: String)
    ensures
        r@ == error_message(*err),
{
    match err {
        AuthzErrorKind::Validation { field, message } => {
            let mut s = joined("validation: ", field.as_str());
            s.append(" \u{2014} ");
            s.append(message.as_str());
            s
        },
        AuthzErrorKind::ModelParse(m) => joined("model parse error: ", m.as_str()),
        AuthzErrorKind::ModelValidation(m) => joined("model validation: ", m.as_str()),
        AuthzErrorKind::ModelNotFound => String::from_str("no authorization model found"),
        AuthzErrorKind::RelationshipValidation(m) => joined("relationship validation: ", m.as_str()),
        AuthzErrorKind::RelationNotFound { object_type, relation } => {
            let mut s = joined("relation '", relation.as_str());
            s.append("' not found on type '");
            s.append(object_type.as_str());
            s.append("'");
            s
        },
        AuthzErrorKind::MaxDepthExceeded => String::from_str("max recursion depth exceeded"),
        AuthzErrorKind::ResolutionError(m) => joined("resolution failed: ", m.as_str()),
        AuthzErrorKind::Datastore(m) => joined("datastore error: ", m.as_str()),
        AuthzErrorKind::CachePoisoned => String::from_str("cache lock poisoned"),
        AuthzErrorKind::Internal(m) => joined("internal error: ", m.as_str()),
    }
}

/// Map an authorization error to the label it is counted under, its
/// SQLSTATE condition and its message.
pub fn authz_error_report(err: &AuthzErrorKind) -> (r: ErrorReport)
    ensures
        (r.error_type@, r.sqlstate) == classification(*err),
        r.message@ == error_message(*err),
{
    let (error_type, sqlstate) = match err {
        AuthzErrorKind::Validation { .. } => ("validation", SqlState::InvalidParameterValue),
        AuthzErrorKind::ModelParse(_) => ("model_parse", SqlState::DataException),
        AuthzErrorKind::ModelValidation(_) => ("model_validation", SqlState::CheckViolation),
        AuthzErrorKind::ModelNotFound => ("model_not_found", SqlState::NoDataFound),
        AuthzErrorKind::RelationshipValidation(_) => ("relationship_validation", SqlState::CheckViolation),
        AuthzErrorKind::RelationNotFound { .. } => ("relation_not_found", SqlState::UndefinedObject),
        AuthzErrorKind::MaxDepthExceeded => ("max_depth_exceeded", SqlState::ProgramLimitExceeded),
        AuthzErrorKind::Datastore(_) => ("datastore", SqlState::ExternalRoutineException),
        AuthzErrorKind::ResolutionError(_) | AuthzErrorKind::CachePoisoned | AuthzErrorKind::Internal(_) => (
            "internal",
            SqlState::InternalError,
        ),
    };
    ErrorReport {
        error_type: String::from_str(error_type),
        sqlstate,
        message: authz_error_message(err),
    }
}

/// What the extension raises for an invalid request parameter: counted as
/// `invalid_parameter`, condition 22023, with the validation message.
pub fn invalid_param_report(message: &str) -> (r: ErrorReport)
    ensures
        r.error_type@ == "invalid_parameter"@,
        r.sqlstate == SqlState::InvalidParameterValue,
        r.message@ == message@,
{
    ErrorReport {
        error_type: String::from_str("invalid_parameter"),
        sqlstate: SqlState::InvalidParameterValue,
        message: String::from_str(message),
    }
}

} // verus!
