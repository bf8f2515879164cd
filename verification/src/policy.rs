//! Checks and identifiers of a policy definition being written.

use vstd::prelude::*;
use vstd::string::StringExecFns;
use crate::errors::AuthzErrorKind;
use crate::guc::opt_view;
use crate::listing::views;
use crate::model::{
    model_outline, model_types_outline, outline_rows, outline_view, pair_view, pairs_view, rows_from_outline, rows_view,
    same_type_outlines, validate_tuple_writes, writes_check, ModelFile, PolicyRow, TypeOutlineView,
};
use crate::relationship::PgRelationship;

verus! {

/// The messages joined in order, separated by `sep`.
pub open spec fn joined(messages: Seq<Seq<char>>, sep: Seq<char>) -> Seq<char>
    decreases messages.len(),
{
    if messages.len() == 0 {
        Seq::empty()
    } else if messages.len() == 1 {
        messages[0]
    } else {
        joined(messages.drop_last(), sep) + sep + messages.last()
    }
}

/// The error of a definition that fails semantic validation: its
/// validation messages joined with "; ".
pub fn validation_failure(messages: &Vec<String>) -> (r: AuthzErrorKind)
    ensures
        r matches AuthzErrorKind::ModelValidation(s) && s@ == joined(views(messages@), "; "@),
{
    let ghost ms = views(messages@);
    let mut details = String::new();
    let mut i: usize = 0;
    while i < messages.len()
        invariant
            i <= messages.len(),
            ms == views(messages@),
            details@ == joined(ms.take(i as int), "; "@),
        decreases messages.len() - i,
    {
        let ghost before = ms.take(i as int);
        if i > 0 {
            details.append("; ");
        }
        details.append(messages[i].as_str());
        assert(ms.take(i + 1).drop_last() =~= before);
        i += 1;
    }
    assert(ms.take(messages.len() as int) =~= ms);
    AuthzErrorKind::ModelValidation(details)
}

/// The message of a condition whose expression does not compile.
pub open spec fn invalid_condition_text(name: Seq<char>, error: Seq<char>) -> Seq<char> {
    "Invalid condition '"@ + name + "': "@ + error
}

/// The error of a condition whose expression does not compile.
pub fn invalid_condition_error(name: &str, error: &str) -> (r: AuthzErrorKind)
    ensures
        r matches AuthzErrorKind::ModelValidation(s) && s@ == invalid_condition_text(name@, error@),
{
    let mut s = String::from_str("Invalid condition '");
    s.append(name);
    s.append("': ");
    s.append(error);
    AuthzErrorKind::ModelValidation(s)
}

/// What compiling a CEL condition expression reports: `None` when it
/// compiles, otherwise the compile error's message.
pub uninterp spec fn cel_compile_error(expression: Seq<char>) -> Option<Seq<char>>;

/// Calls `authz_core::cel::compile` on a condition expression and keeps only
/// its error, rendered with `Display`; the outcome is a function of the
/// expression alone.
#[verifier::external_body]
fn compile_condition(expression: &str) -> (r: Option<String>)
    ensures
        opt_view(r) == cel_compile_error(expression@),
{
    authz_core::cel::compile(expression).err().map(|e| e.to_string())
}

/// The first condition (name, expression) whose expression does not
/// compile, with its error.
pub open spec fn first_condition_failure(conditions: Seq<(Seq<char>, Seq<char>)>) -> Option<(Seq<char>, Seq<char>)>
    decreases conditions.len(),
{
    if conditions.len() == 0 {
        None
    } else {
        match cel_compile_error(conditions[0].1) {
            Some(e) => Some((conditions[0].0, e)),
            None => first_condition_failure(conditions.drop_first()),
        }
    }
}

/// Compiles the conditions' expressions in order and fails on the first
/// that does not compile; each condition is given as (name, expression).
pub fn check_condition_expressions(conditions: &Vec<(String, String)>) -> (r: Result<(), AuthzErrorKind>)
    ensures
        match first_condition_failure(pairs_view(conditions@)) {
            None => r is Ok,
            Some((name, e)) => r matches Err(AuthzErrorKind::ModelValidation(s)) && s@
                == invalid_condition_text(name, e),
        },
{
    let ghost cs = pairs_view(conditions@);
    let mut i: usize = 0;
    assert(cs.skip(0) =~= cs);
    while i < conditions.len()
        invariant
            i <= conditions.len(),
            cs == pairs_view(conditions@),
            first_condition_failure(cs) == first_condition_failure(cs.skip(i as int)),
        decreases conditions.len() - i,
    {
        let c = &conditions[i];
        assert(cs.skip(i as int)[0] == pair_view(conditions@[i as int]));
        assert(cs.skip(i as int).drop_first() =~= cs.skip(i + 1));
        match compile_condition(c.1.as_str()) {
            Some(e) => {
                return Err(invalid_condition_error(c.0.as_str(), e.as_str()));
            },
            None => {},
        }
        i += 1;
    }
    Ok(())
}

/// What parsing a policy definition yields: the parse error's text, or the
/// outline of its types (name, relation names, permission names) and its
/// conditions (name, expression), in the order the definition gives them.
pub uninterp spec fn parsed_outline(
    definition: Seq<char>,
) -> Result<(Seq<TypeOutlineView>, Seq<(Seq<char>, Seq<char>)>), Seq<char>>;

/// Calls `authz_core::model_parser::parse_dsl` on a definition and keeps,
/// field by field, the names of its types, relations and permissions and the
/// names and expressions of its conditions, or the parse error rendered with
/// `Display`; the outcome is a function of the definition alone.
#[verifier::external_body]
fn parse_outline(definition: &str) -> (r: Result<(Vec<(String, Vec<String>, Vec<String>)>, Vec<(String, String)>), String>)
    ensures
        match r {
            Ok((types, conditions)) => parsed_outline(definition@) == Ok::<_, Seq<char>>(
                (outline_view(types@), pairs_view(conditions@)),
            ),
            Err(e) => parsed_outline(definition@) == Err::<(Seq<TypeOutlineView>, Seq<(Seq<char>, Seq<char>)>), _>(e@),
        },
{
    authz_core::model_parser::parse_dsl(definition).map(|m| (
        m.type_defs.iter().map(|t| (t.name.clone(), t.relations.iter().map(|r| r.name.clone()).collect(), t.permissions.iter().map(|p| p.name.clone()).collect())).collect(),
        m.condition_defs.iter().map(|c| (c.name.clone(), c.expression.clone())).collect(),
    )).map_err(|e| e.to_string())
}

/// Whether the model parsed from a definition passes semantic validation
/// (true when the definition does not parse).
pub uninterp spec fn definition_valid(definition: Seq<char>) -> bool;

/// Calls `authz_core::model_validator::validate_model` on the model that
/// `parse_dsl` gives for the definition and keeps the messages of the
/// errors; none when the definition does not parse. Whether any message comes
/// back depends on the definition alone; the messages themselves are not
/// stated, since their order follows the iteration of hash maps.
#[verifier::external_body]
fn validation_messages(definition: &str) -> (r: Vec<String>)
    ensures
        (r@.len() == 0) == definition_valid(definition@),
{
    authz_core::model_parser::parse_dsl(definition).ok().and_then(|m| authz_core::model_validator::validate_model(&m).err())
        .unwrap_or_default().into_iter().map(|e| e.message).collect()
}

/// The parse error of a definition, if it does not parse.
pub open spec fn definition_parse_error(definition: Seq<char>) -> Option<Seq<char>> {
    match parsed_outline(definition) {
        Err(e) => Some(e),
        Ok(_) => None,
    }
}

/// Checks that a definition parses, failing with `ModelParse` and the parse
/// error's text when it does not.
pub fn check_definition_parses(definition: &str) -> (r: Result<(), AuthzErrorKind>)
    ensures
        match definition_parse_error(definition@) {
            None => r is Ok,
            Some(e) => r matches Err(AuthzErrorKind::ModelParse(m)) && m@ == e,
        },
{
    match parse_outline(definition) {
        Ok(_) => Ok(()),
        Err(e) => Err(AuthzErrorKind::ModelParse(e)),
    }
}

/// A character of the Crockford base32 alphabet ULIDs are written in.
pub open spec fn is_crockford_char(c: char) -> bool {
    ('0' <= c <= '9') || ('A' <= c <= 'Z' && c != 'I' && c != 'L' && c != 'O' && c != 'U')
}

/// A ULID's text form: 26 Crockford base32 characters.
pub open spec fn is_ulid_text(s: Seq<char>) -> bool {
    s.len() == 26 && forall|i: int| 0 <= i < 26 ==> is_crockford_char(#[trigger] s[i])
}

/// Calls `ulid::Ulid::new` and renders the ULID with `Ulid::to_string`: the
/// current time and random bits, written as 26 characters of the Crockford
/// alphabet. Which ULID comes back depends on the clock and on chance, so
/// only its form is stated.
#[verifier::external_body]
fn new_ulid_text() -> (r: String)
    ensures
        is_ulid_text(r@),
{
    ulid::Ulid::new().to_string()
}

/// The id a policy is stored under: the requested id, or a fresh ULID when
/// none is requested.
pub fn policy_id_for(requested: &str) -> (r: String)
    ensures
        requested@.len() > 0 ==> r@ == requested@,
        requested@.len() == 0 ==> is_ulid_text(r@),
{
    if requested.is_empty() {
        new_ulid_text()
    } else {
        String::from_str(requested)
    }
}

/// Prepares the write of a policy definition: a definition that does not
/// parse fails with `ModelParse`; one that fails semantic validation fails
/// with `ModelValidation` and its validation messages joined with "; "; one
/// with a condition whose expression does not compile fails with the first
/// such condition; otherwise the result is the id to store it under (the
/// requested id, or a fresh ULID when none is requested).
pub fn prepare_policy_write(definition: &str, requested_id: &str) -> (r: Result<String, AuthzErrorKind>)
    ensures
        match parsed_outline(definition@) {
            Err(e) => r matches Err(AuthzErrorKind::ModelParse(m)) && m@ == e,
            Ok((_, conditions)) => if !definition_valid(definition@) {
                r matches Err(AuthzErrorKind::ModelValidation(s)) && exists|messages: Seq<Seq<char>>|
                    messages.len() > 0 && s@ == #[trigger] joined(messages, "; "@)
            } else {
                match first_condition_failure(conditions) {
                    Some((name, e)) => r matches Err(AuthzErrorKind::ModelValidation(s)) && s@
                        == invalid_condition_text(name, e),
                    None => r matches Ok(id) && (requested_id@.len() > 0 ==> id@ == requested_id@) && (
                    requested_id@.len() == 0 ==> is_ulid_text(id@)),
                }
            },
        },
{
    match parse_outline(definition) {
        Err(e) => Err(AuthzErrorKind::ModelParse(e)),
        Ok((_, conditions)) => {
            let messages = validation_messages(definition);
            if messages.len() > 0 {
                let r = validation_failure(&messages);
                assert(views(messages@).len() > 0);
                return Err(r);
            }
            match check_condition_expressions(&conditions) {
                Err(e) => Err(e),
                Ok(()) => Ok(policy_id_for(requested_id)),
            }
        },
    }
}

/// Checks relationship writes against the latest policy, given as its
/// definition and the model built from it: with no writes, or no policy yet
/// (bootstrap), every write is accepted; a definition that does not parse
/// fails with `ModelParse`; a model whose types, relations and permissions
/// are not those of the definition fails with `Internal`; otherwise the first
/// write the model does not admit fails with `RelationshipValidation`.
pub fn check_writes_against_definition(latest: Option<(&str, &ModelFile)>, writes: &Vec<PgRelationship>) -> (r: Result<(), AuthzErrorKind>)
    ensures
        writes@.len() == 0 ==> r is Ok,
        writes@.len() > 0 ==> match latest {
            None => r is Ok,
            Some((definition, model)) => match parsed_outline(definition@) {
                Err(e) => r matches Err(AuthzErrorKind::ModelParse(m)) && m@ == e,
                Ok((types, _)) => if types != model_types_outline(*model) {
                    r matches Err(AuthzErrorKind::Internal(_))
                } else {
                    match writes_check(*model, writes@) {
                        Ok(()) => r is Ok,
                        Err(e) => r matches Err(AuthzErrorKind::RelationshipValidation(s)) && s@ == e,
                    }
                },
            },
        },
{
    if writes.len() == 0 {
        return Ok(());
    }
    match latest {
        None => Ok(()),
        Some((definition, model)) => {
            match parse_outline(definition) {
                Err(e) => Err(AuthzErrorKind::ModelParse(e)),
                Ok((types, _)) => {
                    let (own, _) = model_outline(model);
                    if !same_type_outlines(&types, &own) {
                        return Err(AuthzErrorKind::Internal(String::from_str("model does not match its definition")));
                    }
                    validate_tuple_writes(model, writes)
                },
            }
        },
    }
}

/// The rows of the computed policy of a stored policy, from its id and its
/// definition; a definition that does not parse fails with `ModelParse`.
pub fn computed_policy(policy_id: &str, definition: &str) -> (r: Result<Vec<PolicyRow>, AuthzErrorKind>)
    ensures
        match parsed_outline(definition@) {
            Err(e) => r matches Err(AuthzErrorKind::ModelParse(m)) && m@ == e,
            Ok((types, conditions)) => r matches Ok(rows) && rows_view(rows@) == outline_rows(policy_id@, types, conditions),
        },
{
    match parse_outline(definition) {
        Err(e) => Err(AuthzErrorKind::ModelParse(e)),
        Ok((types, conditions)) => Ok(rows_from_outline(policy_id, &types, &conditions)),
    }
}

} // verus!
