//! What the vault operations make of a failed call.
//!
//! A call that fails is looked at once more: where the rendering of its error
//! names a condition that the server is known to report, the error handed out
//! is the server's own, with the status code read out of the rendering.

use crate::error::{
    process_connect_error_response, status_code_of, status_pattern, unreadable, Cause,
    ConnectAPIError, Error, Kind, OPError,
};
use crate::models::StatusWrapper;
use crate::text::{contains, decimal, is_substring};
use crate::trusted::regex_captures;
use vstd::prelude::*;

verus! {

/// The first of the conditions that the text names, if it names one.
pub open spec fn first_named(text: Seq<char>, conditions: Seq<Seq<char>>) -> Option<Seq<char>>
    decreases conditions.len(),
{
    if conditions.len() == 0 {
        None
    } else if is_substring(text, conditions[0]) {
        Some(conditions[0])
    } else {
        first_named(text, conditions.drop_first())
    }
}

/// Whether `outcome` is the error to hand out for a failed call, given the
/// status code read out of the rendering of its error.
///
/// Where the rendering names one of the conditions, the outcome is an error
/// of the API with the first such condition as its message and the status
/// code as its status, zero where none was read. Otherwise it is an internal
/// error caused by the error of the call.
pub open spec fn reclassified(
    err: Error,
    status_code: Option<u16>,
    conditions: Seq<Seq<char>>,
    outcome: Error,
) -> bool {
    match first_named(err.rendering(), conditions) {
        Some(condition) => {
            &&& outcome.kind matches Kind::ConnectAPIError(api)
            &&& api.message@ == condition
            &&& api.status@ == decimal(
                match status_code {
                    Some(code) => code as nat,
                    None => 0,
                },
            )
            &&& outcome.cause is None
        },
        None => outcome == (Error {
            kind: Kind::InternalError,
            cause: Some(Cause::Nested(Box::new(err))),
        }),
    }
}

/// Tells the error to hand out for a failed call, given what was read out of
/// the rendering of its error.
pub fn reclassify_with(err: Error, op: OPError, conditions: &[&str]) -> (r: Error)
    ensures
        reclassified(err, op.status_code, conditions.deep_view(), r),
{
    let text = err.to_string();
    assert(conditions.deep_view().skip(0) =~= conditions.deep_view());
    let mut i: usize = 0;
    while i < conditions.len()
        invariant
            i <= conditions.len(),
            text@ == err.rendering(),
            first_named(err.rendering(), conditions.deep_view()) == first_named(
                err.rendering(),
                conditions.deep_view().skip(i as int),
            ),
        decreases conditions.len() - i,
    {
        let ghost rest = conditions.deep_view().skip(i as int);
        proof {
            assert(rest[0] == conditions[i as int]@);
            assert(rest.drop_first() =~= conditions.deep_view().skip(i + 1));
        }
        if contains(text.as_str(), conditions[i]) {
            let status = StatusWrapper {
                status: match op.status_code {
                    Some(code) => code,
                    None => 0,
                },
            };
            return Error::new_connect_error(ConnectAPIError::new(String::from(status), conditions[i]));
        }
        i += 1;
    }
    Error::new_internal_error().with(Cause::Nested(Box::new(err)))
}

/// Whether `outcome` is the error to hand out for a failed call.
///
/// The rendering of the error of the call is searched for its status code.
/// Where that search fails, or finds a status code that cannot be read, the
/// outcome is that failure; otherwise it is as [`reclassified`] says, with
/// the status code found.
pub open spec fn reclassified_from(err: Error, conditions: Seq<Seq<char>>, outcome: Error) -> bool {
    match regex_captures(status_pattern(), err.rendering()) {
        Err(report) => {
            &&& outcome.kind == Kind::InternalError
            &&& outcome.cause matches Some(Cause::Message(said))
            &&& said@ == report
        },
        Ok(found) => if unreadable(found) {
            outcome == (Error { kind: Kind::ParsingError, cause: None })
        } else {
            reclassified(err, status_code_of(found), conditions, outcome)
        },
    }
}

/// Tells the error to hand out for a failed call.
pub fn reclassify(err: Error, conditions: &[&str]) -> (r: Error)
    ensures
        reclassified_from(err, conditions.deep_view(), r),
{
    match process_connect_error_response(err.to_string()) {
        Ok(op) => reclassify_with(err, op, conditions),
        Err(failure) => failure,
    }
}

/// The error to hand out where listing the vaults failed: the server's own
/// where it reports an invalid bearer token.
pub fn list_failure(err: Error) -> (r: Error)
    ensures
        reclassified_from(err, seq!["Invalid bearer token"@], r),
{
    let conditions = ["Invalid bearer token"];
    assert(conditions.deep_view() =~= seq!["Invalid bearer token"@]);
    reclassify(err, &conditions)
}

/// The error to hand out where getting one vault failed: the server's own
/// where it reports an invalid bearer token or an invalid vault UUID.
pub fn get_failure(err: Error) -> (r: Error)
    ensures
        reclassified_from(err, seq!["Invalid bearer token"@, "Invalid Vault UUID"@], r),
{
    let conditions = ["Invalid bearer token", "Invalid Vault UUID"];
    assert(conditions.deep_view() =~= seq!["Invalid bearer token"@, "Invalid Vault UUID"@]);
    reclassify(err, &conditions)
}

} // verus!
