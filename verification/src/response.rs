//! What a call makes of the response it received: the body read as JSON, the
//! status told apart as success or failure, and the decoded value handed out
//! together with the raw JSON.
//!
//! The body is read as JSON before the status is looked at, so that the body
//! of a failure is known to be JSON when it is reported. Nothing here is ever
//! retried: a response is the definitive outcome of an exchange.

use crate::client::RawResponse;
use crate::error::{Cause, Error, Kind, RequestNotSuccessful};
use crate::trusted::{json_document, json_text, parse_json, text_of_bytes};
use vstd::prelude::*;
use vstd::utf8::{decode_utf8, valid_utf8};

verus! {

/// The status code `200 OK`.
pub const OK: u16 = 200;

/// The status code `204 No Content`.
pub const NO_CONTENT: u16 = 204;

/// Whether a status code is one of success: `200 OK` or `204 No Content`.
pub open spec fn is_success(status: u16) -> bool {
    status == OK || status == NO_CONTENT
}

/// Tells whether a status code is one of success.
pub fn status_is_success(status: u16) -> (r: bool)
    ensures
        r == is_success(status),
{
    status == OK || status == NO_CONTENT
}

/// The body that is read in place of the one received: an empty body stands
/// for the empty JSON object, `{}`; any other body stands for itself.
pub open spec fn effective(body: Seq<u8>) -> Seq<u8> {
    if body.len() == 0 {
        seq![0x7bu8, 0x7du8]
    } else {
        body
    }
}

/// Puts the empty JSON object in the place of an empty body.
pub fn effective_body(body: Vec<u8>) -> (r: Vec<u8>)
    ensures
        r@ == effective(body@),
{
    if body.len() == 0 {
        let mut object: Vec<u8> = Vec::new();
        object.push(0x7bu8);
        object.push(0x7du8);
        assert(object@ =~= seq![0x7bu8, 0x7du8]);
        object
    } else {
        body
    }
}

/// Reading the effective body a second time changes nothing.
pub proof fn lemma_effective_once(body: Seq<u8>)
    ensures
        effective(effective(body)) == effective(body),
{
}

/// A parsing error caused by the failure reported.
pub open spec fn parsing_failure(report: String) -> Error {
    Error { kind: Kind::ParsingError, cause: Some(Cause::Message(report)) }
}

/// The outcome of a call, given its status and what was made of its body:
/// the body read as JSON, the body read as text, and the body decoded as the
/// value asked for.
///
/// - A body that is no JSON is a parsing error, whatever the status.
/// - A body that is no text is a UTF-8 error.
/// - A status that is not one of success is an unsuccessful request,
///   reported with the status and the text of the body.
/// - A body that is not the value asked for is a parsing error.
/// - Anything else is the value, with the raw JSON beside it.
pub open spec fn classified<T>(
    status: u16,
    document: Result<serde_json::Value, String>,
    text: Result<String, String>,
    typed: Result<T, String>,
) -> Result<(T, serde_json::Value), Error> {
    match document {
        Err(report) => Err(parsing_failure(report)),
        Ok(raw) => match text {
            Err(report) => Err(
                Error { kind: Kind::Utf8Error, cause: Some(Cause::Message(report)) },
            ),
            Ok(body) => if !is_success(status) {
                Err(
                    Error {
                        kind: Kind::RequestNotSuccessful(RequestNotSuccessful { status, body }),
                        cause: None,
                    },
                )
            } else {
                match typed {
                    Err(report) => Err(parsing_failure(report)),
                    Ok(value) => Ok((value, raw)),
                }
            },
        },
    }
}

/// Tells the outcome of a call from its status and what was made of its
/// body.
pub fn classify<T>(
    status: u16,
    document: Result<serde_json::Value, String>,
    text: Result<String, String>,
    typed: Result<T, String>,
) -> (r: Result<(T, serde_json::Value), Error>)
    ensures
        r == classified(status, document, text, typed),
{
    let raw = match document {
        Ok(raw) => raw,
        Err(report) => {
            return Err(Error::new_parsing_error(Cause::Message(report)));
        },
    };
    let body = match text {
        Ok(body) => body,
        Err(report) => {
            return Err(Error::new(Kind::Utf8Error).with(Cause::Message(report)));
        },
    };
    if !status_is_success(status) {
        return Err(Error::from(RequestNotSuccessful::new(status, body)));
    }
    match typed {
        Ok(value) => Ok((value, raw)),
        Err(report) => Err(Error::new_parsing_error(Cause::Message(report))),
    }
}

/// Whether `outcome` is what a call with this status and this body comes to,
/// where `typed` is the body decoded as the value asked for.
///
/// This is [`classified`] with the body read as `serde_json` reads it: the
/// outcome holds the raw JSON that the effective body denotes, and a parsing
/// error holds the report of `serde_json`.
pub open spec fn decoded<T>(
    status: u16,
    body: Seq<u8>,
    typed: Result<T, String>,
    outcome: Result<(T, serde_json::Value), Error>,
) -> bool {
    match json_document(effective(body)) {
        Err(report) => {
            &&& outcome matches Err(err)
            &&& err.kind == Kind::ParsingError
            &&& err.cause matches Some(Cause::Message(said))
            &&& said@ == report
        },
        Ok(document) => if !valid_utf8(effective(body)) {
            &&& outcome matches Err(err)
            &&& err.kind == Kind::Utf8Error
            &&& err.cause matches Some(Cause::Message(_))
        } else if !is_success(status) {
            &&& outcome matches Err(err)
            &&& err.kind matches Kind::RequestNotSuccessful(failure)
            &&& failure.status == status
            &&& failure.body@ == decode_utf8(effective(body))
            &&& err.cause is None
        } else {
            match typed {
                Err(report) => outcome == Err::<(T, serde_json::Value), Error>(
                    parsing_failure(report),
                ),
                Ok(value) => {
                    &&& outcome matches Ok(pair)
                    &&& pair.0 == value
                    &&& json_text(pair.1) == document
                },
            }
        },
    }
}

/// Decodes a response: reads the effective body as JSON, tells the status
/// apart, and hands out the decoded value with the raw JSON.
///
/// `typed` is the effective body decoded as the value asked for, or the
/// report of the decoder.
pub fn decode_response<T>(response: RawResponse, typed: Result<T, String>) -> (r: Result<
    (T, serde_json::Value),
    Error,
>)
    ensures
        decoded(response.status, response.body@, typed, r),
{
    let status = response.status;
    let body = effective_body(response.body);
    let document = parse_json(body.as_slice());
    let text = text_of_bytes(body.as_slice());
    classify(status, document, text, typed)
}

/// A value is handed out only for a status of success.
pub proof fn law_value_needs_success<T>(
    status: u16,
    body: Seq<u8>,
    typed: Result<T, String>,
    outcome: Result<(T, serde_json::Value), Error>,
)
    requires
        decoded(status, body, typed, outcome),
        outcome is Ok,
    ensures
        is_success(status),
        typed is Ok,
        json_document(effective(body)) is Ok,
{
}

/// A body that is no JSON is a parsing error even where the status is one of
/// failure, and a body that is JSON under a status of failure is an
/// unsuccessful request and no parsing error.
pub proof fn law_body_before_status<T>(
    status: u16,
    body: Seq<u8>,
    typed: Result<T, String>,
    outcome: Result<(T, serde_json::Value), Error>,
)
    requires
        decoded(status, body, typed, outcome),
        !is_success(status),
    ensures
        outcome is Err,
        json_document(effective(body)) is Err ==> outcome->Err_0.kind == Kind::ParsingError,
        json_document(effective(body)) is Ok && valid_utf8(effective(body))
            ==> outcome->Err_0.kind is RequestNotSuccessful,
{
}

} // verus!
