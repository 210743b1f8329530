//! The calls that leave this crate, each with the contract that the rest of
//! the crate relies on. Nothing in this file is proved: every contract restates
//! what the called function's source or documentation says.

use crate::backoff::Delay;
use exponential_backoff::Backoff;
use hyper::header::{HeaderValue, InvalidHeaderValue};
use hyper::StatusCode;
use regex::Regex;
use std::time::Duration;
use vstd::prelude::*;
use vstd::utf8::{decode_utf8, encode_utf8, valid_utf8};

verus! {

/// The failure that `hyper::header::HeaderValue::from_str` reports.
#[verifier::external_type_specification]
#[verifier::external_body]
pub struct ExInvalidHeaderValue(InvalidHeaderValue);

/// A JSON value of `serde_json`.
#[verifier::external_type_specification]
#[verifier::external_body]
pub struct ExJsonValue(serde_json::Value);

/// `String::from_iter` over the characters of a vector. The standard library
/// documents that the string holds exactly the characters yielded, in the
/// order in which they were yielded.
#[verifier::external_body]
pub(crate) fn string_of(v: &Vec<char>) -> (s: String)
    ensures
        s@ == v@,
{
    String::from_iter(v.iter())
}

/// `std::str::from_utf8`, with the text copied into a `String` and the
/// failure replaced by its `Display` text. The standard library documents
/// that it succeeds exactly on valid UTF-8, and that the text is then the one
/// those bytes encode.
#[verifier::external_body]
pub(crate) fn text_of_bytes(bytes: &[u8]) -> (r: Result<String, String>)
    ensures
        match r {
            Ok(text) => valid_utf8(bytes@) && text@ == decode_utf8(bytes@),
            Err(_) => !valid_utf8(bytes@),
        },
{
    match std::str::from_utf8(bytes) {
        Ok(text) => Ok(text.to_owned()),
        Err(err) => Err(err.to_string()),
    }
}

/// The reason phrase that the `http` crate knows for a status code; `None`
/// where it knows none, and for a number that is no status code at all.
pub uninterp spec fn canonical_reason(status: u16) -> Option<Seq<char>>;

/// `StatusCode::canonical_reason` of the `http` crate (which `hyper`
/// re-exports), on the status code that `StatusCode::from_u16` makes of the
/// number. The phrase comes from a fixed table, so it depends on the number
/// alone; a number that `from_u16` refuses has no phrase.
#[verifier::external_body]
pub(crate) fn reason_phrase(status: u16) -> (r: Option<String>)
    ensures
        match r {
            Some(phrase) => canonical_reason(status) == Some(phrase@),
            None => canonical_reason(status) is None,
        },
{
    match StatusCode::from_u16(status) {
        Ok(code) => code.canonical_reason().map(|phrase| phrase.to_owned()),
        Err(_) => None,
    }
}

/// Whether the `http` crate lets a byte stand in a header value: anything
/// from the blank on except DEL, and the horizontal tab.
pub open spec fn header_byte_ok(b: u8) -> bool {
    b >= 32 && b != 127 || b == 9
}

/// Whether the `http` crate lets every one of these bytes stand in a header
/// value.
pub open spec fn header_bytes_ok(bytes: Seq<u8>) -> bool {
    forall|i: int| 0 <= i < bytes.len() ==> header_byte_ok(#[trigger] bytes[i])
}

/// `HeaderValue::from_str` of the `http` crate (which `hyper` re-exports),
/// keeping the failure only. Its source walks the bytes of the text and
/// fails on the first one that [`header_byte_ok`] refuses.
#[verifier::external_body]
pub(crate) fn header_value_error(value: &str) -> (r: Option<InvalidHeaderValue>)
    ensures
        r is None <==> header_bytes_ok(encode_utf8(value@)),
{
    HeaderValue::from_str(value).err()
}

/// `Backoff::next` of `exponential_backoff`, on a schedule made by
/// `Backoff::new` with the crate's default growth and jitter. The wait is
/// drawn at random, so two calls may differ. Its source ends by capping the
/// wait at `max` and then raising it to `min`, and yields a wait for every
/// attempt below `retries`.
#[verifier::external_body]
pub(crate) fn backoff_delay(
    retries: u32,
    min: Delay,
    max: Delay,
    attempt: u32,
) -> (r: Option<Delay>)
    requires
        retries >= 1,
        attempt < retries,
        min.wf(),
        max.wf(),
    ensures
        r is Some,
        r matches Some(delay) ==> delay.wf() && min.as_nanos() <= delay.as_nanos(),
        r matches Some(delay) ==> (min.as_nanos() <= max.as_nanos() ==> delay.as_nanos()
            <= max.as_nanos()),
{
    let backoff = Backoff::new(
        retries,
        Duration::new(min.secs, min.nanos),
        Duration::new(max.secs, max.nanos),
    );
    backoff.next(attempt).map(|wait| Delay { secs: wait.as_secs(), nanos: wait.subsec_nanos() })
}

/// The JSON document that a value of `serde_json` holds, as the text that
/// `serde_json` writes for it.
pub uninterp spec fn json_text(value: serde_json::Value) -> Seq<char>;

/// What `serde_json` makes of a run of bytes: the document that they denote,
/// as [`json_text`] of the value read, or the `Display` text of its failure.
pub uninterp spec fn json_document(bytes: Seq<u8>) -> Result<Seq<char>, Seq<char>>;

/// `serde_json::from_slice`, read as a `serde_json::Value`, the failure
/// replaced by its `Display` text. What it returns depends on the bytes alone.
#[verifier::external_body]
pub(crate) fn parse_json(bytes: &[u8]) -> (r: Result<serde_json::Value, String>)
    ensures
        match r {
            Ok(value) => json_document(bytes@) == Ok::<Seq<char>, Seq<char>>(json_text(value)),
            Err(report) => json_document(bytes@) == Err::<Seq<char>, Seq<char>>(report@),
        },
{
    match serde_json::from_slice(bytes) {
        Ok(value) => Ok(value),
        Err(err) => Err(err.to_string()),
    }
}

/// What `regex` finds of a pattern in a text: the capture groups of the
/// leftmost match, the whole match first and a group that took no part as
/// `None`; `None` where the pattern matches nowhere; the `Display` text of
/// the failure where `regex` refuses the pattern.
pub uninterp spec fn regex_captures(pattern: Seq<char>, haystack: Seq<char>) -> Result<
    Option<Seq<Option<Seq<char>>>>,
    Seq<char>,
>;

/// `Regex::captures` of `regex`, on the expression that `Regex::new` makes
/// of the pattern, each group copied out as text and the failure replaced by
/// its `Display` text. What it returns depends on its arguments alone.
#[verifier::external_body]
pub(crate) fn captures(
    pattern: &str,
    haystack: &str,
) -> (r: Result<Option<Vec<Option<String>>>, String>)
    ensures
        match r {
            Ok(groups) => regex_captures(pattern@, haystack@) == Ok::<
                Option<Seq<Option<Seq<char>>>>,
                Seq<char>,
            >(groups.deep_view()),
            Err(report) => regex_captures(pattern@, haystack@) == Err::<
                Option<Seq<Option<Seq<char>>>>,
                Seq<char>,
            >(report@),
        },
{
    match Regex::new(pattern) {
        Ok(expression) => Ok(
            expression.captures(haystack).map(
                |found| found.iter().map(|group| group.map(|m| m.as_str().to_owned())).collect(),
            ),
        ),
        Err(err) => Err(err.to_string()),
    }
}

} // verus!
