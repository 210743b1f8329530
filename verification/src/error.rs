//! Error taxonomy: a closed set of kinds, each optionally carrying the cause
//! that led to it, and the text that each renders as.

use crate::text::{decimal, numeral_u16, parse_u16, same_text, to_decimal};
use crate::trusted::{canonical_reason, captures, reason_phrase, regex_captures};
use vstd::prelude::*;
use vstd::string::*;

verus! {

/// Marker for the error types of this crate.
pub trait ErrorTrait {

}

/// How a status code reads: its number, a blank, and its reason phrase.
pub open spec fn status_line(status: u16) -> Seq<char> {
    decimal(status as nat) + " "@ + match canonical_reason(status) {
        Some(phrase) => phrase,
        None => "<unknown status code>"@,
    }
}

/// Renders a status code as [`status_line`] says.
pub fn render_status(status: u16) -> (s: String)
    ensures
        s@ == status_line(status),
{
    let mut s = to_decimal(status as u64);
    s.append(" ");
    match reason_phrase(status) {
        Some(phrase) => {
            s.append(phrase.as_str());
        },
        None => {
            s.append("<unknown status code>");
        },
    }
    s
}

/// A response whose status is not one of success: the status code and the
/// body as it was received.
#[derive(Debug)]
pub struct RequestNotSuccessful {
    /// Status code returned by the HTTP call.
    pub status: u16,
    /// Body returned by the HTTP call.
    pub body: String,
}

impl RequestNotSuccessful {
    /// Creates a new unsuccessful request error.
    pub fn new(status: u16, body: String) -> (e: Self)
        ensures
            e == (RequestNotSuccessful { status, body }),
    {
        Self { status, body }
    }

    /// The text this error renders as.
    pub open spec fn rendering(self) -> Seq<char> {
        "StatusCode: "@ + status_line(self.status) + ", Body: "@ + self.body@
    }

    /// Renders the error.
    pub fn to_string(&self) -> (s: String)
        ensures
            s@ == self.rendering(),
    {
        let mut s = String::from_str("StatusCode: ");
        s.append(render_status(self.status).as_str());
        s.append(", Body: ");
        s.append(self.body.as_str());
        s
    }
}

/// An error that the remote API reported: its message and its status code,
/// the latter as text.
#[derive(Debug)]
pub struct ConnectAPIError {
    /// Error message from the API.
    pub message: String,
    /// Status code returned by the HTTP call.
    pub status: String,
}

impl ConnectAPIError {
    /// Creates a new API error.
    pub fn new(status: String, message: &str) -> (e: Self)
        ensures
            e.status == status,
            e.message@ == message@,
    {
        Self { status, message: String::from_str(message) }
    }

    /// The text this error renders as.
    pub open spec fn rendering(self) -> Seq<char> {
        "StatusCode: "@ + self.status@ + ", Message: "@ + self.message@
    }

    /// Renders the error.
    pub fn to_string(&self) -> (s: String)
        ensures
            s@ == self.rendering(),
    {
        let mut s = String::from_str("StatusCode: ");
        s.append(self.status.as_str());
        s.append(", Message: ");
        s.append(self.message.as_str());
        s
    }
}

/// A free-form error message.
#[derive(Debug)]
pub struct CustomError {
    /// Error message.
    pub message: String,
}

impl CustomError {
    /// Creates a new custom error.
    pub fn new(message: &str) -> (e: Self)
        ensures
            e.message@ == message@,
    {
        Self { message: String::from_str(message) }
    }

    /// The text this error renders as.
    pub open spec fn rendering(self) -> Seq<char> {
        "Message: "@ + self.message@
    }

    /// Renders the error.
    pub fn to_string(&self) -> (s: String)
        ensures
            s@ == self.rendering(),
    {
        let mut s = String::from_str("Message: ");
        s.append(self.message.as_str());
        s
    }
}

/// What went wrong, as one of a closed set of kinds.
#[derive(Debug)]
pub enum Kind {
    /// A free-form failure composed from lower layers.
    CustomError(CustomError),
    /// The HTTP stack failed; the text is its report.
    HyperError(String),
    /// The HTTP stack refused to build a request; the text is its report.
    HyperHttpError(String),
    /// The retry budget was spent, or a failure that fits no other kind.
    InternalError,
    /// A header could not be built from the value given.
    InvalidHeaderValue,
    /// The network did not deliver.
    NetworkError,
    /// The operation is not supported.
    NotImplementedError,
    /// The body is no JSON, or not the JSON that was asked for.
    ParsingError,
    /// A retry failed.
    RetryError,
    /// The server answered with a status that is not one of success.
    RequestNotSuccessful(RequestNotSuccessful),
    /// The JSON decoder failed; the text is its report.
    SerdeJsonError(String),
    /// The body is not UTF-8.
    Utf8Error,
    /// The remote API reported an error of its own.
    ConnectAPIError(ConnectAPIError),
}

impl Kind {
    /// The name of the kind.
    pub open spec fn name_text(self) -> Seq<char> {
        match self {
            Kind::CustomError(_) => "CustomError"@,
            Kind::HyperError(_) => "HyperError"@,
            Kind::HyperHttpError(_) => "HyperHttpError"@,
            Kind::InternalError => "InternalError"@,
            Kind::InvalidHeaderValue => "InvalidHeaderValue"@,
            Kind::NetworkError => "NetworkError"@,
            Kind::NotImplementedError => "NotImplementedError"@,
            Kind::ParsingError => "ParsingError"@,
            Kind::RetryError => "RetryError"@,
            Kind::RequestNotSuccessful(_) => "RequestNotSuccessful"@,
            Kind::SerdeJsonError(_) => "SerdeJsonError"@,
            Kind::Utf8Error => "Utf8Error"@,
            Kind::ConnectAPIError(_) => "ConnectAPIError"@,
        }
    }

    /// Renders the name of the kind.
    pub fn to_string(&self) -> (s: String)
        ensures
            s@ == self.name_text(),
    {
        match self {
            Kind::CustomError(_) => String::from_str("CustomError"),
            Kind::HyperError(_) => String::from_str("HyperError"),
            Kind::HyperHttpError(_) => String::from_str("HyperHttpError"),
            Kind::InternalError => String::from_str("InternalError"),
            Kind::InvalidHeaderValue => String::from_str("InvalidHeaderValue"),
            Kind::NetworkError => String::from_str("NetworkError"),
            Kind::NotImplementedError => String::from_str("NotImplementedError"),
            Kind::ParsingError => String::from_str("ParsingError"),
            Kind::RetryError => String::from_str("RetryError"),
            Kind::RequestNotSuccessful(_) => String::from_str("RequestNotSuccessful"),
            Kind::SerdeJsonError(_) => String::from_str("SerdeJsonError"),
            Kind::Utf8Error => String::from_str("Utf8Error"),
            Kind::ConnectAPIError(_) => String::from_str("ConnectAPIError"),
        }
    }

    /// What the kind says of itself, apart from any cause.
    pub open spec fn description_text(self) -> Seq<char> {
        match self {
            Kind::HyperError(_) => "this is a Hyper related error!"@,
            Kind::HyperHttpError(_) => "this is a Hyper HTTP related error!"@,
            Kind::InternalError => "internal error"@,
            Kind::InvalidHeaderValue => "invalid header value"@,
            Kind::NetworkError => "network error"@,
            Kind::NotImplementedError => "not implemented error"@,
            Kind::ParsingError => "parsing error"@,
            Kind::RetryError => "retry error"@,
            Kind::RequestNotSuccessful(err) => "client returned an unsuccessful HTTP status code: "@
                + err.rendering(),
            Kind::SerdeJsonError(_) => "serde deserialization error"@,
            Kind::Utf8Error => "parsing bytes experienced a UTF8 error"@,
            Kind::CustomError(err) => "Error: "@ + err.rendering(),
            Kind::ConnectAPIError(err) => "Connect API error: "@ + err.rendering(),
        }
    }
}

/// What led to an error.
#[derive(Debug)]
pub enum Cause {
    /// A failure raised outside this crate, as the text of its report.
    Message(String),
    /// A free-form failure.
    Custom(CustomError),
    /// Another error of this crate.
    Nested(Box<Error>),
}

/// An error: its kind and, where one is known, its cause.
#[derive(Debug)]
pub struct Error {
    /// What went wrong.
    pub kind: Kind,
    /// What led to it.
    pub cause: Option<Cause>,
}

impl Cause {
    /// The text the cause renders as.
    pub open spec fn rendering(self) -> Seq<char>
        decreases self,
    {
        match self {
            Cause::Message(text) => text@,
            Cause::Custom(err) => err.rendering(),
            Cause::Nested(err) => err.rendering(),
        }
    }

    /// Renders the cause.
    pub fn to_string(&self) -> (s: String)
        ensures
            s@ == self.rendering(),
        decreases self,
    {
        match self {
            Cause::Message(text) => text.clone(),
            Cause::Custom(err) => err.to_string(),
            Cause::Nested(err) => err.to_string(),
        }
    }
}

impl Error {
    /// An error of the given kind, without a cause.
    pub fn new(kind: Kind) -> (e: Error)
        ensures
            e == (Error { kind, cause: None }),
    {
        Error { kind, cause: None }
    }

    /// The same error with `cause` as its cause, in place of any it had.
    pub fn with(self, cause: Cause) -> (e: Error)
        ensures
            e == (Error { kind: self.kind, cause: Some(cause) }),
    {
        Error { kind: self.kind, cause: Some(cause) }
    }

    /// The cause of the error, if it has one.
    pub fn source(&self) -> (r: Option<&Cause>)
        ensures
            match r {
                Some(cause) => self.cause == Some(*cause),
                None => self.cause is None,
            },
    {
        self.cause.as_ref()
    }

    /// The first free-form failure on the chain of causes, if there is one.
    pub open spec fn custom_source(self) -> Option<CustomError>
        decreases self,
    {
        match self.cause {
            Some(Cause::Custom(err)) => Some(err),
            Some(Cause::Nested(inner)) => inner.custom_source(),
            _ => None,
        }
    }

    /// Walks the chain of causes to the first free-form failure.
    pub fn find_source(&self) -> (r: Option<&CustomError>)
        ensures
            match r {
                Some(err) => self.custom_source() == Some(*err),
                None => self.custom_source() is None,
            },
        decreases self,
    {
        match &self.cause {
            Some(Cause::Custom(err)) => Some(err),
            Some(Cause::Nested(inner)) => inner.find_source(),
            _ => None,
        }
    }

    /// A network error with the given cause.
    pub fn new_network_error(cause: Cause) -> (e: Error)
        ensures
            e == (Error { kind: Kind::NetworkError, cause: Some(cause) }),
    {
        Error::new(Kind::NetworkError).with(cause)
    }

    /// A parsing error with the given cause.
    pub fn new_parsing_error(cause: Cause) -> (e: Error)
        ensures
            e == (Error { kind: Kind::ParsingError, cause: Some(cause) }),
    {
        Error::new(Kind::ParsingError).with(cause)
    }

    /// A retry error with the given cause.
    pub fn new_retry_error(cause: Cause) -> (e: Error)
        ensures
            e == (Error { kind: Kind::RetryError, cause: Some(cause) }),
    {
        Error::new(Kind::RetryError).with(cause)
    }

    /// An error that the remote API reported.
    pub fn new_connect_error(err: ConnectAPIError) -> (e: Error)
        ensures
            e == (Error { kind: Kind::ConnectAPIError(err), cause: None }),
    {
        Error::new(Kind::ConnectAPIError(err))
    }

    /// An internal error.
    pub fn new_internal_error() -> (e: Error)
        ensures
            e == (Error { kind: Kind::InternalError, cause: None }),
    {
        Error::new(Kind::InternalError)
    }

    /// The error's standalone message, without the message of its cause.
    pub open spec fn message_text(self) -> Seq<char> {
        self.kind.description_text()
    }

    /// The text the error renders as: its message and, after a colon, the
    /// rendering of its cause where it has one.
    pub open spec fn rendering(self) -> Seq<char>
        decreases self,
    {
        match self.cause {
            Some(cause) => self.message_text() + ": "@ + cause.rendering(),
            None => self.message_text(),
        }
    }

    /// The error's standalone message, without the message of its cause.
    pub fn message(&self) -> (s: String)
        ensures
            s@ == self.message_text(),
    {
        self.description()
    }

    fn description(&self) -> (s: String)
        ensures
            s@ == self.message_text(),
    {
        match &self.kind {
            Kind::HyperError(_) => String::from_str("this is a Hyper related error!"),
            Kind::HyperHttpError(_) => String::from_str("this is a Hyper HTTP related error!"),
            Kind::InternalError => String::from_str("internal error"),
            Kind::InvalidHeaderValue => String::from_str("invalid header value"),
            Kind::NetworkError => String::from_str("network error"),
            Kind::NotImplementedError => String::from_str("not implemented error"),
            Kind::ParsingError => String::from_str("parsing error"),
            Kind::RetryError => String::from_str("retry error"),
            Kind::RequestNotSuccessful(err) => {
                let mut s = String::from_str("client returned an unsuccessful HTTP status code: ");
                s.append(err.to_string().as_str());
                s
            },
            Kind::SerdeJsonError(_) => String::from_str("serde deserialization error"),
            Kind::Utf8Error => String::from_str("parsing bytes experienced a UTF8 error"),
            Kind::CustomError(err) => {
                let mut s = String::from_str("Error: ");
                s.append(err.to_string().as_str());
                s
            },
            Kind::ConnectAPIError(err) => {
                let mut s = String::from_str("Connect API error: ");
                s.append(err.to_string().as_str());
                s
            },
        }
    }

    /// Renders the error.
    pub fn to_string(&self) -> (s: String)
        ensures
            s@ == self.rendering(),
        decreases self,
    {
        match &self.cause {
            Some(cause) => {
                let mut s = self.description();
                s.append(": ");
                s.append(cause.to_string().as_str());
                s
            },
            None => self.description(),
        }
    }
}

impl From<CustomError> for Error {
    fn from(err: CustomError) -> (e: Error) {
        Error::new(Kind::CustomError(err))
    }
}

impl vstd::std_specs::convert::FromSpecImpl<CustomError> for Error {
    open spec fn obeys_from_spec() -> bool {
        true
    }

    open spec fn from_spec(err: CustomError) -> Error {
        Error { kind: Kind::CustomError(err), cause: None }
    }
}

impl From<RequestNotSuccessful> for Error {
    fn from(err: RequestNotSuccessful) -> (e: Error) {
        Error::new(Kind::RequestNotSuccessful(err))
    }
}

impl vstd::std_specs::convert::FromSpecImpl<RequestNotSuccessful> for Error {
    open spec fn obeys_from_spec() -> bool {
        true
    }

    open spec fn from_spec(err: RequestNotSuccessful) -> Error {
        Error { kind: Kind::RequestNotSuccessful(err), cause: None }
    }
}

impl From<Error> for CustomError {
    fn from(err: Error) -> (e: CustomError)
        ensures
            e.message@ == "Internal error: "@ + err.rendering(),
    {
        let mut message = String::from_str("Internal error: ");
        message.append(err.to_string().as_str());
        CustomError { message }
    }
}

impl vstd::std_specs::convert::FromSpecImpl<Error> for CustomError {
    open spec fn obeys_from_spec() -> bool {
        false
    }

    open spec fn from_spec(err: Error) -> CustomError {
        choose|e: CustomError| e.message@ == "Internal error: "@ + err.rendering()
    }
}

/// What was read out of the rendering of an error: the status code, and the
/// texts that the search for it captured.
#[derive(Debug)]
pub struct OPError {
    /// The status code, where the rendering names one.
    pub status_code: Option<u16>,
    /// The texts captured, where the rendering holds what was searched for.
    pub captures: Option<Vec<String>>,
}

/// The regular expression that finds the status code in the rendering of an
/// error: the word `StatusCode`, a colon, white space, and a run of digits.
pub open spec fn status_pattern() -> Seq<char> {
    "(StatusCode):\\s+(\\d+)"@
}

/// The texts of the groups that took part in a match.
pub open spec fn present(groups: Seq<Option<Seq<char>>>) -> Seq<Seq<char>>
    decreases groups.len(),
{
    if groups.len() == 0 {
        Seq::empty()
    } else {
        match groups.last() {
            Some(text) => present(groups.drop_last()).push(text),
            None => present(groups.drop_last()),
        }
    }
}

/// The texts that a match captured: those of its groups that took part,
/// without the first group, which is the whole match.
pub open spec fn captured(groups: Seq<Option<Seq<char>>>) -> Seq<Seq<char>> {
    if groups.len() == 0 {
        Seq::empty()
    } else {
        present(groups.drop_first())
    }
}

/// Whether the texts captured name a status code: exactly two texts, the
/// first of them `StatusCode`.
pub open spec fn names_status(texts: Seq<Seq<char>>) -> bool {
    texts.len() == 2 && texts[0] == "StatusCode"@
}

/// Whether the result of a search names a status code that cannot be read:
/// a numeral that is no unsigned 16-bit number.
pub open spec fn unreadable(found: Option<Seq<Option<Seq<char>>>>) -> bool {
    &&& found matches Some(groups)
    &&& names_status(captured(groups))
    &&& numeral_u16(captured(groups)[1]) is None
}

/// The status code that the result of a search names, if it names one.
pub open spec fn status_code_of(found: Option<Seq<Option<Seq<char>>>>) -> Option<u16> {
    match found {
        Some(groups) => if names_status(captured(groups)) {
            numeral_u16(captured(groups)[1])
        } else {
            None
        },
        None => None,
    }
}

/// Whether `outcome` is what the result of a search comes to: a parsing
/// error where the status code cannot be read, and otherwise the status code
/// that the result names, beside the texts captured.
pub open spec fn read_from(
    found: Option<Seq<Option<Seq<char>>>>,
    outcome: Result<OPError, Error>,
) -> bool {
    if unreadable(found) {
        outcome == Err::<OPError, Error>(Error { kind: Kind::ParsingError, cause: None })
    } else {
        &&& outcome matches Ok(op)
        &&& op.status_code == status_code_of(found)
        &&& op.captures.deep_view() == match found {
            Some(groups) => Some(captured(groups)),
            None => None,
        }
    }
}

/// Reads the status code out of the result of a search for
/// [`status_pattern`].
pub fn op_error_from_captures(found: Option<Vec<Option<String>>>) -> (r: Result<OPError, Error>)
    ensures
        read_from(found.deep_view(), r),
{
    let groups = match found {
        Some(groups) => groups,
        None => {
            return Ok(OPError { status_code: None, captures: None });
        },
    };
    let ghost all = groups.deep_view();
    let mut texts: Vec<String> = Vec::new();
    let mut i: usize = 1;
    while i < groups.len()
        invariant
            1 <= i,
            all == groups.deep_view(),
            i <= groups.len() ==> texts.deep_view() == present(all.subrange(1, i as int)),
            i > groups.len() ==> groups.len() == 0 && texts.deep_view() == Seq::<
                Seq<char>,
            >::empty(),
        decreases groups.len() - i,
    {
        let ghost before = texts.deep_view();
        proof {
            assert(all.subrange(1, i + 1).drop_last() =~= all.subrange(1, i as int));
            assert(all.subrange(1, i + 1).last() == groups[i as int].deep_view());
        }
        match &groups[i] {
            Some(text) => {
                texts.push(text.clone());
                assert(texts.deep_view() =~= before.push(text@));
            },
            None => {},
        }
        i += 1;
    }
    proof {
        if groups.len() > 0 {
            assert(all.subrange(1, groups.len() as int) =~= all.drop_first());
        } else {
            assert(texts.deep_view() =~= Seq::<Seq<char>>::empty());
        }
        assert(texts.deep_view() == captured(all));
        if texts.len() == 2 {
            assert(texts.deep_view()[0] == texts[0]@);
            assert(texts.deep_view()[1] == texts[1]@);
        }
    }
    let status_code = if texts.len() == 2 && same_text(texts[0].as_str(), "StatusCode") {
        match parse_u16(texts[1].as_str()) {
            Some(code) => Some(code),
            None => {
                return Err(Error::new(Kind::ParsingError));
            },
        }
    } else {
        None
    };
    Ok(OPError { status_code, captures: Some(texts) })
}

/// Reads the status code out of the rendering of an error.
///
/// The rendering is searched for [`status_pattern`], and the result is read
/// as [`read_from`] says. Should the pattern be refused, the outcome is an
/// internal error caused by the report of the refusal.
pub fn process_connect_error_response(err_message: String) -> (r: Result<OPError, Error>)
    ensures
        match regex_captures(status_pattern(), err_message@) {
            Ok(found) => read_from(found, r),
            Err(report) => {
                &&& r matches Err(err)
                &&& err.kind == Kind::InternalError
                &&& err.cause matches Some(Cause::Message(said))
                &&& said@ == report
            },
        },
{
    match captures("(StatusCode):\\s+(\\d+)", err_message.as_str()) {
        Ok(found) => op_error_from_captures(found),
        Err(report) => Err(Error::new_internal_error().with(Cause::Message(report))),
    }
}

} // verus!
