//! The client configuration and what it makes of a logical call: the method,
//! the address with its query string, and the headers of the request to send.

use crate::error::{CustomError, Error, Kind};
use crate::text::{chars_of, same_text};
use crate::trusted::{header_byte_ok, header_bytes_ok, header_value_error, string_of};
use hyper::header::InvalidHeaderValue;
use vstd::prelude::*;
use vstd::string::*;
use vstd::utf8::encode_utf8;

verus! {

broadcast use vstd::string::group_string_axioms;

/// The methods that a call can be made with.
#[derive(Clone, Copy, Debug, PartialEq, Eq, Structural)]
pub enum Method {
    /// GET
    Get,
    /// POST
    Post,
    /// PUT
    Put,
    /// DELETE
    Delete,
}

/// GET method
pub const GET: Method = Method::Get;

/// POST method
pub const POST: Method = Method::Post;

/// PUT method
pub const PUT: Method = Method::Put;

/// DELETE method
pub const DELETE: Method = Method::Delete;

impl Method {
    /// The method that a name stands for. A name that is none of `GET`,
    /// `POST`, `PUT` and `DELETE`, in capitals, stands for GET.
    pub open spec fn named(name: Seq<char>) -> Method {
        if name == "GET"@ {
            Method::Get
        } else if name == "POST"@ {
            Method::Post
        } else if name == "PUT"@ {
            Method::Put
        } else if name == "DELETE"@ {
            Method::Delete
        } else {
            Method::Get
        }
    }

    /// The name of the method, in capitals.
    pub open spec fn name(self) -> Seq<char> {
        match self {
            Method::Get => "GET"@,
            Method::Post => "POST"@,
            Method::Put => "PUT"@,
            Method::Delete => "DELETE"@,
        }
    }

    /// Reads a method from its name.
    pub fn parse(name: &str) -> (m: Method)
        ensures
            m == Method::named(name@),
    {
        if same_text(name, "GET") {
            Method::Get
        } else if same_text(name, "POST") {
            Method::Post
        } else if same_text(name, "PUT") {
            Method::Put
        } else if same_text(name, "DELETE") {
            Method::Delete
        } else {
            Method::Get
        }
    }

    /// The name of the method, in capitals.
    pub fn as_str(&self) -> (s: &'static str)
        ensures
            s@ == self.name(),
    {
        match self {
            Method::Get => "GET",
            Method::Post => "POST",
            Method::Put => "PUT",
            Method::Delete => "DELETE",
        }
    }
}

/// A text with every `+` replaced by `%2B`, and nothing else changed.
pub open spec fn escape_plus(s: Seq<char>) -> Seq<char>
    decreases s.len(),
{
    if s.len() == 0 {
        Seq::empty()
    } else if s.last() == '+' {
        escape_plus(s.drop_last()) + "%2B"@
    } else {
        escape_plus(s.drop_last()).push(s.last())
    }
}

/// The pairs written one after the other, each as its key, `=`, its value
/// and `&`.
pub open spec fn joined_pairs(params: Seq<(Seq<char>, Seq<char>)>) -> Seq<char>
    decreases params.len(),
{
    if params.len() == 0 {
        Seq::empty()
    } else {
        joined_pairs(params.drop_last()) + params.last().0 + "="@ + params.last().1 + "&"@
    }
}

/// The query string of a list of parameters: the pairs in the order given,
/// each closed by `&`, the last one too, and every `+` escaped.
pub open spec fn query_text(params: Seq<(Seq<char>, Seq<char>)>) -> Seq<char> {
    escape_plus(joined_pairs(params))
}

/// Escaping goes through a text piece by piece.
pub proof fn lemma_escape_plus_concat(a: Seq<char>, b: Seq<char>)
    ensures
        escape_plus(a + b) == escape_plus(a) + escape_plus(b),
    decreases b.len(),
{
    if b.len() == 0 {
        assert(a + b =~= a);
        assert(escape_plus(a) + escape_plus(b) =~= escape_plus(a));
    } else {
        assert((a + b).drop_last() =~= a + b.drop_last());
        assert((a + b).last() == b.last());
        lemma_escape_plus_concat(a, b.drop_last());
        if b.last() == '+' {
            assert(escape_plus(a + b) =~= escape_plus(a) + (escape_plus(b.drop_last()) + "%2B"@));
        } else {
            assert(escape_plus(a + b) =~= escape_plus(a) + escape_plus(b.drop_last()).push(
                b.last(),
            ));
        }
    }
}

/// A text without a `+` is its own escaped form: nothing but `+` is escaped.
pub proof fn lemma_escape_plus_keeps(s: Seq<char>)
    requires
        forall|i: int| 0 <= i < s.len() ==> s[i] != '+',
    ensures
        escape_plus(s) == s,
    decreases s.len(),
{
    if s.len() > 0 {
        lemma_escape_plus_keeps(s.drop_last());
        assert(s.drop_last().push(s.last()) =~= s);
    }
}

/// An escaped text holds no `+`.
pub proof fn lemma_escape_plus_clears(s: Seq<char>)
    ensures
        forall|i: int| 0 <= i < escape_plus(s).len() ==> escape_plus(s)[i] != '+',
    decreases s.len(),
{
    reveal_strlit("%2B");
    if s.len() > 0 {
        lemma_escape_plus_clears(s.drop_last());
        let head = escape_plus(s.drop_last());
        assert forall|i: int| 0 <= i < escape_plus(s).len() implies escape_plus(s)[i] != '+' by {
            if i < head.len() {
                assert(escape_plus(s)[i] == head[i]);
            } else if s.last() == '+' {
                assert(escape_plus(s)[i] == "%2B"@[i - head.len()]);
            } else {
                assert(escape_plus(s)[i] == s.last());
            }
        }
    }
}

/// The query string of one pair and of a list of pairs: the escaped key,
/// `=`, the escaped value and `&`, pair after pair. So a `+` in a value reads
/// `%2B`, and a list that is not empty ends in `&`.
pub proof fn lemma_query_text_step(params: Seq<(Seq<char>, Seq<char>)>)
    requires
        params.len() > 0,
    ensures
        query_text(params) == query_text(params.drop_last()) + escape_plus(params.last().0) + "="@
            + escape_plus(params.last().1) + "&"@,
        query_text(params).last() == '&',
{
    reveal_strlit("=");
    reveal_strlit("&");
    let head = joined_pairs(params.drop_last());
    let key = params.last().0;
    let value = params.last().1;
    lemma_escape_plus_concat(head + key + "="@ + value, "&"@);
    lemma_escape_plus_concat(head + key + "="@, value);
    lemma_escape_plus_concat(head + key, "="@);
    lemma_escape_plus_concat(head, key);
    lemma_escape_plus_keeps("="@);
    lemma_escape_plus_keeps("&"@);
}

fn push_escaped(out: &mut Vec<char>, s: &str)
    ensures
        final(out)@ == old(out)@ + escape_plus(s@),
{
    let v = chars_of(s);
    let ghost start = out@;
    let mut i: usize = 0;
    while i < v.len()
        invariant
            i <= v.len(),
            out@ == start + escape_plus(v@.take(i as int)),
        decreases v.len() - i,
    {
        proof {
            reveal_strlit("%2B");
            assert(v@.take(i + 1).drop_last() =~= v@.take(i as int));
        }
        if v[i] == '+' {
            out.push('%');
            out.push('2');
            out.push('B');
            assert(out@ =~= start + (escape_plus(v@.take(i as int)) + "%2B"@));
        } else {
            out.push(v[i]);
            assert(out@ =~= start + escape_plus(v@.take(i as int)).push(v@[i as int]));
        }
        i += 1;
    }
    assert(v@.take(v.len() as int) =~= v@);
}

/// Encodes the parameters of a call as a query string.
pub fn url_encode(params: &[(&str, &str)]) -> (s: String)
    ensures
        s@ == query_text(params.deep_view()),
{
    let mut out: Vec<char> = Vec::new();
    let mut i: usize = 0;
    while i < params.len()
        invariant
            i <= params.len(),
            out@ == query_text(params.deep_view().take(i as int)),
        decreases params.len() - i,
    {
        let ghost done = params.deep_view().take(i as int);
        let ghost next = params.deep_view().take(i + 1);
        proof {
            assert(next.drop_last() =~= done);
            assert(next.last() == (params[i as int].0@, params[i as int].1@));
            lemma_query_text_step(next);
            reveal_strlit("=");
            reveal_strlit("&");
        }
        push_escaped(&mut out, params[i].0);
        out.push('=');
        push_escaped(&mut out, params[i].1);
        out.push('&');
        assert(out@ =~= query_text(done) + escape_plus(next.last().0) + "="@ + escape_plus(
            next.last().1,
        ) + "&"@);
        i += 1;
    }
    assert(params.deep_view().take(params.len() as int) =~= params.deep_view());
    string_of(&out)
}

/// Whether a character may stand in a header value: anything from the blank
/// on except DEL, and the horizontal tab.
pub open spec fn header_char_ok(c: char) -> bool {
    (c >= ' ' && c != '\u{7f}') || c == '\t'
}

/// Whether a text may stand as a header value.
pub open spec fn header_text_ok(text: Seq<char>) -> bool {
    forall|i: int| 0 <= i < text.len() ==> header_char_ok(#[trigger] text[i])
}

proof fn lemma_header_scalar(c: char)
    ensures
        header_bytes_ok(vstd::utf8::encode_scalar(c as u32)) <==> header_char_ok(c),
{
    let v = c as u32;
    vstd::utf8::char_is_scalar(c);
    let bytes = vstd::utf8::encode_scalar(v);
    if v <= 0x7F {
        assert((v & 0x7F) as u8 == v) by (bit_vector)
            requires
                v <= 0x7F,
        ;
        assert(bytes[0] == v);
        if header_bytes_ok(bytes) {
            assert(header_byte_ok(bytes[0]));
        }
    } else {
        assert(forall|x: u8| #![auto] (0xC0u8 | x) >= 0x80 && (0xC0u8 | x) != 127) by (bit_vector);
        assert(forall|x: u8| #![auto] (0xE0u8 | x) >= 0x80 && (0xE0u8 | x) != 127) by (bit_vector);
        assert(forall|x: u8| #![auto] (0xF0u8 | x) >= 0x80 && (0xF0u8 | x) != 127) by (bit_vector);
        assert(forall|x: u8| #![auto] (0x80u8 | x) >= 0x80 && (0x80u8 | x) != 127) by (bit_vector);
        assert(header_bytes_ok(bytes));
    }
}

proof fn lemma_header_bytes_concat(a: Seq<u8>, b: Seq<u8>)
    ensures
        header_bytes_ok(a + b) <==> header_bytes_ok(a) && header_bytes_ok(b),
{
    if header_bytes_ok(a + b) {
        assert forall|i: int| 0 <= i < a.len() implies header_byte_ok(#[trigger] a[i]) by {
            assert((a + b)[i] == a[i]);
        }
        assert forall|i: int| 0 <= i < b.len() implies header_byte_ok(#[trigger] b[i]) by {
            assert((a + b)[a.len() + i] == b[i]);
        }
    }
}

/// The `http` crate judges a header value byte by byte, on its UTF-8
/// encoding. Read character by character, it accepts a text exactly when
/// every character is one that [`header_char_ok`] accepts.
pub proof fn lemma_header_text(text: Seq<char>)
    ensures
        header_bytes_ok(encode_utf8(text)) <==> header_text_ok(text),
    decreases text.len(),
{
    if text.len() > 0 {
        let rest = text.drop_first();
        lemma_header_text(rest);
        lemma_header_scalar(text[0]);
        lemma_header_bytes_concat(vstd::utf8::encode_scalar(text[0] as u32), encode_utf8(rest));
        if header_text_ok(text) {
            assert forall|i: int| 0 <= i < rest.len() implies header_char_ok(#[trigger] rest[i]) by {
                assert(rest[i] == text[i + 1]);
            }
        }
        if header_text_ok(rest) && header_char_ok(text[0]) {
            assert forall|i: int| 0 <= i < text.len() implies header_char_ok(#[trigger] text[i]) by {
                if i > 0 {
                    assert(text[i] == rest[i - 1]);
                }
            }
        }
    }
}

/// The address of a call: the server's address, a slash, the path, a
/// question mark, and the query string of the parameters.
pub open spec fn url_text(
    server_url: Seq<char>,
    endpoint: Seq<char>,
    params: Seq<(Seq<char>, Seq<char>)>,
) -> Seq<char> {
    server_url + "/"@ + endpoint + "?"@ + query_text(params)
}

/// The value of the `Authorization` header for a token.
pub open spec fn bearer_text(token: Seq<char>) -> Seq<char> {
    "Bearer "@ + token
}

/// The headers that every request carries, in the order in which they are
/// set.
pub open spec fn header_list(token: Seq<char>) -> Seq<(Seq<char>, Seq<char>)> {
    seq![("Accept"@, "application/json"@), ("Authorization"@, bearer_text(token))]
}

/// Builds the address of a call.
pub fn build_url(server_url: &str, endpoint: &str, params: &[(&str, &str)]) -> (url: String)
    ensures
        url@ == url_text(server_url@, endpoint@, params.deep_view()),
{
    let mut url = String::from_str(server_url);
    url.append("/");
    url.append(endpoint);
    url.append("?");
    url.append(url_encode(params).as_str());
    url
}

/// One request, ready to be sent: every attempt of a call sends the same.
#[derive(Debug)]
pub struct Request {
    /// The method.
    pub method: Method,
    /// The full address, query string included.
    pub url: String,
    /// The headers, each as its name and its value, in the order in which
    /// they are to be set.
    pub headers: Vec<(String, String)>,
    /// The body, if the call has one.
    pub body: Option<String>,
}

/// What a server sent back: the status code and the bytes of the body.
#[derive(Debug)]
pub struct RawResponse {
    /// The status code.
    pub status: u16,
    /// The body.
    pub body: Vec<u8>,
}

/// The configuration of a client: the API token and the address of the
/// server. Neither is ever empty.
#[derive(Debug)]
pub struct Client {
    api_key: String,
    server_url: String,
}

/// What a client is made of.
pub ghost struct ClientView {
    /// The API token.
    pub api_key: Seq<char>,
    /// The address of the server.
    pub server_url: Seq<char>,
}

impl View for Client {
    type V = ClientView;

    closed spec fn view(&self) -> ClientView {
        ClientView { api_key: self.api_key@, server_url: self.server_url@ }
    }
}

impl Client {
    #[verifier::type_invariant]
    spec fn inv(self) -> bool {
        self.api_key@.len() > 0 && self.server_url@.len() > 0
    }

    /// Creates a new instance.
    ///
    /// - `token`: the API token.
    /// - `server_url`: the full address of the server, such as
    ///   `http://localhost:8080`.
    pub fn new(token: &str, server_url: &str) -> (client: Client)
        requires
            token@.len() > 0,
            server_url@.len() > 0,
        ensures
            client@ == (ClientView { api_key: token@, server_url: server_url@ }),
    {
        Client { api_key: String::from_str(token), server_url: String::from_str(server_url) }
    }

    /// Returns the API token.
    pub fn token(&self) -> (token: String)
        ensures
            token@ == self@.api_key,
            token@.len() > 0,
    {
        proof {
            use_type_invariant(self);
        }
        self.api_key.clone()
    }

    /// Returns the address of the server.
    pub fn server_url(&self) -> (url: String)
        ensures
            url@ == self@.server_url,
            url@.len() > 0,
    {
        proof {
            use_type_invariant(self);
        }
        self.server_url.clone()
    }

    /// Makes the request of a call: the method that `method` names, the
    /// address of `endpoint` on this client's server with `params` as its
    /// query string, the `Accept` and `Authorization` headers, and the body.
    /// Fails with `InvalidHeaderValue`, and only so, where the token cannot
    /// stand in a header.
    pub fn prepare(
        &self,
        method: &str,
        endpoint: &str,
        params: &[(&str, &str)],
        body: Option<String>,
    ) -> (r: Result<Request, Error>)
        ensures
            match r {
                Ok(request) => {
                    &&& header_text_ok(bearer_text(self@.api_key))
                    &&& request.method == Method::named(method@)
                    &&& request.url@ == url_text(self@.server_url, endpoint@, params.deep_view())
                    &&& request.headers.deep_view() == header_list(self@.api_key)
                    &&& request.body == body
                },
                Err(err) => {
                    &&& !header_text_ok(bearer_text(self@.api_key))
                    &&& err == (Error { kind: Kind::InvalidHeaderValue, cause: None })
                },
            },
    {
        let method = Method::parse(method);
        let url = build_url(self.server_url.as_str(), endpoint, params);
        let mut auth = String::from_str("Bearer ");
        auth.append(self.api_key.as_str());
        proof {
            lemma_header_text("application/json"@);
            lemma_header_text(auth@);
            reveal_strlit("application/json");
        }
        match header_value_error("application/json") {
            Some(err) => {
                return Err(Error::from(err));
            },
            None => {},
        }
        match header_value_error(auth.as_str()) {
            Some(err) => {
                return Err(Error::from(err));
            },
            None => {},
        }
        let mut headers: Vec<(String, String)> = Vec::new();
        headers.push((String::from_str("Accept"), String::from_str("application/json")));
        headers.push((String::from_str("Authorization"), auth));
        assert(headers.deep_view() =~= header_list(self@.api_key));
        Ok(Request { method, url, headers, body })
    }
}

impl From<InvalidHeaderValue> for Error {
    fn from(err: InvalidHeaderValue) -> (e: Error) {
        Error::new(Kind::InvalidHeaderValue)
    }
}

impl vstd::std_specs::convert::FromSpecImpl<InvalidHeaderValue> for Error {
    open spec fn obeys_from_spec() -> bool {
        true
    }

    open spec fn from_spec(err: InvalidHeaderValue) -> Error {
        Error { kind: Kind::InvalidHeaderValue, cause: None }
    }
}

impl From<InvalidHeaderValue> for CustomError {
    fn from(err: InvalidHeaderValue) -> (e: CustomError)
        ensures
            e.message@ == "InvalidHeaderValue"@,
    {
        CustomError::new("InvalidHeaderValue")
    }
}

impl vstd::std_specs::convert::FromSpecImpl<InvalidHeaderValue> for CustomError {
    open spec fn obeys_from_spec() -> bool {
        false
    }

    open spec fn from_spec(err: InvalidHeaderValue) -> CustomError {
        choose|e: CustomError| e.message@ == "InvalidHeaderValue"@
    }
}

} // verus!
