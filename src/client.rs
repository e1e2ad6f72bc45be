use vstd::prelude::*;
use crate::decode::FromJson;
use crate::json::{Json, member, parse_json, parsed_json, parse_error_text, to_json_text, json_text};
use crate::structs::{ClientError, WebDriverError};

verus! {

/// The value of the `Accept` header of every request.
pub const ACCEPT_JSON: &'static str = "application/json;charset=UTF-8";

/// The message of a response body that has no `value` member.
pub const NO_VALUE_TEXT: &'static str = "the response has no `value` member";

/// The message of a `value` member that is neither the expected shape nor an
/// error object.
pub const MISMATCH_TEXT: &'static str = "the response value is neither the expected type nor an error";

/// The HTTP verbs that the protocol uses.
#[derive(Debug, Clone, Copy, PartialEq, Eq)]
pub enum Method {
    Get,
    Post,
    Delete,
}

/// A typed transport: each call sends one request to a path relative to the
/// transport's root and reads the answer as a `T`.
pub trait HttpExecutor: Clone {
    /// The path, from the backend's root, that a request for `path` goes to.
    /// A transport at the root sends each path unchanged.
    open spec fn target(&self, path: Seq<char>) -> Seq<char> {
        path
    }

    /// `reply` is a reply that the backend behind this transport may give to
    /// `method` on the root-relative `path` with `body`: the parsed response
    /// body, or the failure that left no body to parse. A transport that
    /// knows nothing of its backend admits every reply.
    open spec fn answers(
        &self,
        method: Method,
        path: Seq<char>,
        body: Option<Json>,
        reply: Result<Json, ClientError>,
    ) -> bool {
        true
    }

    fn route(&self, path: &str) -> (r: String)
        ensures
            r@ == self.target(path@),
    ;

    /// A second handle on the same backend.
    fn duplicate(&self) -> (r: Self)
        ensures
            forall|p: Seq<char>| #[trigger] r.target(p) == self.target(p),
            forall|m: Method, p: Seq<char>, b: Option<Json>, a: Result<Json, ClientError>|
                #[trigger] r.answers(m, p, b, a) == self.answers(m, p, b, a),
    ;

    fn get<T: FromJson>(&self, path: &str) -> (r: Result<T, ClientError>)
        ensures
            exists|a: Result<Json, ClientError>|
                #[trigger] self.answers(Method::Get, self.target(path@), None, a) && reads_as(a, r),
    ;

    fn post<T: FromJson>(&self, path: &str, body: Json) -> (r: Result<T, ClientError>)
        ensures
            exists|a: Result<Json, ClientError>|
                #[trigger] self.answers(Method::Post, self.target(path@), Some(body), a) && reads_as(a, r),
    ;

    fn delete<T: FromJson>(&self, path: &str) -> (r: Result<T, ClientError>)
        ensures
            exists|a: Result<Json, ClientError>|
                #[trigger] self.answers(Method::Delete, self.target(path@), None, a) && reads_as(a, r),
    ;
}

/// `x` and `y` send each path to the same place and get the same replies.
pub open spec fn same_transport<H: HttpExecutor>(x: H, y: H) -> bool {
    &&& forall|p: Seq<char>| #[trigger] x.target(p) == y.target(p)
    &&& forall|m: Method, p: Seq<char>, b: Option<Json>, a: Result<Json, ClientError>|
        #[trigger] x.answers(m, p, b, a) == y.answers(m, p, b, a)
}

/// What a reply yields when a `T` was asked for: a parsed body is classified,
/// a failure is handed back unchanged.
pub open spec fn reads_as<T: FromJson>(reply: Result<Json, ClientError>, r: Result<T, ClientError>) -> bool {
    match reply {
        Ok(doc) => classified(doc, r),
        Err(e) => r == Err::<T, ClientError>(e),
    }
}

/// `r` is what one call of `method` on `h`'s relative `path` with `body`
/// yields: it is read from a reply that the backend may give to that request
/// at `h.target(path)`.
pub open spec fn called<H: HttpExecutor, T: FromJson>(
    h: H,
    method: Method,
    path: Seq<char>,
    body: Option<Json>,
    r: Result<T, ClientError>,
) -> bool {
    exists|a: Result<Json, ClientError>| #[trigger] h.answers(method, h.target(path), body, a) && reads_as(a, r)
}

/// Transports that route and answer alike yield the same results.
pub proof fn lemma_same_transport_call<H: HttpExecutor, T: FromJson>(
    x: H,
    y: H,
    method: Method,
    path: Seq<char>,
    body: Option<Json>,
    r: Result<T, ClientError>,
)
    requires
        same_transport(x, y),
    ensures
        called(x, method, path, body, r) == called(y, method, path, body, r),
{
    assert(x.target(path) == y.target(path));
    if called(x, method, path, body, r) {
        let a = choose|a: Result<Json, ClientError>| #[trigger] x.answers(method, x.target(path), body, a) && reads_as(a, r);
        assert(y.answers(method, y.target(path), body, a));
    }
    if called(y, method, path, body, r) {
        let a = choose|a: Result<Json, ClientError>| #[trigger] y.answers(method, y.target(path), body, a) && reads_as(a, r);
        assert(x.answers(method, x.target(path), body, a));
    }
}

/// What a response whose parsed body is `doc` yields when a `T` was asked for:
/// the `T` that its `value` member reads as; else the error object that it
/// holds; else a mismatch. A body without `value` is malformed.
pub open spec fn classified<T: FromJson>(doc: Json, r: Result<T, ClientError>) -> bool {
    match member(doc, "value"@) {
        None => match r {
            Err(ClientError::Malformed(m)) => m@ == NO_VALUE_TEXT@,
            _ => false,
        },
        Some(v) => if T::decodable(v) {
            match r {
                Ok(t) => T::decodes_to(v, t),
                Err(_) => false,
            }
        } else if WebDriverError::decodable(v) {
            match r {
                Err(ClientError::Protocol(e)) => WebDriverError::decodes_to(v, e),
                _ => false,
            }
        } else {
            match r {
                Err(ClientError::Mismatch(m)) => m@ == MISMATCH_TEXT@,
                _ => false,
            }
        },
    }
}

/// A response without a `value` member is malformed: it is never read as a
/// protocol error, whatever else it holds.
pub proof fn lemma_no_value_is_malformed<T: FromJson>(doc: Json, r: Result<T, ClientError>)
    requires
        member(doc, "value"@) is None,
        classified(doc, r),
    ensures
        r matches Err(ClientError::Malformed(_)),
        !(r matches Err(ClientError::Protocol(_))),
{
}

/// Classifies a parsed response body (see `classified`).
pub fn classify<T: FromJson>(doc: Json) -> (r: Result<T, ClientError>)
    ensures
        classified(doc, r),
{
    match doc.take("value") {
        None => Err(ClientError::Malformed(NO_VALUE_TEXT.to_owned())),
        Some(v) => match T::from_json(v) {
            Ok(t) => Ok(t),
            Err(v) => match WebDriverError::from_json(v) {
                Ok(e) => Err(ClientError::Protocol(e)),
                Err(_) => Err(ClientError::Mismatch(MISMATCH_TEXT.to_owned())),
            },
        },
    }
}

/// A request as it goes on the wire.
#[derive(Debug, PartialEq)]
pub struct HttpRequest {
    pub method: Method,
    pub url: String,
    pub accept: String,
    /// The JSON text of the body, for a `Post`.
    pub body: Option<String>,
}

/// The client side of the protocol over HTTP: it frames each request for a
/// base URL and classifies the bodies that come back. Sending the bytes is left
/// to whoever holds the connection.
#[derive(Debug, Clone, PartialEq)]
pub struct HttpClient {
    base_url: String,
}

impl HttpClient {
    pub fn new(base_url: String) -> (r: Self)
        ensures
            r.base_url() == base_url@,
    {
        HttpClient { base_url }
    }

    pub closed spec fn base_url(&self) -> Seq<char> {
        self.base_url@
    }

    /// The URL that a request for `path` is sent to.
    pub fn url(&self, path: &str) -> (r: String)
        ensures
            r@ == self.base_url() + seq!['/'] + path@,
    {
        let mut u = self.base_url.clone();
        u.append("/");
        u.append(path);
        proof {
            reveal_strlit("/");
        }
        assert(u@ =~= self.base_url@ + seq!['/'] + path@);
        u
    }

    /// The request for `method` on `path`, with `body` written as JSON text.
    pub fn request(&self, method: Method, path: &str, body: Option<&Json>) -> (r: HttpRequest)
        ensures
            r.method == method,
            r.url@ == self.base_url() + seq!['/'] + path@,
            r.accept@ == ACCEPT_JSON@,
            r.body is Some <==> body is Some,
            r.body matches Some(t) ==> t@ == json_text(*body->0),
    {
        let text = match body {
            Some(b) => Some(to_json_text(b)),
            None => None,
        };
        HttpRequest { method, url: self.url(path), accept: ACCEPT_JSON.to_owned(), body: text }
    }

    /// Reads a response body: JSON text whose `value` member holds a `T` or an
    /// error object.
    pub fn extract<T: FromJson>(&self, body: &str) -> (r: Result<T, ClientError>)
        ensures
            match parsed_json(body@) {
                None => match r {
                    Err(ClientError::Malformed(m)) => m@ == parse_error_text(body@),
                    _ => false,
                },
                Some(doc) => classified(doc, r),
            },
    {
        match parse_json(body) {
            Err(m) => Err(ClientError::Malformed(m)),
            Ok(doc) => classify(doc),
        }
    }
}

} // verus!
