use vstd::prelude::*;
use crate::client::{HttpExecutor, Method, called, reads_as};
use crate::json::Json;
use crate::session::{DefaultSession, session_prefix_of};
use crate::structs::{Capabilities, ClientError, NewSession, Status};

verus! {

/// The text in front of the error's own text in the status reported when the
/// status query fails.
pub const STATUS_FAILURE_PREFIX: &'static str = "[Client-side]Unexpected error from WebDriver ";

/// The text that describes an error: the message of a client-side failure, or
/// the kind of a protocol error.
pub open spec fn error_text(e: ClientError) -> Seq<char> {
    match e {
        ClientError::Malformed(m) => m@,
        ClientError::Mismatch(m) => m@,
        ClientError::Network(m) => m@,
        ClientError::Protocol(w) => w.error@,
    }
}

pub fn describe(e: &ClientError) -> (r: String)
    ensures
        r@ == error_text(*e),
{
    match e {
        ClientError::Malformed(m) => m.clone(),
        ClientError::Mismatch(m) => m.clone(),
        ClientError::Network(m) => m.clone(),
        ClientError::Protocol(w) => w.error.clone(),
    }
}

/// `s` is the status reported for the outcome `q` of a status query.
pub open spec fn status_of(q: Result<Status, ClientError>, s: Status) -> bool {
    match q {
        Ok(t) => s == t,
        Err(e) => !s.ready && s.message@ == STATUS_FAILURE_PREFIX@ + error_text(e),
    }
}

/// The status that a status query reports: the backend's answer, or, when the
/// query failed, a not-ready status whose message holds the error's text.
pub fn status_from(r: Result<Status, ClientError>) -> (s: Status)
    ensures
        status_of(r, s),
{
    match r {
        Ok(t) => t,
        Err(e) => {
            let mut message = STATUS_FAILURE_PREFIX.to_owned();
            let text = describe(&e);
            message.append(text.as_str());
            Status { ready: false, message }
        },
    }
}

/// The entry point: a transport to the backend's root, not yet in a session.
pub struct DefaultWebDriver<H: HttpExecutor> {
    http: Box<H>,
}

impl<H: HttpExecutor> DefaultWebDriver<H> {
    pub fn new(facade: Box<H>) -> (r: Self)
        ensures
            r.transport() == *facade,
    {
        DefaultWebDriver { http: facade }
    }

    pub closed spec fn transport(&self) -> H {
        *self.http
    }

    pub fn get_http_executor(self) -> (r: Box<H>)
        ensures
            *r == self.transport(),
    {
        self.http
    }

    /// Creates a session with the capabilities `caps`; the session's id is the
    /// reply's `sessionId`, and its scope wraps this driver's transport.
    pub fn create_session(self, caps: Capabilities) -> (r: Result<DefaultSession<H>, ClientError>)
        ensures
            exists|q: Result<NewSession, ClientError>|
                #[trigger] called(self.transport(), Method::Post, "session"@, Some(Json::Object(caps)), q)
                && match q {
                    Ok(n) => match r {
                        Ok(s) => s.id() == n.session_id@ && s.scope().prefix() == session_prefix_of(n.session_id@)
                            && s.scope().inner_view() == self.transport(),
                        Err(_) => false,
                    },
                    Err(e) => r == Err::<DefaultSession<H>, ClientError>(e),
                },
    {
        let body = Json::Object(caps);
        let ghost b = body;
        let q: Result<NewSession, ClientError> = self.http.post("session", body);
        proof {
            let h = *self.http;
            let a = choose|a: Result<Json, ClientError>|
                #[trigger] h.answers(Method::Post, h.target("session"@), Some(b), a) && reads_as(a, q);
            assert(called(h, Method::Post, "session"@, Some(b), q));
            assert(h == self.transport());
        }
        match q {
            Ok(created) => Ok(DefaultSession::new(self.http, created.session_id)),
            Err(e) => Err(e),
        }
    }

    /// Whether the backend is ready. A failed query is reported as a not-ready
    /// status whose message holds the error's text, never as an error.
    pub fn status(&self) -> (s: Status)
        ensures
            exists|q: Result<Status, ClientError>|
                #[trigger] called(self.transport(), Method::Get, "status"@, None, q) && status_of(q, s),
    {
        let q: Result<Status, ClientError> = self.http.get("status");
        proof {
            let h = *self.http;
            let a = choose|a: Result<Json, ClientError>|
                #[trigger] h.answers(Method::Get, h.target("status"@), None, a) && reads_as(a, q);
            assert(called(h, Method::Get, "status"@, None, q));
            assert(h == self.transport());
        }
        let ghost q0 = q;
        let s = status_from(q);
        assert(status_of(q0, s));
        s
    }
}

} // verus!
