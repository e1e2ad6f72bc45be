use vstd::prelude::*;
use crate::json::Json;

verus! {

/// The JSON key under which the protocol carries an element reference.
pub const WEB_ELEMENT_IDENTIFIER: &'static str = "element-6066-11e4-a52e-4f735466cecf";

/// A frame to switch to.
#[derive(Debug, PartialEq)]
pub enum Frame {
    /// The frame held by the element with this reference.
    Elem(String),
    /// The frame with this index in the current browsing context.
    Id(i32),
    /// The top-level browsing context.
    Top,
}

/// The element lookup mechanisms of the protocol.
#[derive(Debug, Clone, Copy, PartialEq, Eq)]
pub enum WebDriverLocator {
    ID,
    CSS,
    Xpath,
    LinkText,
    Tag,
    PartialLinkText,
}

/// A cookie as the protocol reads and writes it.
#[derive(Debug, PartialEq)]
pub struct Cookie {
    pub name: String,
    pub value: String,
    pub path: Option<String>,
    pub domain: Option<String>,
    pub secure: Option<bool>,
    pub http_only: Option<bool>,
}

pub type Cookies = Vec<Cookie>;

/// The session's timeouts, in milliseconds.
#[derive(Debug, Clone, Copy, PartialEq, Eq)]
pub struct Timeouts {
    pub script: i32,
    pub page_load: i32,
    pub implicit: i32,
}

/// A window's or an element's position and size.
#[derive(Debug, Clone, Copy, PartialEq, Eq)]
pub struct Rect {
    pub x: i32,
    pub y: i32,
    pub width: i32,
    pub height: i32,
}

/// A script to run in the page, with its arguments.
#[derive(Debug, PartialEq)]
pub struct ExecuteScript {
    pub script: String,
    pub args: Vec<Json>,
}

/// An error object reported by the backend.
#[derive(Debug, PartialEq)]
pub struct WebDriverError {
    pub error: String,
    pub message: String,
    pub stacktrace: String,
    /// The object under `data`, when there is one.
    pub data: Option<Json>,
}

impl WebDriverError {
    /// A line that names the error's kind and message.
    pub fn to_text(&self) -> (r: String)
        ensures
            r@ == "error: "@ + self.error@ + ", message: "@ + self.message@ + "\n"@,
    {
        let mut t = "error: ".to_owned();
        t.append(self.error.as_str());
        t.append(", message: ");
        t.append(self.message.as_str());
        t.append("\n");
        proof {
            reveal_strlit("error: ");
            reveal_strlit(", message: ");
            reveal_strlit("\n");
        }
        t
    }
}

/// Whether the backend can create sessions.
#[derive(Debug, PartialEq)]
pub struct Status {
    pub ready: bool,
    pub message: String,
}

/// What the backend answers to the creation of a session.
#[derive(Debug, PartialEq)]
pub struct NewSession {
    pub capabilities: Json,
    pub session_id: String,
}

/// The members of a capabilities object.
pub type Capabilities = Vec<(String, Json)>;

/// Why a call did not yield the value that was asked for.
#[derive(Debug, PartialEq)]
pub enum ClientError {
    /// The body was not JSON, or had no `value` member.
    Malformed(String),
    /// The `value` member was neither the expected shape nor an error object.
    Mismatch(String),
    /// The backend reported an error.
    Protocol(WebDriverError),
    /// The request did not reach the backend, or no answer came back.
    Network(String),
}

} // verus!
