use vstd::prelude::*;
use crate::json::{Json, member, is_str};
use crate::structs::{Cookie, ExecuteScript, Frame, Rect, Timeouts, WebDriverLocator, WEB_ELEMENT_IDENTIFIER};

verus! {

/// `j` is an object whose members are `keys` with `vals`, in that order.
pub open spec fn has_members(j: Json, keys: Seq<Seq<char>>, vals: Seq<Json>) -> bool {
    match j {
        Json::Object(f) => {
            &&& f@.len() == keys.len()
            &&& vals.len() == keys.len()
            &&& forall|i: int| 0 <= i < keys.len() ==> (#[trigger] f@[i]).0@ == keys[i] && f@[i].1 == vals[i]
        },
        _ => false,
    }
}

/// The JSON form of an optional string: the string, or null.
pub open spec fn opt_str_json(o: Option<String>) -> Json {
    match o {
        Some(s) => Json::Str(s),
        None => Json::Null,
    }
}

/// The JSON form of an optional boolean: the boolean, or null.
pub open spec fn opt_bool_json(o: Option<bool>) -> Json {
    match o {
        Some(b) => Json::Bool(b),
        None => Json::Null,
    }
}

/// The body of a frame switch: `{"id": X}` with `X` the element reference
/// object `{"<key>": e}`, the bare index, or null for the top-level context.
pub open spec fn is_frame_object(r: Json, frame: Frame) -> bool {
    match frame {
        Frame::Elem(e) => member(r, "id"@) matches Some(x) && has_members(r, seq!["id"@], seq![x])
            && has_members(x, seq![WEB_ELEMENT_IDENTIFIER@], seq![Json::Str(e)]),
        Frame::Id(n) => has_members(r, seq!["id"@], seq![Json::Int(n as i64)]),
        Frame::Top => has_members(r, seq!["id"@], seq![Json::Null]),
    }
}

/// The body of an element lookup: `{"using": <literal>, "value": <value>}`.
pub open spec fn is_locator_object(r: Json, using: Seq<char>, value: Seq<char>) -> bool {
    match r {
        Json::Object(f) => f@.len() == 2 && f@[0].0@ == "using"@ && is_str(f@[0].1, using)
            && f@[1].0@ == "value"@ && is_str(f@[1].1, value),
        _ => false,
    }
}

/// An object with the one string member `key` whose text is `text`.
pub open spec fn is_text_object(r: Json, key: Seq<char>, text: Seq<char>) -> bool {
    match r {
        Json::Object(f) => f@.len() == 1 && f@[0].0@ == key && is_str(f@[0].1, text),
        _ => false,
    }
}

/// An object with no members.
pub open spec fn is_empty_object(r: Json) -> bool {
    has_members(r, seq![], seq![])
}

pub open spec fn is_timeouts_object(r: Json, t: Timeouts) -> bool {
    has_members(
        r,
        seq!["script"@, "pageLoad"@, "implicit"@],
        seq![Json::Int(t.script as i64), Json::Int(t.page_load as i64), Json::Int(t.implicit as i64)],
    )
}

pub open spec fn is_rect_object(j: Json, r: Rect) -> bool {
    has_members(
        j,
        seq!["x"@, "y"@, "width"@, "height"@],
        seq![Json::Int(r.x as i64), Json::Int(r.y as i64), Json::Int(r.width as i64), Json::Int(r.height as i64)],
    )
}

/// An array that holds the object of each cookie, in order.
pub open spec fn is_cookies_array(r: Json, cookies: Seq<Cookie>) -> bool {
    match r {
        Json::Array(a) => a@.len() == cookies.len() && forall|i: int|
            0 <= i < a@.len() ==> is_cookie_json(#[trigger] a@[i], cookies[i]),
        _ => false,
    }
}

/// The body of a script call: `{"script": <script>, "args": [<args>]}`.
pub open spec fn is_script_object(r: Json, s: ExecuteScript) -> bool {
    match r {
        Json::Object(f) => f@.len() == 2 && f@[0].0@ == "script"@ && f@[0].1 == Json::Str(s.script)
            && f@[1].0@ == "args"@ && f@[1].1 == Json::Array(s.args),
        _ => false,
    }
}

/// A lookup mechanism for elements, named by the literal that the protocol
/// expects under `using`.
pub trait LocatorStrategy {
    spec fn using(&self) -> Seq<char>;

    fn get_using_str(&self) -> (r: &str)
        ensures
            r@ == self.using(),
    ;
}

impl LocatorStrategy for WebDriverLocator {
    open spec fn using(&self) -> Seq<char> {
        match self {
            WebDriverLocator::ID => "id"@,
            WebDriverLocator::CSS => "css selector"@,
            WebDriverLocator::Xpath => "xpath"@,
            WebDriverLocator::Tag => "tag name"@,
            WebDriverLocator::LinkText => "link text"@,
            WebDriverLocator::PartialLinkText => "partial link text"@,
        }
    }

    fn get_using_str(&self) -> (r: &str) {
        match self {
            WebDriverLocator::ID => "id",
            WebDriverLocator::CSS => "css selector",
            WebDriverLocator::Xpath => "xpath",
            WebDriverLocator::Tag => "tag name",
            WebDriverLocator::LinkText => "link text",
            WebDriverLocator::PartialLinkText => "partial link text",
        }
    }
}

fn entry(key: &str, value: Json) -> (r: (String, Json))
    ensures
        r.0@ == key@,
        r.1 == value,
{
    (key.to_owned(), value)
}

/// An object with the one member `key`.
pub fn single(key: &str, value: Json) -> (r: Json)
    ensures
        has_members(r, seq![key@], seq![value]),
        member(r, key@) == Some(value),
{
    let mut f: Vec<(String, Json)> = Vec::new();
    f.push(entry(key, value));
    let r = Json::Object(f);
    assert(f@.drop_first().len() == 0);
    r
}

/// An object with two members.
pub fn pair(k1: &str, v1: Json, k2: &str, v2: Json) -> (r: Json)
    ensures
        has_members(r, seq![k1@, k2@], seq![v1, v2]),
{
    let mut f: Vec<(String, Json)> = Vec::new();
    f.push(entry(k1, v1));
    f.push(entry(k2, v2));
    Json::Object(f)
}

/// The body of a frame switch: `{"id": X}` with `X` the element reference
/// object, the index, or null for the top-level context.
pub fn frame_body(frame: Frame) -> (r: Json)
    ensures
        is_frame_object(r, frame),
{
    let id = match frame {
        Frame::Elem(e) => single(WEB_ELEMENT_IDENTIFIER, Json::Str(e)),
        Frame::Id(n) => Json::Int(n as i64),
        Frame::Top => Json::Null,
    };
    single("id", id)
}

/// The body of an element lookup.
pub fn locator_body<L: LocatorStrategy>(using: &L, value: &str) -> (r: Json)
    ensures
        is_locator_object(r, using.using(), value@),
{
    pair("using", Json::Str(using.get_using_str().to_owned()), "value", Json::Str(value.to_owned()))
}

/// An object with the one string member `key`.
pub fn text_body(key: &str, text: &str) -> (r: Json)
    ensures
        is_text_object(r, key@, text@),
{
    single(key, Json::Str(text.to_owned()))
}

/// An empty object.
pub fn empty_body() -> (r: Json)
    ensures
        is_empty_object(r),
{
    Json::Object(Vec::new())
}

pub fn timeouts_json(t: &Timeouts) -> (r: Json)
    ensures
        is_timeouts_object(r, *t),
{
    let mut f: Vec<(String, Json)> = Vec::new();
    f.push(entry("script", Json::Int(t.script as i64)));
    f.push(entry("pageLoad", Json::Int(t.page_load as i64)));
    f.push(entry("implicit", Json::Int(t.implicit as i64)));
    Json::Object(f)
}

pub fn rect_json(r: &Rect) -> (j: Json)
    ensures
        is_rect_object(j, *r),
{
    let mut f: Vec<(String, Json)> = Vec::new();
    f.push(entry("x", Json::Int(r.x as i64)));
    f.push(entry("y", Json::Int(r.y as i64)));
    f.push(entry("width", Json::Int(r.width as i64)));
    f.push(entry("height", Json::Int(r.height as i64)));
    Json::Object(f)
}

fn opt_str(o: Option<String>) -> (r: Json)
    ensures
        r == opt_str_json(o),
{
    match o {
        Some(s) => Json::Str(s),
        None => Json::Null,
    }
}

fn opt_bool(o: Option<bool>) -> (r: Json)
    ensures
        r == opt_bool_json(o),
{
    match o {
        Some(b) => Json::Bool(b),
        None => Json::Null,
    }
}

/// `j` is the object that the protocol expects for the cookie `c`.
pub open spec fn is_cookie_json(j: Json, c: Cookie) -> bool {
    has_members(
        j,
        seq!["name"@, "value"@, "path"@, "domain"@, "secure"@, "httpOnly"@],
        seq![
            Json::Str(c.name),
            Json::Str(c.value),
            opt_str_json(c.path),
            opt_str_json(c.domain),
            opt_bool_json(c.secure),
            opt_bool_json(c.http_only),
        ],
    )
}

pub fn cookie_json(c: Cookie) -> (r: Json)
    ensures
        is_cookie_json(r, c),
{
    let mut f: Vec<(String, Json)> = Vec::new();
    f.push(entry("name", Json::Str(c.name)));
    f.push(entry("value", Json::Str(c.value)));
    f.push(entry("path", opt_str(c.path)));
    f.push(entry("domain", opt_str(c.domain)));
    f.push(entry("secure", opt_bool(c.secure)));
    f.push(entry("httpOnly", opt_bool(c.http_only)));
    Json::Object(f)
}

/// The cookies as an array of cookie objects, in order.
pub fn cookies_json(cookies: Vec<Cookie>) -> (r: Json)
    ensures
        is_cookies_array(r, cookies@),
{
    let ghost all = cookies@;
    let mut rest = cookies;
    let mut out: Vec<Json> = Vec::new();
    while rest.len() > 0
        invariant
            out@.len() + rest@.len() == all.len(),
            rest@ == all.subrange(out@.len() as int, all.len() as int),
            forall|i: int| 0 <= i < out@.len() ==> is_cookie_json(#[trigger] out@[i], all[i]),
        decreases rest@.len(),
    {
        let ghost n: int = out@.len() as int;
        let c = rest.remove(0);
        assert(c == all[n]);
        assert(rest@ =~= all.subrange(n + 1, all.len() as int));
        out.push(cookie_json(c));
    }
    Json::Array(out)
}

pub fn script_json(s: ExecuteScript) -> (r: Json)
    ensures
        is_script_object(r, s),
{
    pair("script", Json::Str(s.script), "args", Json::Array(s.args))
}

} // verus!
