use vstd::prelude::*;
use crate::json::{Json, member, is_str};
use crate::structs::{Cookie, NewSession, Rect, Status, Timeouts, WebDriverError};

verus! {

/// The text of the string member `key` of `j`.
pub open spec fn str_at(j: Json, key: Seq<char>) -> Option<Seq<char>> {
    match member(j, key) {
        Some(Json::Str(s)) => Some(s@),
        _ => None,
    }
}

/// The boolean member `key` of `j`.
pub open spec fn bool_at(j: Json, key: Seq<char>) -> Option<bool> {
    match member(j, key) {
        Some(Json::Bool(b)) => Some(b),
        _ => None,
    }
}

/// The integer member `key` of `j`, when it fits an `i32`.
pub open spec fn i32_at(j: Json, key: Seq<char>) -> Option<i32> {
    match member(j, key) {
        Some(Json::Int(i)) => if i32::MIN <= i <= i32::MAX {
            Some(i as i32)
        } else {
            None
        },
        _ => None,
    }
}

/// An optional string member: absent or null reads as `Some(None)`, a member
/// of another kind as `None`.
pub open spec fn opt_str_at(j: Json, key: Seq<char>) -> Option<Option<Seq<char>>> {
    match member(j, key) {
        None => Some(None),
        Some(Json::Null) => Some(None),
        Some(Json::Str(s)) => Some(Some(s@)),
        _ => None,
    }
}

/// An optional boolean member, read as `opt_str_at` reads strings.
pub open spec fn opt_bool_at(j: Json, key: Seq<char>) -> Option<Option<bool>> {
    match member(j, key) {
        None => Some(None),
        Some(Json::Null) => Some(None),
        Some(Json::Bool(b)) => Some(Some(b)),
        _ => None,
    }
}

pub open spec fn opt_view(o: Option<String>) -> Option<Seq<char>> {
    match o {
        Some(s) => Some(s@),
        None => None,
    }
}

pub fn read_str(j: &Json, key: &str) -> (r: Option<String>)
    ensures
        opt_view(r) == str_at(*j, key@),
{
    match j.get(key) {
        Some(Json::Str(s)) => Some(s.clone()),
        _ => None,
    }
}

pub fn read_bool(j: &Json, key: &str) -> (r: Option<bool>)
    ensures
        r == bool_at(*j, key@),
{
    match j.get(key) {
        Some(Json::Bool(b)) => Some(*b),
        _ => None,
    }
}

pub fn read_i32(j: &Json, key: &str) -> (r: Option<i32>)
    ensures
        r == i32_at(*j, key@),
{
    match j.get(key) {
        Some(Json::Int(i)) => if i32::MIN as i64 <= *i && *i <= i32::MAX as i64 {
            Some(*i as i32)
        } else {
            None
        },
        _ => None,
    }
}

pub fn read_opt_str(j: &Json, key: &str) -> (r: Option<Option<String>>)
    ensures
        r is Some <==> opt_str_at(*j, key@) is Some,
        r matches Some(o) ==> opt_str_at(*j, key@) == Some(opt_view(o)),
{
    match j.get(key) {
        None => Some(None),
        Some(Json::Null) => Some(None),
        Some(Json::Str(s)) => Some(Some(s.clone())),
        _ => None,
    }
}

pub fn read_opt_bool(j: &Json, key: &str) -> (r: Option<Option<bool>>)
    ensures
        r == opt_bool_at(*j, key@),
{
    match j.get(key) {
        None => Some(None),
        Some(Json::Null) => Some(None),
        Some(Json::Bool(b)) => Some(Some(*b)),
        _ => None,
    }
}

/// A type that can be read from the `value` member of a response.
pub trait FromJson: Sized {
    /// `j` has the shape of a value of this type.
    spec fn decodable(j: Json) -> bool;

    /// `v` is what `j` reads as.
    spec fn decodes_to(j: Json, v: Self) -> bool;

    fn check(j: &Json) -> (r: bool)
        ensures
            r == Self::decodable(*j),
    ;

    /// Reads `j`, or hands it back unchanged when it has another shape.
    fn from_json(j: Json) -> (r: Result<Self, Json>)
        ensures
            r is Ok <==> Self::decodable(j),
            r matches Ok(v) ==> Self::decodes_to(j, v),
            r matches Err(k) ==> k == j,
    ;
}

impl FromJson for () {
    open spec fn decodable(j: Json) -> bool {
        j is Null
    }

    open spec fn decodes_to(j: Json, v: ()) -> bool {
        j is Null
    }

    fn check(j: &Json) -> (r: bool) {
        matches!(j, Json::Null)
    }

    fn from_json(j: Json) -> (r: Result<(), Json>) {
        match j {
            Json::Null => Ok(()),
            other => Err(other),
        }
    }
}

impl FromJson for bool {
    open spec fn decodable(j: Json) -> bool {
        j is Bool
    }

    open spec fn decodes_to(j: Json, v: bool) -> bool {
        j == Json::Bool(v)
    }

    fn check(j: &Json) -> (r: bool) {
        matches!(j, Json::Bool(_))
    }

    fn from_json(j: Json) -> (r: Result<bool, Json>) {
        match j {
            Json::Bool(b) => Ok(b),
            other => Err(other),
        }
    }
}

impl FromJson for i64 {
    open spec fn decodable(j: Json) -> bool {
        j is Int
    }

    open spec fn decodes_to(j: Json, v: i64) -> bool {
        j == Json::Int(v)
    }

    fn check(j: &Json) -> (r: bool) {
        matches!(j, Json::Int(_))
    }

    fn from_json(j: Json) -> (r: Result<i64, Json>) {
        match j {
            Json::Int(i) => Ok(i),
            other => Err(other),
        }
    }
}

impl FromJson for String {
    open spec fn decodable(j: Json) -> bool {
        j is Str
    }

    open spec fn decodes_to(j: Json, v: String) -> bool {
        j == Json::Str(v)
    }

    fn check(j: &Json) -> (r: bool) {
        matches!(j, Json::Str(_))
    }

    fn from_json(j: Json) -> (r: Result<String, Json>) {
        match j {
            Json::Str(s) => Ok(s),
            other => Err(other),
        }
    }
}

impl FromJson for Json {
    open spec fn decodable(j: Json) -> bool {
        true
    }

    open spec fn decodes_to(j: Json, v: Json) -> bool {
        v == j
    }

    fn check(j: &Json) -> (r: bool) {
        true
    }

    fn from_json(j: Json) -> (r: Result<Json, Json>) {
        Ok(j)
    }
}

impl<T: FromJson> FromJson for Vec<T> {
    open spec fn decodable(j: Json) -> bool {
        match j {
            Json::Array(a) => forall|i: int| 0 <= i < a@.len() ==> T::decodable(#[trigger] a@[i]),
            _ => false,
        }
    }

    open spec fn decodes_to(j: Json, v: Vec<T>) -> bool {
        match j {
            Json::Array(a) => v@.len() == a@.len() && forall|i: int|
                0 <= i < a@.len() ==> T::decodes_to(#[trigger] a@[i], v@[i]),
            _ => false,
        }
    }

    fn check(j: &Json) -> (r: bool) {
        match j {
            Json::Array(a) => {
                let mut i: usize = 0;
                while i < a.len()
                    invariant
                        i <= a@.len(),
                        Self::decodable(*j) == (forall|k: int|
                            0 <= k < a@.len() ==> T::decodable(#[trigger] a@[k])),
                        forall|k: int| 0 <= k < i ==> T::decodable(#[trigger] a@[k]),
                    decreases a@.len() - i,
                {
                    if !T::check(&a[i]) {
                        return false;
                    }
                    i = i + 1;
                }
                true
            },
            _ => false,
        }
    }

    fn from_json(j: Json) -> (r: Result<Vec<T>, Json>) {
        if !Self::check(&j) {
            return Err(j);
        }
        match j {
            Json::Array(items) => {
                let ghost all = items@;
                let mut rest = items;
                let mut out: Vec<T> = Vec::new();
                while rest.len() > 0
                    invariant
                        out@.len() + rest@.len() == all.len(),
                        rest@ == all.subrange(out@.len() as int, all.len() as int),
                        forall|i: int| 0 <= i < all.len() ==> T::decodable(#[trigger] all[i]),
                        forall|i: int| 0 <= i < out@.len() ==> T::decodes_to(all[i], #[trigger] out@[i]),
                    decreases rest@.len(),
                {
                    let ghost n: int = out@.len() as int;
                    let x = rest.remove(0);
                    assert(x == all[n]);
                    assert(rest@ =~= all.subrange(n + 1, all.len() as int));
                    match T::from_json(x) {
                        Ok(v) => out.push(v),
                        Err(_) => {
                            assert(false);
                        },
                    }
                }
                Ok(out)
            },
            other => Err(other),
        }
    }
}

impl FromJson for Rect {
    open spec fn decodable(j: Json) -> bool {
        &&& i32_at(j, "x"@) is Some
        &&& i32_at(j, "y"@) is Some
        &&& i32_at(j, "width"@) is Some
        &&& i32_at(j, "height"@) is Some
    }

    open spec fn decodes_to(j: Json, v: Rect) -> bool {
        &&& i32_at(j, "x"@) == Some(v.x)
        &&& i32_at(j, "y"@) == Some(v.y)
        &&& i32_at(j, "width"@) == Some(v.width)
        &&& i32_at(j, "height"@) == Some(v.height)
    }

    fn check(j: &Json) -> (r: bool) {
        read_i32(j, "x").is_some() && read_i32(j, "y").is_some() && read_i32(j, "width").is_some()
            && read_i32(j, "height").is_some()
    }

    fn from_json(j: Json) -> (r: Result<Rect, Json>) {
        match (read_i32(&j, "x"), read_i32(&j, "y"), read_i32(&j, "width"), read_i32(&j, "height")) {
            (Some(x), Some(y), Some(width), Some(height)) => Ok(Rect { x, y, width, height }),
            _ => Err(j),
        }
    }
}

impl FromJson for Timeouts {
    open spec fn decodable(j: Json) -> bool {
        &&& i32_at(j, "script"@) is Some
        &&& i32_at(j, "pageLoad"@) is Some
        &&& i32_at(j, "implicit"@) is Some
    }

    open spec fn decodes_to(j: Json, v: Timeouts) -> bool {
        &&& i32_at(j, "script"@) == Some(v.script)
        &&& i32_at(j, "pageLoad"@) == Some(v.page_load)
        &&& i32_at(j, "implicit"@) == Some(v.implicit)
    }

    fn check(j: &Json) -> (r: bool) {
        read_i32(j, "script").is_some() && read_i32(j, "pageLoad").is_some() && read_i32(
            j,
            "implicit",
        ).is_some()
    }

    fn from_json(j: Json) -> (r: Result<Timeouts, Json>) {
        match (read_i32(&j, "script"), read_i32(&j, "pageLoad"), read_i32(&j, "implicit")) {
            (Some(script), Some(page_load), Some(implicit)) => Ok(
                Timeouts { script, page_load, implicit },
            ),
            _ => Err(j),
        }
    }
}

impl FromJson for Status {
    open spec fn decodable(j: Json) -> bool {
        &&& bool_at(j, "ready"@) is Some
        &&& str_at(j, "message"@) is Some
    }

    open spec fn decodes_to(j: Json, v: Status) -> bool {
        &&& bool_at(j, "ready"@) == Some(v.ready)
        &&& str_at(j, "message"@) == Some(v.message@)
    }

    fn check(j: &Json) -> (r: bool) {
        read_bool(j, "ready").is_some() && read_str(j, "message").is_some()
    }

    fn from_json(j: Json) -> (r: Result<Status, Json>) {
        match (read_bool(&j, "ready"), read_str(&j, "message")) {
            (Some(ready), Some(message)) => Ok(Status { ready, message }),
            _ => Err(j),
        }
    }
}

impl FromJson for Cookie {
    open spec fn decodable(j: Json) -> bool {
        &&& str_at(j, "name"@) is Some
        &&& str_at(j, "value"@) is Some
        &&& opt_str_at(j, "path"@) is Some
        &&& opt_str_at(j, "domain"@) is Some
        &&& opt_bool_at(j, "secure"@) is Some
        &&& opt_bool_at(j, "httpOnly"@) is Some
    }

    open spec fn decodes_to(j: Json, v: Cookie) -> bool {
        &&& str_at(j, "name"@) == Some(v.name@)
        &&& str_at(j, "value"@) == Some(v.value@)
        &&& opt_str_at(j, "path"@) == Some(opt_view(v.path))
        &&& opt_str_at(j, "domain"@) == Some(opt_view(v.domain))
        &&& opt_bool_at(j, "secure"@) == Some(v.secure)
        &&& opt_bool_at(j, "httpOnly"@) == Some(v.http_only)
    }

    fn check(j: &Json) -> (r: bool) {
        read_str(j, "name").is_some() && read_str(j, "value").is_some() && read_opt_str(
            j,
            "path",
        ).is_some() && read_opt_str(j, "domain").is_some() && read_opt_bool(j, "secure").is_some()
            && read_opt_bool(j, "httpOnly").is_some()
    }

    fn from_json(j: Json) -> (r: Result<Cookie, Json>) {
        match (
            read_str(&j, "name"),
            read_str(&j, "value"),
            read_opt_str(&j, "path"),
            read_opt_str(&j, "domain"),
            read_opt_bool(&j, "secure"),
            read_opt_bool(&j, "httpOnly"),
        ) {
            (Some(name), Some(value), Some(path), Some(domain), Some(secure), Some(http_only)) => Ok(
                Cookie { name, value, path, domain, secure, http_only },
            ),
            _ => Err(j),
        }
    }
}

impl FromJson for NewSession {
    open spec fn decodable(j: Json) -> bool {
        &&& str_at(j, "sessionId"@) is Some
        &&& member(j, "capabilities"@) matches Some(c) && c is Object
    }

    open spec fn decodes_to(j: Json, v: NewSession) -> bool {
        &&& str_at(j, "sessionId"@) == Some(v.session_id@)
        &&& member(j, "capabilities"@) == Some(v.capabilities)
    }

    fn check(j: &Json) -> (r: bool) {
        read_str(j, "sessionId").is_some() && matches!(j.get("capabilities"), Some(Json::Object(_)))
    }

    fn from_json(j: Json) -> (r: Result<NewSession, Json>) {
        if !Self::check(&j) {
            return Err(j);
        }
        match read_str(&j, "sessionId") {
            Some(session_id) => match j.take("capabilities") {
                Some(capabilities) => Ok(NewSession { capabilities, session_id }),
                None => {
                    assert(false);
                    Err(Json::Null)
                },
            },
            None => {
                assert(false);
                Err(Json::Null)
            },
        }
    }
}

/// The `data` member of an error object, when it is an object.
pub open spec fn error_data(j: Json) -> Option<Json> {
    match member(j, "data"@) {
        Some(Json::Object(m)) => Some(Json::Object(m)),
        _ => None,
    }
}

impl FromJson for WebDriverError {
    open spec fn decodable(j: Json) -> bool {
        &&& str_at(j, "error"@) is Some
        &&& str_at(j, "message"@) is Some
        &&& str_at(j, "stacktrace"@) is Some
        &&& match member(j, "data"@) {
            None => true,
            Some(Json::Null) => true,
            Some(Json::Object(_)) => true,
            _ => false,
        }
    }

    open spec fn decodes_to(j: Json, v: WebDriverError) -> bool {
        &&& str_at(j, "error"@) == Some(v.error@)
        &&& str_at(j, "message"@) == Some(v.message@)
        &&& str_at(j, "stacktrace"@) == Some(v.stacktrace@)
        &&& v.data == error_data(j)
    }

    fn check(j: &Json) -> (r: bool) {
        read_str(j, "error").is_some() && read_str(j, "message").is_some() && read_str(
            j,
            "stacktrace",
        ).is_some() && match j.get("data") {
            None => true,
            Some(Json::Null) => true,
            Some(Json::Object(_)) => true,
            _ => false,
        }
    }

    fn from_json(j: Json) -> (r: Result<WebDriverError, Json>) {
        if !Self::check(&j) {
            return Err(j);
        }
        match (read_str(&j, "error"), read_str(&j, "message"), read_str(&j, "stacktrace")) {
            (Some(error), Some(message), Some(stacktrace)) => {
                let data = match j.take("data") {
                    Some(Json::Object(m)) => Some(Json::Object(m)),
                    _ => None,
                };
                Ok(WebDriverError { error, message, stacktrace, data })
            },
            _ => {
                assert(false);
                Err(Json::Null)
            },
        }
    }
}

} // verus!
