use vstd::prelude::*;
use crate::client::{HttpExecutor, Method, called};
use crate::decode::FromJson;
use crate::element::{DefaultElement, element_from_value, elements_from_value, found_one, found_many, sub_path};
use crate::encode::{
    LocatorStrategy, locator_body, empty_body, text_body, frame_body, single, timeouts_json, rect_json,
    cookies_json, script_json, is_locator_object, is_empty_object, is_text_object, is_frame_object,
    is_timeouts_object, is_rect_object, is_cookies_array, is_script_object, has_members,
};
use crate::httpdecorator::{HttpExecutorPathDecorator, lemma_scope_call};
use crate::path::join;
use crate::json::Json;
use crate::structs::{ClientError, Cookies, ExecuteScript, Frame, Rect, Timeouts};

verus! {

/// The prefix of the scope of the session with identifier `id`.
pub open spec fn session_prefix_of(id: Seq<char>) -> Seq<char> {
    "session/"@ + id
}

/// A session on the backend, addressed by its identifier. It ends only when
/// `delete_session` is called; dropping it leaves the remote session open.
pub struct DefaultSession<I: HttpExecutor> {
    http: Box<HttpExecutorPathDecorator<I>>,
    session_id: String,
}

impl<I: HttpExecutor> DefaultSession<I> {
    pub fn new(http: Box<I>, session_id: String) -> (r: Self)
        ensures
            r.id() == session_id@,
            r.scope().prefix() == session_prefix_of(session_id@),
            r.scope().inner_view() == *http,
    {
        let mut path = "session/".to_owned();
        path.append(session_id.as_str());
        proof {
            reveal_strlit("session/");
        }
        DefaultSession { http: Box::new(HttpExecutorPathDecorator::new(http, path)), session_id }
    }

    pub closed spec fn id(&self) -> Seq<char> {
        self.session_id@
    }

    /// The scope that this session's requests go through.
    pub closed spec fn scope(&self) -> HttpExecutorPathDecorator<I> {
        *self.http
    }

    pub fn get_session_id(self) -> (r: String)
        ensures
            r@ == self.id(),
    {
        self.session_id
    }

    pub fn get_http_executor(self) -> (r: Box<HttpExecutorPathDecorator<I>>)
        ensures
            *r == self.scope(),
    {
        self.http
    }

    /// The root transport that this session's scope wraps.
    pub open spec fn transport(&self) -> I {
        self.scope().inner_view()
    }

    /// The path, from the root transport, of `rel` in this session.
    pub open spec fn path(&self, rel: Seq<char>) -> Seq<char> {
        join(self.scope().prefix(), rel)
    }

    fn fetch<T: FromJson>(&self, rel: &str) -> (r: Result<T, ClientError>)
        ensures
            called(self.transport(), Method::Get, self.path(rel@), None, r),
    {
        let r = self.http.get(rel);
        proof {
            lemma_scope_call(*self.http, Method::Get, rel@, None, r);
        }
        r
    }

    fn submit<T: FromJson>(&self, rel: &str, body: Json) -> (r: Result<T, ClientError>)
        ensures
            called(self.transport(), Method::Post, self.path(rel@), Some(body), r),
    {
        let ghost b = body;
        let r = self.http.post(rel, body);
        proof {
            lemma_scope_call(*self.http, Method::Post, rel@, Some(b), r);
        }
        r
    }

    fn remove<T: FromJson>(&self, rel: &str) -> (r: Result<T, ClientError>)
        ensures
            called(self.transport(), Method::Delete, self.path(rel@), None, r),
    {
        let r = self.http.delete(rel);
        proof {
            lemma_scope_call(*self.http, Method::Delete, rel@, None, r);
        }
        r
    }

    /// The element that has focus, scoped below this session.
    pub fn get_active_element(&self) -> (r: Result<DefaultElement<I>, ClientError>)
        ensures
            exists|q: Result<Json, ClientError>|
                #[trigger] called(self.transport(), Method::Get, self.path("element/active"@), None, q)
                && found_one(q, self.scope().prefix(), self.transport(), r),
    {
        let q: Result<Json, ClientError> = self.fetch("element/active");
        match q {
            Ok(v) => element_from_value(&self.http, &v),
            Err(e) => Err(e),
        }
    }

    /// Finds the first element that matches, scoped below this session.
    pub fn find_element<L: LocatorStrategy>(&self, using: &L, value: &str) -> (r: Result<DefaultElement<I>, ClientError>)
        ensures
            exists|b: Json, q: Result<Json, ClientError>|
                is_locator_object(b, using.using(), value@)
                && #[trigger] called(self.transport(), Method::Post, self.path("element"@), Some(b), q)
                && found_one(q, self.scope().prefix(), self.transport(), r),
    {
        let q: Result<Json, ClientError> = self.submit("element", locator_body(using, value));
        match q {
            Ok(v) => element_from_value(&self.http, &v),
            Err(e) => Err(e),
        }
    }

    /// Finds every element that matches, each scoped below this session.
    pub fn find_elements<L: LocatorStrategy>(&self, using: &L, value: &str) -> (r: Result<Vec<DefaultElement<I>>, ClientError>)
        ensures
            exists|b: Json, q: Result<Json, ClientError>|
                is_locator_object(b, using.using(), value@)
                && #[trigger] called(self.transport(), Method::Post, self.path("elements"@), Some(b), q)
                && found_many(q, self.scope().prefix(), self.transport(), r),
    {
        let q: Result<Json, ClientError> = self.submit("elements", locator_body(using, value));
        match q {
            Ok(v) => elements_from_value(&self.http, &v),
            Err(e) => Err(e),
        }
    }

    /// Ends the session on the backend; the call goes to the session's own path.
    pub fn delete_session(&self) -> (r: Result<(), ClientError>)
        ensures
            called(self.transport(), Method::Delete, self.path(""@), None, r),
    {
        self.remove("")
    }

    pub fn get_timeouts(&self) -> (r: Result<Timeouts, ClientError>)
        ensures
            called(self.transport(), Method::Get, self.path("timeouts"@), None, r),
    {
        self.fetch("timeouts")
    }

    pub fn set_timeouts(&self, timeouts: Timeouts) -> (r: Result<(), ClientError>)
        ensures
            exists|b: Json| is_timeouts_object(b, timeouts) && #[trigger] called(self.transport(), Method::Post, self.path("timeouts"@), Some(b), r),
    {
        self.submit("timeouts", timeouts_json(&timeouts))
    }

    pub fn navigate_to(&self, url: &str) -> (r: Result<(), ClientError>)
        ensures
            exists|b: Json| is_text_object(b, "url"@, url@) && #[trigger] called(self.transport(), Method::Post, self.path("url"@), Some(b), r),
    {
        self.submit("url", text_body("url", url))
    }

    pub fn get_current_url(&self) -> (r: Result<String, ClientError>)
        ensures
            called(self.transport(), Method::Get, self.path("url"@), None, r),
    {
        self.fetch("url")
    }

    pub fn back(&self) -> (r: Result<(), ClientError>)
        ensures
            exists|b: Json| is_empty_object(b) && #[trigger] called(self.transport(), Method::Post, self.path("back"@), Some(b), r),
    {
        self.submit("back", empty_body())
    }

    pub fn forward(&self) -> (r: Result<(), ClientError>)
        ensures
            exists|b: Json| is_empty_object(b) && #[trigger] called(self.transport(), Method::Post, self.path("forward"@), Some(b), r),
    {
        self.submit("forward", empty_body())
    }

    pub fn refresh(&self) -> (r: Result<(), ClientError>)
        ensures
            exists|b: Json| is_empty_object(b) && #[trigger] called(self.transport(), Method::Post, self.path("refresh"@), Some(b), r),
    {
        self.submit("refresh", empty_body())
    }

    pub fn get_title(&self) -> (r: Result<String, ClientError>)
        ensures
            called(self.transport(), Method::Get, self.path("title"@), None, r),
    {
        self.fetch("title")
    }

    pub fn get_window_handle(&self) -> (r: Result<String, ClientError>)
        ensures
            called(self.transport(), Method::Get, self.path("window"@), None, r),
    {
        self.fetch("window")
    }

    pub fn close_window(&self) -> (r: Result<Vec<String>, ClientError>)
        ensures
            called(self.transport(), Method::Delete, self.path("window"@), None, r),
    {
        self.remove("window")
    }

    pub fn switch_to_window(&self, handle: &str) -> (r: Result<(), ClientError>)
        ensures
            exists|b: Json| is_text_object(b, "handle"@, handle@) && #[trigger] called(self.transport(), Method::Post, self.path("window"@), Some(b), r),
    {
        self.submit("window", text_body("handle", handle))
    }

    pub fn get_window_handles(&self) -> (r: Result<Vec<String>, ClientError>)
        ensures
            called(self.transport(), Method::Get, self.path("window/handles"@), None, r),
    {
        self.fetch("window/handles")
    }

    /// Switches to `frame`; the body is the one that `frame_body` writes.
    pub fn switch_to_frame(&self, frame: Frame) -> (r: Result<(), ClientError>)
        ensures
            exists|b: Json| is_frame_object(b, frame) && #[trigger] called(self.transport(), Method::Post, self.path("frame"@), Some(b), r),
    {
        self.submit("frame", frame_body(frame))
    }

    pub fn switch_to_parent(&self) -> (r: Result<(), ClientError>)
        ensures
            exists|b: Json| is_empty_object(b) && #[trigger] called(self.transport(), Method::Post, self.path("frame/parent"@), Some(b), r),
    {
        self.submit("frame/parent", empty_body())
    }

    pub fn get_window_rect(&self) -> (r: Result<Rect, ClientError>)
        ensures
            called(self.transport(), Method::Get, self.path("window/rect"@), None, r),
    {
        self.fetch("window/rect")
    }

    pub fn set_window_rect(&self, rect: Rect) -> (r: Result<Rect, ClientError>)
        ensures
            exists|b: Json| is_rect_object(b, rect) && #[trigger] called(self.transport(), Method::Post, self.path("window/rect"@), Some(b), r),
    {
        self.submit("window/rect", rect_json(&rect))
    }

    pub fn maximize(&self) -> (r: Result<Rect, ClientError>)
        ensures
            exists|b: Json| is_empty_object(b) && #[trigger] called(self.transport(), Method::Post, self.path("window/maximize"@), Some(b), r),
    {
        self.submit("window/maximize", empty_body())
    }

    pub fn minimize(&self) -> (r: Result<Rect, ClientError>)
        ensures
            exists|b: Json| is_empty_object(b) && #[trigger] called(self.transport(), Method::Post, self.path("window/minimize"@), Some(b), r),
    {
        self.submit("window/minimize", empty_body())
    }

    pub fn fullscreen(&self) -> (r: Result<Rect, ClientError>)
        ensures
            exists|b: Json| is_empty_object(b) && #[trigger] called(self.transport(), Method::Post, self.path("window/fullscreen"@), Some(b), r),
    {
        self.submit("window/fullscreen", empty_body())
    }

    pub fn get_page_source(&self) -> (r: Result<String, ClientError>)
        ensures
            called(self.transport(), Method::Get, self.path("source"@), None, r),
    {
        self.fetch("source")
    }

    pub fn execute_sync(&self, script: ExecuteScript) -> (r: Result<Json, ClientError>)
        ensures
            exists|b: Json| is_script_object(b, script) && #[trigger] called(self.transport(), Method::Post, self.path("execute/sync"@), Some(b), r),
    {
        self.submit("execute/sync", script_json(script))
    }

    pub fn execute_async(&self, script: ExecuteScript) -> (r: Result<(), ClientError>)
        ensures
            exists|b: Json| is_script_object(b, script) && #[trigger] called(self.transport(), Method::Post, self.path("execute/async"@), Some(b), r),
    {
        self.submit("execute/async", script_json(script))
    }

    pub fn get_cookies(&self) -> (r: Result<Cookies, ClientError>)
        ensures
            called(self.transport(), Method::Get, self.path("cookie"@), None, r),
    {
        self.fetch("cookie")
    }

    pub fn get_cookie(&self, name: &str) -> (r: Result<Json, ClientError>)
        ensures
            called(self.transport(), Method::Get, self.path("cookie/"@ + name@), None, r),
    {
        self.fetch(sub_path("cookie/", name).as_str())
    }

    pub fn add_cookie(&self, cookies: Cookies) -> (r: Result<(), ClientError>)
        ensures
            exists|b: Json| is_cookies_array(b, cookies@) && #[trigger] called(self.transport(), Method::Post, self.path("cookie"@), Some(b), r),
    {
        self.submit("cookie", cookies_json(cookies))
    }

    pub fn delete_cookie(&self, name: &str) -> (r: Result<(), ClientError>)
        ensures
            called(self.transport(), Method::Delete, self.path("cookie/"@ + name@), None, r),
    {
        self.remove(sub_path("cookie/", name).as_str())
    }

    pub fn delete_all_cookies(&self) -> (r: Result<(), ClientError>)
        ensures
            called(self.transport(), Method::Delete, self.path("cookie"@), None, r),
    {
        self.remove("cookie")
    }

    /// Performs the input source action sequences `actions`.
    pub fn perform_actions(&self, actions: Vec<Json>) -> (r: Result<(), ClientError>)
        ensures
            exists|b: Json| has_members(b, seq!["actions"@], seq![Json::Array(actions)]) && #[trigger] called(self.transport(), Method::Post, self.path("actions"@), Some(b), r),
    {
        self.submit("actions", single("actions", Json::Array(actions)))
    }

    pub fn release_actions(&self) -> (r: Result<(), ClientError>)
        ensures
            called(self.transport(), Method::Delete, self.path("actions"@), None, r),
    {
        self.remove("actions")
    }

    pub fn dismiss_alert(&self) -> (r: Result<(), ClientError>)
        ensures
            exists|b: Json| is_empty_object(b) && #[trigger] called(self.transport(), Method::Post, self.path("alert/dismiss"@), Some(b), r),
    {
        self.submit("alert/dismiss", empty_body())
    }

    pub fn accept_alert(&self) -> (r: Result<(), ClientError>)
        ensures
            exists|b: Json| is_empty_object(b) && #[trigger] called(self.transport(), Method::Post, self.path("alert/accept"@), Some(b), r),
    {
        self.submit("alert/accept", empty_body())
    }

    pub fn get_alert_text(&self) -> (r: Result<String, ClientError>)
        ensures
            called(self.transport(), Method::Get, self.path("alert/text"@), None, r),
    {
        self.fetch("alert/text")
    }

    pub fn set_alert_text(&self, text: &str) -> (r: Result<(), ClientError>)
        ensures
            exists|b: Json| is_text_object(b, "text"@, text@) && #[trigger] called(self.transport(), Method::Post, self.path("alert/text"@), Some(b), r),
    {
        self.submit("alert/text", text_body("text", text))
    }

    pub fn take_screenshot(&self) -> (r: Result<String, ClientError>)
        ensures
            called(self.transport(), Method::Get, self.path("screenshot"@), None, r),
    {
        self.fetch("screenshot")
    }
}

} // verus!
