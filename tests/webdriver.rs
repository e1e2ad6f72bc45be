use std::cell::RefCell;
use std::rc::Rc;

use webdriver_client::client::{
    classify, HttpClient, HttpExecutor, HttpRequest, Method, ACCEPT_JSON, MISMATCH_TEXT, NO_VALUE_TEXT,
};
use webdriver_client::decode::FromJson;
use webdriver_client::driver::{status_from, DefaultWebDriver, STATUS_FAILURE_PREFIX};
use webdriver_client::element::{element_from_value, elements_from_value, sub_path};
use webdriver_client::encode::{
    cookie_json, frame_body, locator_body, rect_json, timeouts_json, LocatorStrategy,
};
use webdriver_client::httpdecorator::HttpExecutorPathDecorator;
use webdriver_client::json::Json;
use webdriver_client::path::{join_path, trim_trailing_slashes};
use webdriver_client::session::DefaultSession;
use webdriver_client::structs::{
    ClientError, Cookie, Frame, Rect, Status, Timeouts, WebDriverError, WebDriverLocator,
    WEB_ELEMENT_IDENTIFIER,
};

/// A transport that answers from a queue of canned bodies and records each
/// request it frames.
#[derive(Clone)]
struct Mock {
    client: HttpClient,
    answers: Rc<RefCell<Vec<String>>>,
    sent: Rc<RefCell<Vec<HttpRequest>>>,
}

impl Mock {
    fn new(answers: &[&str]) -> Mock {
        let mut queue: Vec<String> = answers.iter().map(|a| a.to_string()).collect();
        queue.reverse();
        Mock {
            client: HttpClient::new("http://backend".to_string()),
            answers: Rc::new(RefCell::new(queue)),
            sent: Rc::new(RefCell::new(Vec::new())),
        }
    }

    fn answer<T: FromJson>(&self, request: HttpRequest) -> Result<T, ClientError> {
        self.sent.borrow_mut().push(request);
        match self.answers.borrow_mut().pop() {
            Some(body) => self.client.extract(&body),
            None => Err(ClientError::Network("no answer".to_string())),
        }
    }

    fn urls(&self) -> Vec<String> {
        self.sent.borrow().iter().map(|r| r.url.clone()).collect()
    }
}

impl HttpExecutor for Mock {
    fn route(&self, path: &str) -> String {
        path.to_string()
    }

    fn duplicate(&self) -> Self {
        self.clone()
    }

    fn get<T: FromJson>(&self, path: &str) -> Result<T, ClientError> {
        self.answer(self.client.request(Method::Get, path, None))
    }

    fn post<T: FromJson>(&self, path: &str, body: Json) -> Result<T, ClientError> {
        self.answer(self.client.request(Method::Post, path, Some(&body)))
    }

    fn delete<T: FromJson>(&self, path: &str) -> Result<T, ClientError> {
        self.answer(self.client.request(Method::Delete, path, None))
    }
}

/// The JSON text that a request carries for `body`.
fn wire_text(body: &Json) -> String {
    let client = HttpClient::new("http://backend".to_string());
    client.request(Method::Post, "x", Some(body)).body.unwrap()
}

fn obj(members: Vec<(&str, Json)>) -> Json {
    Json::Object(members.into_iter().map(|(k, v)| (k.to_string(), v)).collect())
}

fn text(s: &str) -> Json {
    Json::Str(s.to_string())
}

fn element_obj(id: &str) -> Json {
    obj(vec![(WEB_ELEMENT_IDENTIFIER, text(id))])
}

fn session(mock: &Mock, id: &str) -> DefaultSession<Mock> {
    DefaultSession::new(Box::new(mock.clone()), id.to_string())
}

#[test]
fn nested_scopes_compose_paths() {
    let flat = join_path(&join_path("session/s1", "element/e1"), "click");
    assert_eq!(flat, "session/s1/element/e1/click");
    let nested = join_path("session/s1", &join_path("element/e1", "click"));
    assert_eq!(nested, "session/s1/element/e1/click");

    let mock = Mock::new(&[]);
    let inner = HttpExecutorPathDecorator::new(Box::new(mock.clone()), "session/s1".to_string());
    let two = HttpExecutorPathDecorator::new(Box::new(inner), "element/e1".to_string());
    let one = HttpExecutorPathDecorator::new(
        Box::new(mock.clone()),
        "session/s1/element/e1".to_string(),
    );
    assert_eq!(two.route("click"), "session/s1/element/e1/click");
    assert_eq!(two.route("click"), one.route("click"));
}

#[test]
fn empty_relative_path_yields_prefix() {
    assert_eq!(join_path("session/abc", ""), "session/abc");
    assert_eq!(join_path("session/abc/", ""), "session/abc");
    assert_eq!(join_path("", ""), "");
    assert_eq!(join_path("a", "b//"), "a/b");
    assert_eq!(trim_trailing_slashes("x///"), "x");
    assert_eq!(trim_trailing_slashes("///"), "");
    let mock = Mock::new(&[]);
    let scope = HttpExecutorPathDecorator::new(Box::new(mock), "session/abc".to_string());
    assert_eq!(scope.scoped(""), "session/abc");
    assert_eq!(scope.route(""), "session/abc");
}

#[test]
fn integer_value_is_decoded() {
    let client = HttpClient::new("http://backend".to_string());
    let r: Result<i64, ClientError> = client.extract("{\"value\": 5}");
    assert_eq!(r, Ok(5));
}

#[test]
fn error_object_is_protocol_error() {
    let client = HttpClient::new("http://backend".to_string());
    let body = "{\"value\": {\"error\": \"no such element\", \"message\": \"m\", \"stacktrace\": \"\", \"data\": null}}";
    let r: Result<String, ClientError> = client.extract(body);
    match r {
        Err(ClientError::Protocol(e)) => {
            assert_eq!(e.error, "no such element");
            assert_eq!(e.message, "m");
            assert_eq!(e.stacktrace, "");
            assert_eq!(e.data, None);
        }
        other => panic!("expected a protocol error, got {:?}", other),
    }
}

#[test]
fn error_object_keeps_its_data() {
    let client = HttpClient::new("http://backend".to_string());
    let body = "{\"value\": {\"error\": \"e\", \"message\": \"\", \"stacktrace\": \"s\", \"data\": {\"k\": 1}}}";
    let r: Result<bool, ClientError> = client.extract(body);
    assert_eq!(
        r,
        Err(ClientError::Protocol(WebDriverError {
            error: "e".to_string(),
            message: String::new(),
            stacktrace: "s".to_string(),
            data: Some(obj(vec![("k", Json::Int(1))])),
        }))
    );
}

#[test]
fn missing_value_is_malformed() {
    let client = HttpClient::new("http://backend".to_string());
    let r: Result<String, ClientError> = client.extract("{\"unexpected\": true}");
    assert!(matches!(r, Err(ClientError::Malformed(_))));
    let r: Result<WebDriverError, ClientError> = client.extract("{\"unexpected\": true}");
    assert!(matches!(r, Err(ClientError::Malformed(_))));
}

#[test]
fn unparsable_body_is_malformed() {
    let client = HttpClient::new("http://backend".to_string());
    let r: Result<i64, ClientError> = client.extract("not json");
    match r {
        Err(ClientError::Malformed(m)) => assert!(!m.is_empty()),
        other => panic!("expected a malformed response, got {:?}", other),
    }
}

#[test]
fn unexpected_shape_is_mismatch() {
    let client = HttpClient::new("http://backend".to_string());
    let r: Result<String, ClientError> = client.extract("{\"value\": {\"foo\": 1}}");
    assert!(matches!(r, Err(ClientError::Mismatch(_))));
    let r: Result<i64, ClientError> = client.extract("{\"value\": \"five\"}");
    assert!(matches!(r, Err(ClientError::Mismatch(_))));
}

#[test]
fn classify_reads_value_member() {
    let doc = obj(vec![("value", text("t"))]);
    assert_eq!(classify::<String>(doc), Ok("t".to_string()));
    let doc = obj(vec![("value", Json::Null)]);
    assert_eq!(classify::<()>(doc), Ok(()));
    let doc = obj(vec![("other", Json::Null)]);
    assert!(matches!(classify::<()>(doc), Err(ClientError::Malformed(_))));
}

#[test]
fn frame_switch_bodies() {
    let body = frame_body(Frame::Elem("abc".to_string()));
    assert_eq!(body, obj(vec![("id", element_obj("abc"))]));
    assert_eq!(
        wire_text(&body),
        "{\"id\":{\"element-6066-11e4-a52e-4f735466cecf\":\"abc\"}}"
    );
    let body = frame_body(Frame::Id(3));
    assert_eq!(body, obj(vec![("id", Json::Int(3))]));
    assert_eq!(wire_text(&body), "{\"id\":3}");
    let body = frame_body(Frame::Top);
    assert_eq!(body, obj(vec![("id", Json::Null)]));
    assert_eq!(wire_text(&body), "{\"id\":null}");
}

#[test]
fn switch_to_frame_posts_body() {
    let mock = Mock::new(&["{\"value\": null}"]);
    let s = session(&mock, "s1");
    assert_eq!(s.switch_to_frame(Frame::Id(3)), Ok(()));
    let sent = mock.sent.borrow();
    assert_eq!(sent[0].method, Method::Post);
    assert_eq!(sent[0].url, "http://backend/session/s1/frame");
    assert_eq!(sent[0].accept, ACCEPT_JSON);
    assert_eq!(sent[0].body, Some("{\"id\":3}".to_string()));
}

#[test]
fn two_elements_share_session_prefix() {
    let mock = Mock::new(&[]);
    let scope = HttpExecutorPathDecorator::new(Box::new(mock), "session/s1".to_string());
    let v = Json::Array(vec![element_obj("e1"), element_obj("e2")]);
    let found = elements_from_value(&scope, &v).unwrap();
    assert_eq!(found.len(), 2);
    assert_eq!(found[0].get_reference_id(), "e1");
    assert_eq!(found[1].get_reference_id(), "e2");
    assert_eq!(found[0].route(""), "session/s1/element/e1");
    assert_eq!(found[1].route(""), "session/s1/element/e2");
    assert_eq!(found[0].route("click"), "session/s1/element/e1/click");
}

#[test]
fn find_elements_through_session() {
    let body = format!(
        "{{\"value\": [{{\"{k}\": \"e1\"}}, {{\"{k}\": \"e2\"}}]}}",
        k = WEB_ELEMENT_IDENTIFIER
    );
    let mock = Mock::new(&[body.as_str()]);
    let s = session(&mock, "s1");
    let found = s.find_elements(&WebDriverLocator::CSS, "div").unwrap();
    assert_eq!(found.len(), 2);
    assert_eq!(found[1].route("text"), "session/s1/element/e2/text");
    let sent = mock.sent.borrow();
    assert_eq!(sent[0].url, "http://backend/session/s1/elements");
    assert_eq!(
        sent[0].body,
        Some("{\"using\":\"css selector\",\"value\":\"div\"}".to_string())
    );
}

#[test]
fn element_lookup_from_element_stays_below_session() {
    let body = format!("{{\"value\": {{\"{}\": \"child\"}}}}", WEB_ELEMENT_IDENTIFIER);
    let parent_body = format!("{{\"value\": {{\"{}\": \"parent\"}}}}", WEB_ELEMENT_IDENTIFIER);
    let mock = Mock::new(&[parent_body.as_str(), body.as_str()]);
    let s = session(&mock, "s1");
    let parent = s.find_element(&WebDriverLocator::ID, "p").unwrap();
    let child = parent.find_element(&WebDriverLocator::Xpath, "./a").unwrap();
    assert_eq!(child.get_reference_id(), "child");
    assert_eq!(child.route("click"), "session/s1/element/child/click");
    assert_eq!(
        mock.urls(),
        vec![
            "http://backend/session/s1/element".to_string(),
            "http://backend/session/s1/element/parent/element".to_string(),
        ]
    );
}

#[test]
fn element_without_reference_is_mismatch() {
    let mock = Mock::new(&[]);
    let scope = HttpExecutorPathDecorator::new(Box::new(mock), "session/s1".to_string());
    let r = element_from_value(&scope, &obj(vec![("id", text("x"))]));
    assert!(matches!(r, Err(ClientError::Mismatch(_))));
    let r = elements_from_value(&scope, &Json::Array(vec![element_obj("a"), Json::Null]));
    assert!(matches!(r, Err(ClientError::Mismatch(_))));
    let r = elements_from_value(&scope, &element_obj("a"));
    assert!(matches!(r, Err(ClientError::Mismatch(_))));
    let r = elements_from_value(&scope, &Json::Array(vec![])).unwrap();
    assert!(r.is_empty());
}

#[test]
fn locator_literals() {
    assert_eq!(WebDriverLocator::ID.get_using_str(), "id");
    assert_eq!(WebDriverLocator::CSS.get_using_str(), "css selector");
    assert_eq!(WebDriverLocator::Xpath.get_using_str(), "xpath");
    assert_eq!(WebDriverLocator::Tag.get_using_str(), "tag name");
    assert_eq!(WebDriverLocator::LinkText.get_using_str(), "link text");
    assert_eq!(WebDriverLocator::PartialLinkText.get_using_str(), "partial link text");
    assert_eq!(
        locator_body(&WebDriverLocator::Tag, "a"),
        obj(vec![("using", text("tag name")), ("value", text("a"))])
    );
}

#[test]
fn status_failure_is_not_ready() {
    let mock = Mock::new(&["garbage"]);
    let driver = DefaultWebDriver::new(Box::new(mock.clone()));
    let s = driver.status();
    assert!(!s.ready);
    assert!(s.message.starts_with(STATUS_FAILURE_PREFIX));
    assert_eq!(mock.urls(), vec!["http://backend/status".to_string()]);

    let e = ClientError::Protocol(WebDriverError {
        error: "unknown error".to_string(),
        message: "m".to_string(),
        stacktrace: String::new(),
        data: None,
    });
    let s = status_from(Err(e));
    assert_eq!(
        s,
        Status {
            ready: false,
            message: "[Client-side]Unexpected error from WebDriver unknown error".to_string(),
        }
    );
}

#[test]
fn status_success_is_passed_on() {
    let mock = Mock::new(&["{\"value\": {\"ready\": true, \"message\": \"ok\"}}"]);
    let driver = DefaultWebDriver::new(Box::new(mock));
    assert_eq!(driver.status(), Status { ready: true, message: "ok".to_string() });
}

#[test]
fn create_session_scopes_requests() {
    let mock = Mock::new(&[
        "{\"value\": {\"sessionId\": \"abc\", \"capabilities\": {\"browserName\": \"firefox\"}}}",
        "{\"value\": \"Title\"}",
        "{\"value\": null}",
    ]);
    let driver = DefaultWebDriver::new(Box::new(mock.clone()));
    let s = driver.create_session(vec![]).unwrap();
    assert_eq!(s.get_title(), Ok("Title".to_string()));
    assert_eq!(s.delete_session(), Ok(()));
    assert_eq!(
        mock.urls(),
        vec![
            "http://backend/session".to_string(),
            "http://backend/session/abc/title".to_string(),
            "http://backend/session/abc".to_string(),
        ]
    );
    assert_eq!(mock.sent.borrow()[2].method, Method::Delete);
    assert_eq!(s.get_session_id(), "abc");
}

#[test]
fn network_failure_is_distinct() {
    let mock = Mock::new(&[]);
    let s = session(&mock, "s1");
    assert_eq!(s.get_title(), Err(ClientError::Network("no answer".to_string())));
}

#[test]
fn structured_values_decode() {
    let client = HttpClient::new("http://backend".to_string());
    let r: Result<Rect, ClientError> =
        client.extract("{\"value\": {\"x\": 1, \"y\": -2, \"width\": 30, \"height\": 40}}");
    assert_eq!(r, Ok(Rect { x: 1, y: -2, width: 30, height: 40 }));
    let r: Result<Rect, ClientError> =
        client.extract("{\"value\": {\"x\": 1, \"y\": 2, \"width\": 3000000000, \"height\": 4}}");
    assert!(matches!(r, Err(ClientError::Mismatch(_))));
    let r: Result<Timeouts, ClientError> =
        client.extract("{\"value\": {\"script\": 30000, \"pageLoad\": 300000, \"implicit\": 0}}");
    assert_eq!(r, Ok(Timeouts { script: 30000, page_load: 300000, implicit: 0 }));
    let r: Result<Vec<String>, ClientError> = client.extract("{\"value\": [\"a\", \"b\"]}");
    assert_eq!(r, Ok(vec!["a".to_string(), "b".to_string()]));
    let r: Result<Vec<Cookie>, ClientError> = client.extract(
        "{\"value\": [{\"name\": \"n\", \"value\": \"v\", \"path\": \"/\", \"secure\": true}]}",
    );
    assert_eq!(
        r,
        Ok(vec![Cookie {
            name: "n".to_string(),
            value: "v".to_string(),
            path: Some("/".to_string()),
            domain: None,
            secure: Some(true),
            http_only: None,
        }])
    );
}

#[test]
fn request_bodies_encode() {
    let t = Timeouts { script: 1, page_load: 2, implicit: 3 };
    assert_eq!(wire_text(&timeouts_json(&t)), "{\"implicit\":3,\"pageLoad\":2,\"script\":1}");
    let r = Rect { x: 1, y: 2, width: 3, height: 4 };
    assert_eq!(
        rect_json(&r),
        obj(vec![
            ("x", Json::Int(1)),
            ("y", Json::Int(2)),
            ("width", Json::Int(3)),
            ("height", Json::Int(4)),
        ])
    );
    let c = Cookie {
        name: "n".to_string(),
        value: "v".to_string(),
        path: None,
        domain: Some("d".to_string()),
        secure: None,
        http_only: Some(false),
    };
    assert_eq!(
        cookie_json(c),
        obj(vec![
            ("name", text("n")),
            ("value", text("v")),
            ("path", Json::Null),
            ("domain", text("d")),
            ("secure", Json::Null),
            ("httpOnly", Json::Bool(false)),
        ])
    );
    assert_eq!(sub_path("attribute/", "href"), "attribute/href");
}

#[test]
fn json_text_round_trip() {
    let client = HttpClient::new("http://backend".to_string());
    let j: Json = client.extract("{\"value\": {\"a\": [1, 2.5, \"x\", null, true]}}").unwrap();
    match &j {
        Json::Object(members) => {
            assert_eq!(members.len(), 1);
            assert_eq!(members[0].0, "a");
            match &members[0].1 {
                Json::Array(items) => {
                    assert_eq!(items[0], Json::Int(1));
                    assert!(matches!(items[1], Json::Number(_)));
                    assert_eq!(items[2], text("x"));
                    assert_eq!(items[3], Json::Null);
                    assert_eq!(items[4], Json::Bool(true));
                }
                other => panic!("expected an array, got {:?}", other),
            }
        }
        other => panic!("expected an object, got {:?}", other),
    }
    assert_eq!(wire_text(&j), "{\"a\":[1,2.5,\"x\",null,true]}");
}

#[test]
fn error_text_line() {
    let e = WebDriverError {
        error: "no such window".to_string(),
        message: "gone".to_string(),
        stacktrace: String::new(),
        data: None,
    };
    assert_eq!(e.to_text(), "error: no such window, message: gone\n");
}

#[test]
fn request_framing() {
    let client = HttpClient::new("http://localhost:4444".to_string());
    let r = client.request(Method::Get, "status", None);
    assert_eq!(r.url, "http://localhost:4444/status");
    assert_eq!(r.accept, "application/json;charset=UTF-8");
    assert_eq!(r.body, None);
    let r = client.request(Method::Post, "session", Some(&obj(vec![])));
    assert_eq!(r.body, Some("{}".to_string()));
}

#[test]
fn nested_scope_posts_at_joined_path() {
    let mock = Mock::new(&["{\"value\": null}", "{\"value\": null}"]);
    let inner = HttpExecutorPathDecorator::new(Box::new(mock.clone()), "session/s1".to_string());
    let nested = HttpExecutorPathDecorator::new(Box::new(inner), "element/e1".to_string());
    let r: Result<(), ClientError> = nested.post("click", obj(vec![]));
    assert_eq!(r, Ok(()));
    let r: Result<(), ClientError> = nested.post("", obj(vec![]));
    assert_eq!(r, Ok(()));
    assert_eq!(
        mock.urls(),
        vec![
            "http://backend/session/s1/element/e1/click".to_string(),
            "http://backend/session/s1/element/e1".to_string(),
        ]
    );
    assert_eq!(mock.sent.borrow()[0].body, Some("{}".to_string()));
}

#[test]
fn empty_path_delete_reaches_prefix() {
    let mock = Mock::new(&["{\"value\": null}", "{\"value\": null}"]);
    let scope = HttpExecutorPathDecorator::new(Box::new(mock.clone()), "session/abc".to_string());
    let r: Result<(), ClientError> = scope.delete("");
    assert_eq!(r, Ok(()));
    let s = session(&mock, "abc");
    assert_eq!(s.delete_session(), Ok(()));
    assert_eq!(
        mock.urls(),
        vec!["http://backend/session/abc".to_string(), "http://backend/session/abc".to_string()]
    );
}

#[test]
fn element_calls_reach_element_paths() {
    let body = format!(
        "{{\"value\": [{{\"{k}\": \"e1\"}}, {{\"{k}\": \"e2\"}}]}}",
        k = WEB_ELEMENT_IDENTIFIER
    );
    let mock = Mock::new(&[body.as_str(), "{\"value\": null}", "{\"value\": null}", "{\"value\": \"hi\"}"]);
    let s = session(&mock, "s1");
    let found = s.find_elements(&WebDriverLocator::CSS, "p").unwrap();
    assert_eq!(found[0].click(), Ok(()));
    assert_eq!(found[1].send_keys("xy"), Ok(()));
    assert_eq!(found[1].get_attribute("href"), Ok("hi".to_string()));
    assert_eq!(
        mock.urls(),
        vec![
            "http://backend/session/s1/elements".to_string(),
            "http://backend/session/s1/element/e1/click".to_string(),
            "http://backend/session/s1/element/e2/value".to_string(),
            "http://backend/session/s1/element/e2/attribute/href".to_string(),
        ]
    );
    assert_eq!(mock.sent.borrow()[2].body, Some("{\"text\":\"xy\"}".to_string()));
}

#[test]
fn frame_switch_by_element_posts_reference() {
    let mock = Mock::new(&["{\"value\": null}"]);
    let s = session(&mock, "s1");
    assert_eq!(s.switch_to_frame(Frame::Elem("abc".to_string())), Ok(()));
    let sent = mock.sent.borrow();
    assert_eq!(sent[0].url, "http://backend/session/s1/frame");
    assert_eq!(
        sent[0].body,
        Some("{\"id\":{\"element-6066-11e4-a52e-4f735466cecf\":\"abc\"}}".to_string())
    );
}

#[test]
fn transport_errors_pass_through_operations() {
    let mock = Mock::new(&["{\"value\": {\"error\": \"no such alert\", \"message\": \"\", \"stacktrace\": \"\"}}"]);
    let s = session(&mock, "s1");
    match s.accept_alert() {
        Err(ClientError::Protocol(e)) => assert_eq!(e.error, "no such alert"),
        other => panic!("expected a protocol error, got {:?}", other),
    }
    let mock = Mock::new(&[]);
    let s = session(&mock, "s1");
    assert!(matches!(s.find_element(&WebDriverLocator::ID, "x"), Err(ClientError::Network(_))));
}

#[test]
fn classifier_messages_are_fixed() {
    let client = HttpClient::new("http://backend".to_string());
    let r: Result<i64, ClientError> = client.extract("{\"other\": 1}");
    assert_eq!(r, Err(ClientError::Malformed(NO_VALUE_TEXT.to_string())));
    let r: Result<i64, ClientError> = client.extract("{\"value\": []}");
    assert_eq!(r, Err(ClientError::Mismatch(MISMATCH_TEXT.to_string())));
    let a: Result<i64, ClientError> = client.extract("{oops");
    let b: Result<i64, ClientError> = client.extract("{oops");
    assert_eq!(a, b);
}
