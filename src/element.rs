use vstd::prelude::*;
use crate::client::{HttpExecutor, Method, called, same_transport};
use crate::decode::{read_str, str_at, FromJson};
use crate::encode::{LocatorStrategy, locator_body, empty_body, text_body, is_locator_object, is_empty_object, is_text_object};
use crate::httpdecorator::{HttpExecutorPathDecorator, lemma_scope_call};
use crate::json::Json;
use crate::path::{join, is_segment, lemma_join_nested};
use crate::structs::{ClientError, Rect, WEB_ELEMENT_IDENTIFIER};

verus! {

/// The prefix of the scope of the element with reference `id`.
pub open spec fn element_prefix_of(id: Seq<char>) -> Seq<char> {
    "element/"@ + id
}

/// The reference that the element object `v` carries.
pub open spec fn element_ref(v: Json) -> Option<Seq<char>> {
    str_at(v, WEB_ELEMENT_IDENTIFIER@)
}

/// An element of the page, addressed by its reference below its session.
pub struct DefaultElement<I: HttpExecutor> {
    http: Box<HttpExecutorPathDecorator<HttpExecutorPathDecorator<I>>>,
    ref_id: String,
}

/// `e` is the element with reference `id`, scoped below a session scope with
/// prefix `session`.
pub open spec fn is_element_of<I: HttpExecutor>(e: DefaultElement<I>, session: Seq<char>, id: Seq<char>) -> bool {
    &&& e.reference() == id
    &&& e.session_scope().prefix() == session
    &&& e.element_prefix() == element_prefix_of(id)
}

/// Builds the element with the reference under the well-known key of `v`,
/// scoped below `session`.
pub fn element_from_value<I: HttpExecutor>(session: &HttpExecutorPathDecorator<I>, v: &Json) -> (r: Result<DefaultElement<I>, ClientError>)
    ensures
        r is Ok <==> element_ref(*v) is Some,
        r matches Ok(e) ==> is_element_of(e, session.prefix(), element_ref(*v)->0)
            && same_transport(e.transport(), session.inner_view()),
        r matches Err(err) ==> err is Mismatch,
{
    match read_str(v, WEB_ELEMENT_IDENTIFIER) {
        Some(id) => Ok(DefaultElement::new(Box::new(session.copy_scope()), id)),
        None => Err(ClientError::Mismatch("the value carries no element reference".to_owned())),
    }
}

/// Each object of the array `v` carries an element reference.
pub open spec fn all_element_refs(v: Json) -> bool {
    match v {
        Json::Array(a) => forall|i: int| 0 <= i < a@.len() ==> (#[trigger] element_ref(a@[i])) is Some,
        _ => false,
    }
}

/// Builds one element for each object of the array `v`, in order, each scoped
/// below `session`.
pub fn elements_from_value<I: HttpExecutor>(session: &HttpExecutorPathDecorator<I>, v: &Json) -> (r: Result<Vec<DefaultElement<I>>, ClientError>)
    ensures
        r is Ok <==> all_element_refs(*v),
        r matches Ok(es) ==> match *v {
            Json::Array(a) => es@.len() == a@.len() && forall|i: int|
                0 <= i < a@.len() ==> is_element_of(#[trigger] es@[i], session.prefix(), element_ref(a@[i])->0)
                    && same_transport(es@[i].transport(), session.inner_view()),
            _ => false,
        },
        r matches Err(err) ==> err is Mismatch,
{
    match v {
        Json::Array(a) => {
            let mut out: Vec<DefaultElement<I>> = Vec::new();
            let mut i: usize = 0;
            while i < a.len()
                invariant
                    i <= a@.len(),
                    out@.len() == i,
                    *v == Json::Array(*a),
                    forall|k: int| 0 <= k < i ==> (#[trigger] element_ref(a@[k])) is Some,
                    forall|k: int|
                        0 <= k < i ==> is_element_of(#[trigger] out@[k], session.prefix(), element_ref(a@[k])->0)
                            && same_transport(out@[k].transport(), session.inner_view()),
                decreases a@.len() - i,
            {
                match element_from_value(session, &a[i]) {
                    Ok(e) => out.push(e),
                    Err(err) => return Err(err),
                }
                i = i + 1;
            }
            Ok(out)
        },
        _ => Err(ClientError::Mismatch("the value is no array of elements".to_owned())),
    }
}

/// What a lookup of one element yields from the reply `q`, below a session
/// scope with prefix `session` over `root`: the element that the reply's value
/// refers to, or the reply's failure unchanged.
pub open spec fn found_one<I: HttpExecutor>(
    q: Result<Json, ClientError>,
    session: Seq<char>,
    root: I,
    r: Result<DefaultElement<I>, ClientError>,
) -> bool {
    match q {
        Err(e) => r == Err::<DefaultElement<I>, ClientError>(e),
        Ok(v) => {
            &&& r is Ok <==> element_ref(v) is Some
            &&& r matches Ok(e) ==> is_element_of(e, session, element_ref(v)->0) && same_transport(e.transport(), root)
            &&& r matches Err(err) ==> err is Mismatch
        },
    }
}

/// What a lookup of several elements yields from the reply `q`: one element
/// for each object of the array, in order, or the reply's failure unchanged.
pub open spec fn found_many<I: HttpExecutor>(
    q: Result<Json, ClientError>,
    session: Seq<char>,
    root: I,
    r: Result<Vec<DefaultElement<I>>, ClientError>,
) -> bool {
    match q {
        Err(e) => r == Err::<Vec<DefaultElement<I>>, ClientError>(e),
        Ok(v) => {
            &&& r is Ok <==> all_element_refs(v)
            &&& r matches Ok(es) ==> match v {
                Json::Array(a) => es@.len() == a@.len() && forall|i: int|
                    0 <= i < a@.len() ==> is_element_of(#[trigger] es@[i], session, element_ref(a@[i])->0)
                        && same_transport(es@[i].transport(), root),
                _ => false,
            }
            &&& r matches Err(err) ==> err is Mismatch
        },
    }
}

/// Two elements found below one session share its prefix, and their paths
/// differ only in the `element/{id}` part that follows it.
pub proof fn lemma_sibling_paths<I: HttpExecutor>(
    a: DefaultElement<I>,
    b: DefaultElement<I>,
    session: Seq<char>,
    id_a: Seq<char>,
    id_b: Seq<char>,
)
    requires
        is_element_of(a, session, id_a),
        is_element_of(b, session, id_b),
        is_segment(id_a),
        is_segment(id_b),
    ensures
        a.session_scope().prefix() == b.session_scope().prefix(),
        a.scope_path() == session + seq!['/'] + element_prefix_of(id_a),
        b.scope_path() == session + seq!['/'] + element_prefix_of(id_b),
        forall|rel: Seq<char>| #[trigger] a.path(rel) == join(session + seq!['/'] + element_prefix_of(id_a), rel),
        forall|rel: Seq<char>| #[trigger] b.path(rel) == join(session + seq!['/'] + element_prefix_of(id_b), rel),
{
    assert forall|rel: Seq<char>| #[trigger] a.path(rel) == join(session + seq!['/'] + element_prefix_of(id_a), rel) by {
        lemma_join_nested(session, element_prefix_of(id_a), rel);
    }
    assert forall|rel: Seq<char>| #[trigger] b.path(rel) == join(session + seq!['/'] + element_prefix_of(id_b), rel) by {
        lemma_join_nested(session, element_prefix_of(id_b), rel);
    }
    lemma_join_nested(session, element_prefix_of(id_a), Seq::empty());
    lemma_join_nested(session, element_prefix_of(id_b), Seq::empty());
}

impl<I: HttpExecutor> DefaultElement<I> {
    pub fn new(http: Box<HttpExecutorPathDecorator<I>>, ref_id: String) -> (r: Self)
        ensures
            r.reference() == ref_id@,
            r.session_scope() == *http,
            r.element_prefix() == element_prefix_of(ref_id@),
    {
        let mut path = "element/".to_owned();
        path.append(ref_id.as_str());
        proof {
            reveal_strlit("element/");
        }
        DefaultElement { http: Box::new(HttpExecutorPathDecorator::new(http, path)), ref_id }
    }

    pub closed spec fn reference(&self) -> Seq<char> {
        self.ref_id@
    }

    /// The session scope that this element's scope is nested in.
    pub closed spec fn session_scope(&self) -> HttpExecutorPathDecorator<I> {
        self.http.inner_view()
    }

    /// The prefix that this element adds below its session.
    pub closed spec fn element_prefix(&self) -> Seq<char> {
        self.http.prefix()
    }

    /// The path of this element's scope below the driver's root.
    pub open spec fn scope_path(&self) -> Seq<char> {
        join(self.session_scope().prefix(), self.element_prefix())
    }

    pub fn get_reference_id(&self) -> (r: &str)
        ensures
            r@ == self.reference(),
    {
        self.ref_id.as_str()
    }

    pub fn get_http_executor(self) -> (r: Box<HttpExecutorPathDecorator<HttpExecutorPathDecorator<I>>>)
        ensures
            r.prefix() == self.element_prefix(),
            r.inner_view() == self.session_scope(),
    {
        self.http
    }

    /// The root transport below which this element's session scope sits.
    pub open spec fn transport(&self) -> I {
        self.session_scope().inner_view()
    }

    /// The path, from the root transport, of `rel` on this element.
    pub open spec fn path(&self, rel: Seq<char>) -> Seq<char> {
        join(self.session_scope().prefix(), join(self.element_prefix(), rel))
    }

    /// The path, from the driver's root, that a request for `rel` on this
    /// element goes to.
    pub fn route(&self, rel: &str) -> (r: String)
        ensures
            r@ == self.transport().target(self.path(rel@)),
    {
        self.http.route(rel)
    }

    fn fetch<T: FromJson>(&self, rel: &str) -> (r: Result<T, ClientError>)
        ensures
            called(self.transport(), Method::Get, self.path(rel@), None, r),
    {
        let r = self.http.get(rel);
        proof {
            lemma_scope_call(*self.http, Method::Get, rel@, None, r);
            lemma_scope_call(self.http.inner_view(), Method::Get, join(self.http.prefix(), rel@), None, r);
        }
        r
    }

    fn submit<T: FromJson>(&self, rel: &str, body: Json) -> (r: Result<T, ClientError>)
        ensures
            called(self.transport(), Method::Post, self.path(rel@), Some(body), r),
    {
        let ghost b = body;
        let r = self.http.post(rel, body);
        proof {
            lemma_scope_call(*self.http, Method::Post, rel@, Some(b), r);
            lemma_scope_call(self.http.inner_view(), Method::Post, join(self.http.prefix(), rel@), Some(b), r);
        }
        r
    }

    /// Finds the first element below this one; it is scoped below the same
    /// session, not below this element.
    pub fn find_element<L: LocatorStrategy>(&self, using: &L, value: &str) -> (r: Result<DefaultElement<I>, ClientError>)
        ensures
            exists|b: Json, q: Result<Json, ClientError>|
                is_locator_object(b, using.using(), value@)
                && #[trigger] called(self.transport(), Method::Post, self.path("element"@), Some(b), q)
                && found_one(q, self.session_scope().prefix(), self.transport(), r),
    {
        let q: Result<Json, ClientError> = self.submit("element", locator_body(using, value));
        match q {
            Ok(v) => element_from_value(self.http.inner(), &v),
            Err(e) => Err(e),
        }
    }

    /// Finds the elements below this one, each scoped below the same session.
    pub fn find_elements<L: LocatorStrategy>(&self, using: &L, value: &str) -> (r: Result<Vec<DefaultElement<I>>, ClientError>)
        ensures
            exists|b: Json, q: Result<Json, ClientError>|
                is_locator_object(b, using.using(), value@)
                && #[trigger] called(self.transport(), Method::Post, self.path("elements"@), Some(b), q)
                && found_many(q, self.session_scope().prefix(), self.transport(), r),
    {
        let q: Result<Json, ClientError> = self.submit("elements", locator_body(using, value));
        match q {
            Ok(v) => elements_from_value(self.http.inner(), &v),
            Err(e) => Err(e),
        }
    }

    pub fn is_selected(&self) -> (r: Result<bool, ClientError>)
        ensures
            called(self.transport(), Method::Get, self.path("selected"@), None, r),
    {
        self.fetch("selected")
    }

    pub fn get_attribute(&self, name: &str) -> (r: Result<String, ClientError>)
        ensures
            called(self.transport(), Method::Get, self.path("attribute/"@ + name@), None, r),
    {
        self.fetch(sub_path("attribute/", name).as_str())
    }

    pub fn get_property(&self, name: &str) -> (r: Result<String, ClientError>)
        ensures
            called(self.transport(), Method::Get, self.path("property/"@ + name@), None, r),
    {
        self.fetch(sub_path("property/", name).as_str())
    }

    pub fn get_css_value(&self, name: &str) -> (r: Result<String, ClientError>)
        ensures
            called(self.transport(), Method::Get, self.path("css/"@ + name@), None, r),
    {
        self.fetch(sub_path("css/", name).as_str())
    }

    pub fn get_text(&self) -> (r: Result<String, ClientError>)
        ensures
            called(self.transport(), Method::Get, self.path("text"@), None, r),
    {
        self.fetch("text")
    }

    pub fn get_tag_name(&self) -> (r: Result<String, ClientError>)
        ensures
            called(self.transport(), Method::Get, self.path("name"@), None, r),
    {
        self.fetch("name")
    }

    pub fn get_rect(&self) -> (r: Result<Rect, ClientError>)
        ensures
            called(self.transport(), Method::Get, self.path("rect"@), None, r),
    {
        self.fetch("rect")
    }

    pub fn is_enabled(&self) -> (r: Result<bool, ClientError>)
        ensures
            called(self.transport(), Method::Get, self.path("enabled"@), None, r),
    {
        self.fetch("enabled")
    }

    pub fn click(&self) -> (r: Result<(), ClientError>)
        ensures
            exists|b: Json| is_empty_object(b) && #[trigger] called(self.transport(), Method::Post, self.path("click"@), Some(b), r),
    {
        self.submit("click", empty_body())
    }

    pub fn clear(&self) -> (r: Result<(), ClientError>)
        ensures
            exists|b: Json| is_empty_object(b) && #[trigger] called(self.transport(), Method::Post, self.path("clear"@), Some(b), r),
    {
        self.submit("clear", empty_body())
    }

    pub fn send_keys(&self, text: &str) -> (r: Result<(), ClientError>)
        ensures
            exists|b: Json| is_text_object(b, "text"@, text@) && #[trigger] called(self.transport(), Method::Post, self.path("value"@), Some(b), r),
    {
        self.submit("value", text_body("text", text))
    }

    pub fn take_screenshot(&self) -> (r: Result<String, ClientError>)
        ensures
            called(self.transport(), Method::Get, self.path("screenshot"@), None, r),
    {
        self.fetch("screenshot")
    }
}

/// `base` followed by `name`, as in `attribute/href`.
pub fn sub_path(base: &str, name: &str) -> (r: String)
    ensures
        r@ == base@ + name@,
{
    let mut p = base.to_owned();
    p.append(name);
    p
}

} // verus!
