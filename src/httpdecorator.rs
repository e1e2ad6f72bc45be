use vstd::prelude::*;
use crate::client::{HttpExecutor, Method, called, same_transport, reads_as};
use crate::decode::FromJson;
use crate::json::Json;
use crate::path::{join, join_path, is_segment, lemma_join_nested, lemma_join_empty};
use crate::structs::ClientError;

verus! {

/// A transport scoped to a path prefix: every call goes to `inner` with the
/// prefix joined in front of its path.
pub struct HttpExecutorPathDecorator<H: HttpExecutor> {
    path: String,
    inner: Box<H>,
}

impl<H: HttpExecutor> HttpExecutorPathDecorator<H> {
    pub fn new(facade: Box<H>, path: String) -> (r: Self)
        ensures
            r.prefix() == path@,
            r.inner_view() == *facade,
    {
        HttpExecutorPathDecorator { path, inner: facade }
    }

    /// The prefix of this scope.
    pub closed spec fn prefix(&self) -> Seq<char> {
        self.path@
    }

    /// The transport that this scope wraps.
    pub closed spec fn inner_view(&self) -> H {
        *self.inner
    }

    pub fn inner(&self) -> (r: &H)
        ensures
            *r == self.inner_view(),
    {
        &self.inner
    }

    pub fn into_inner(self) -> (r: Box<H>)
        ensures
            *r == self.inner_view(),
    {
        self.inner
    }

    /// The path, below the wrapped transport, that `rel` denotes in this scope.
    pub fn scoped(&self, rel: &str) -> (r: String)
        ensures
            r@ == join(self.prefix(), rel@),
    {
        join_path(self.path.as_str(), rel)
    }

    /// A second scope with the same prefix over a second handle on the
    /// wrapped transport.
    pub fn copy_scope(&self) -> (r: Self)
        ensures
            r.prefix() == self.prefix(),
            same_transport(r.inner_view(), self.inner_view()),
    {
        HttpExecutorPathDecorator { path: self.path.clone(), inner: Box::new(self.inner.duplicate()) }
    }
}

impl<H: HttpExecutor> Clone for HttpExecutorPathDecorator<H> {
    fn clone(&self) -> Self {
        self.copy_scope()
    }
}

impl<H: HttpExecutor> HttpExecutor for HttpExecutorPathDecorator<H> {
    open spec fn target(&self, path: Seq<char>) -> Seq<char> {
        self.inner_view().target(join(self.prefix(), path))
    }

    open spec fn answers(
        &self,
        method: Method,
        path: Seq<char>,
        body: Option<Json>,
        reply: Result<Json, ClientError>,
    ) -> bool {
        self.inner_view().answers(method, path, body, reply)
    }

    fn route(&self, path: &str) -> (r: String) {
        self.inner.route(self.scoped(path).as_str())
    }

    fn duplicate(&self) -> (r: Self) {
        let r = self.copy_scope();
        assert forall|p: Seq<char>| #[trigger] r.target(p) == self.target(p) by {
            assert(r.inner_view().target(join(r.prefix(), p)) == self.inner_view().target(
                join(self.prefix(), p),
            ));
        }
        r
    }

    fn get<T: FromJson>(&self, path: &str) -> (r: Result<T, ClientError>) {
        let q = self.scoped(path);
        let r = self.inner.get(q.as_str());
        proof {
            let h = self.inner_view();
            let a = choose|a: Result<Json, ClientError>|
                #[trigger] h.answers(Method::Get, h.target(q@), None, a) && reads_as(a, r);
            assert(self.answers(Method::Get, self.target(path@), None, a));
        }
        r
    }

    fn post<T: FromJson>(&self, path: &str, body: Json) -> (r: Result<T, ClientError>) {
        let ghost b = body;
        let q = self.scoped(path);
        let r = self.inner.post(q.as_str(), body);
        proof {
            let h = self.inner_view();
            let a = choose|a: Result<Json, ClientError>|
                #[trigger] h.answers(Method::Post, h.target(q@), Some(b), a) && reads_as(a, r);
            assert(self.answers(Method::Post, self.target(path@), Some(b), a));
        }
        r
    }

    fn delete<T: FromJson>(&self, path: &str) -> (r: Result<T, ClientError>) {
        let q = self.scoped(path);
        let r = self.inner.delete(q.as_str());
        proof {
            let h = self.inner_view();
            let a = choose|a: Result<Json, ClientError>|
                #[trigger] h.answers(Method::Delete, h.target(q@), None, a) && reads_as(a, r);
            assert(self.answers(Method::Delete, self.target(path@), None, a));
        }
        r
    }
}

/// A call through a scope is the call on the wrapped transport at the
/// prefix joined with the relative path.
pub proof fn lemma_scope_call<H: HttpExecutor, T: FromJson>(
    d: HttpExecutorPathDecorator<H>,
    method: Method,
    path: Seq<char>,
    body: Option<Json>,
    r: Result<T, ClientError>,
)
    ensures
        called(d, method, path, body, r) == called(d.inner_view(), method, join(d.prefix(), path), body, r),
{
    let h = d.inner_view();
    let q = join(d.prefix(), path);
    assert(d.target(path) == h.target(q));
    if called(d, method, path, body, r) {
        let a = choose|a: Result<Json, ClientError>| #[trigger] d.answers(method, d.target(path), body, a) && reads_as(a, r);
        assert(h.answers(method, h.target(q), body, a));
    }
    if called(h, method, q, body, r) {
        let a = choose|a: Result<Json, ClientError>| #[trigger] h.answers(method, h.target(q), body, a) && reads_as(a, r);
        assert(d.answers(method, d.target(path), body, a));
    }
}

/// A scope nested in a scope reaches the same paths as one scope whose prefix
/// is the two prefixes joined, when the inner layer's prefix is a segment.
pub proof fn lemma_nested_scope<H: HttpExecutor>(
    nested: HttpExecutorPathDecorator<HttpExecutorPathDecorator<H>>,
    flat: HttpExecutorPathDecorator<H>,
    rel: Seq<char>,
)
    requires
        is_segment(nested.prefix()),
        flat.inner_view() == nested.inner_view().inner_view(),
        flat.prefix() == join(nested.inner_view().prefix(), nested.prefix()),
    ensures
        nested.target(rel) == flat.target(rel),
{
    lemma_join_nested(nested.inner_view().prefix(), nested.prefix(), rel);
}

/// A call through a scope nested in a scope is the same call, on the same
/// root transport and at the same path, as through one scope whose prefix is
/// the two prefixes joined, when the inner layer's prefix is a segment.
pub proof fn lemma_nested_scope_call<H: HttpExecutor, T: FromJson>(
    nested: HttpExecutorPathDecorator<HttpExecutorPathDecorator<H>>,
    flat: HttpExecutorPathDecorator<H>,
    method: Method,
    rel: Seq<char>,
    body: Option<Json>,
    r: Result<T, ClientError>,
)
    requires
        is_segment(nested.prefix()),
        flat.inner_view() == nested.inner_view().inner_view(),
        flat.prefix() == join(nested.inner_view().prefix(), nested.prefix()),
    ensures
        called(nested, method, rel, body, r) == called(flat, method, rel, body, r),
        called(nested, method, rel, body, r) == called(
            flat.inner_view(),
            method,
            join(flat.prefix(), rel),
            body,
            r,
        ),
{
    let inner = nested.inner_view();
    lemma_scope_call(nested, method, rel, body, r);
    lemma_scope_call(inner, method, join(nested.prefix(), rel), body, r);
    lemma_scope_call(flat, method, rel, body, r);
    lemma_join_nested(inner.prefix(), nested.prefix(), rel);
}

/// A call through a scope with an empty relative path reaches the wrapped
/// transport at the prefix itself, with no trailing slash.
pub proof fn lemma_empty_scope_call<H: HttpExecutor, T: FromJson>(
    d: HttpExecutorPathDecorator<H>,
    method: Method,
    body: Option<Json>,
    r: Result<T, ClientError>,
)
    requires
        is_segment(d.prefix()),
    ensures
        called(d, method, Seq::empty(), body, r) == called(d.inner_view(), method, d.prefix(), body, r),
{
    lemma_scope_call(d, method, Seq::empty(), body, r);
    lemma_join_empty(d.prefix());
}

} // verus!
