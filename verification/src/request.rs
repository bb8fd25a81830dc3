//! The description of one call: verb, path, parameters and an optional
//! account on whose behalf it is made.

use crate::form::{Fields, Params};
use std::marker::PhantomData;
use vstd::prelude::*;

verus! {

/// The HTTP verbs that the service accepts.
#[derive(Clone, Copy, Debug, PartialEq, Eq, Structural)]
pub enum Method {
    Get,
    Post,
    Delete,
}

impl Method {
    /// Whether a request with this verb carries its parameters in the body
    /// rather than in the query string.
    pub open spec fn carries_body(self) -> bool {
        self == Method::Post
    }

    /// The verb as it is written on the wire.
    pub open spec fn token(self) -> Seq<char> {
        match self {
            Method::Get => "GET"@,
            Method::Post => "POST"@,
            Method::Delete => "DELETE"@,
        }
    }

    /// Whether a request with this verb carries its parameters in the body.
    pub fn has_body(&self) -> (b: bool)
        ensures
            b == self.carries_body(),
    {
        match self {
            Method::Post => true,
            _ => false,
        }
    }

    /// The verb as it is written on the wire.
    pub fn as_str(&self) -> (s: &'static str)
        ensures
            s@ == self.token(),
    {
        match self {
            Method::Get => "GET",
            Method::Post => "POST",
            Method::Delete => "DELETE",
        }
    }
}

/// The path of the entry `segment` below the path `base`.
pub open spec fn joined(base: Seq<char>, segment: Seq<char>) -> Seq<char> {
    base + seq!['/'] + segment
}

/// The path of the entry `segment` below the path `base`. The segment is
/// put in as it is, without escaping.
pub fn join_path(base: &str, segment: &str) -> (path: String)
    ensures
        path@ == joined(base@, segment@),
{
    let mut path = String::from_str(base);
    path.push('/');
    path.append(segment);
    path
}

/// The fields of an optional parameter list.
pub open spec fn fields_of_option(params: Option<Params>) -> Option<Fields> {
    match params {
        Some(p) => Some(p@),
        None => None,
    }
}

/// The text of an optional string.
pub open spec fn text_of_option(text: Option<String>) -> Option<Seq<char>> {
    match text {
        Some(t) => Some(t@),
        None => None,
    }
}

/// What a request says, apart from the type of the value it asks for.
pub ghost struct RequestModel {
    pub method: Method,
    pub path: Seq<char>,
    pub query_params: Option<Fields>,
    pub body_params: Option<Fields>,
    pub tenant_override: Option<Seq<char>>,
}

impl RequestModel {
    /// The path begins with a slash, and of the two parameter lists exactly
    /// the one that the verb carries is there: the body of a POST, the query
    /// of a GET or DELETE.
    pub open spec fn wf(self) -> bool {
        &&& self.path.len() > 0
        &&& self.path[0] == '/'
        &&& self.query_params is Some <==> !self.method.carries_body()
        &&& self.body_params is Some <==> self.method.carries_body()
    }

    /// A request with this verb and path and with no parameters.
    pub open spec fn bare(method: Method, path: Seq<char>) -> RequestModel {
        RequestModel {
            method,
            path,
            query_params: if method.carries_body() {
                None
            } else {
                Some(Fields::empty())
            },
            body_params: if method.carries_body() {
                Some(Fields::empty())
            } else {
                None
            },
            tenant_override: None,
        }
    }
}

/// The description of one call that yields a `T`.
#[derive(Debug)]
pub struct ApiRequest<T> {
    method: Method,
    path: String,
    query_params: Option<Params>,
    body_params: Option<Params>,
    stripe_account: Option<String>,
    phantom: PhantomData<T>,
}

impl<T> View for ApiRequest<T> {
    type V = RequestModel;

    closed spec fn view(&self) -> RequestModel {
        RequestModel {
            method: self.method,
            path: self.path@,
            query_params: fields_of_option(self.query_params),
            body_params: fields_of_option(self.body_params),
            tenant_override: text_of_option(self.stripe_account),
        }
    }
}

impl<T> ApiRequest<T> {
    #[verifier::type_invariant]
    spec fn inv(&self) -> bool {
        self@.wf()
    }

    /// A request with the given verb and path and with no parameters.
    pub fn new(method: Method, path: &str) -> (r: Self)
        requires
            path@.len() > 0,
            path@[0] == '/',
        ensures
            r@ == RequestModel::bare(method, path@),
            r@.wf(),
    {
        let with_body = method.has_body();
        ApiRequest {
            method,
            path: String::from_str(path),
            query_params: if with_body {
                None
            } else {
                Some(Params::new())
            },
            body_params: if with_body {
                Some(Params::new())
            } else {
                None
            },
            stripe_account: None,
            phantom: PhantomData,
        }
    }

    /// A GET request without parameters.
    pub fn get(path: &str) -> (r: Self)
        requires
            path@.len() > 0,
            path@[0] == '/',
        ensures
            r@ == RequestModel::bare(Method::Get, path@),
            r@.wf(),
    {
        Self::new(Method::Get, path)
    }

    /// A POST request with an empty body.
    pub fn post(path: &str) -> (r: Self)
        requires
            path@.len() > 0,
            path@[0] == '/',
        ensures
            r@ == RequestModel::bare(Method::Post, path@),
            r@.wf(),
    {
        Self::new(Method::Post, path)
    }

    /// A DELETE request without parameters.
    pub fn delete(path: &str) -> (r: Self)
        requires
            path@.len() > 0,
            path@[0] == '/',
        ensures
            r@ == RequestModel::bare(Method::Delete, path@),
            r@.wf(),
    {
        Self::new(Method::Delete, path)
    }

    /// The same POST request with `body` as its parameters.
    pub fn with_body_params(self, body: Params) -> (r: Self)
        requires
            self@.method.carries_body(),
        ensures
            r@ == (RequestModel { body_params: Some(body@), ..self@ }),
            r@.wf(),
    {
        proof {
            use_type_invariant(&self);
        }
        ApiRequest {
            method: self.method,
            path: self.path,
            query_params: self.query_params,
            body_params: Some(body),
            stripe_account: self.stripe_account,
            phantom: PhantomData,
        }
    }

    /// The same GET or DELETE request with `query` as its parameters.
    pub fn with_query_params(self, query: Params) -> (r: Self)
        requires
            !self@.method.carries_body(),
        ensures
            r@ == (RequestModel { query_params: Some(query@), ..self@ }),
            r@.wf(),
    {
        proof {
            use_type_invariant(&self);
        }
        ApiRequest {
            method: self.method,
            path: self.path,
            query_params: Some(query),
            body_params: self.body_params,
            stripe_account: self.stripe_account,
            phantom: PhantomData,
        }
    }

    /// The same request made on behalf of the account `stripe_account`,
    /// whatever account the client is set up for.
    pub fn for_stripe_account(self, stripe_account: &str) -> (r: Self)
        ensures
            r@ == (RequestModel { tenant_override: Some(stripe_account@), ..self@ }),
            r@.wf(),
    {
        proof {
            use_type_invariant(&self);
        }
        ApiRequest {
            method: self.method,
            path: self.path,
            query_params: self.query_params,
            body_params: self.body_params,
            stripe_account: Some(String::from_str(stripe_account)),
            phantom: PhantomData,
        }
    }

    /// The verb.
    pub fn method(&self) -> (m: Method)
        ensures
            m == self@.method,
    {
        self.method
    }

    /// The path, which begins with a slash.
    pub fn path(&self) -> (p: &str)
        ensures
            p@ == self@.path,
            p@.len() > 0,
            p@[0] == '/',
    {
        proof {
            use_type_invariant(self);
        }
        self.path.as_str()
    }

    /// The parameters that go into the query string: present exactly for
    /// a GET or DELETE.
    pub fn query_params(&self) -> (q: Option<&Params>)
        ensures
            q is Some <==> !self@.method.carries_body(),
            self@.query_params == match q {
                Some(p) => Some(p@),
                None => None,
            },
    {
        proof {
            use_type_invariant(self);
        }
        self.query_params.as_ref()
    }

    /// The parameters that go into the body: present exactly for a POST.
    pub fn body_params(&self) -> (b: Option<&Params>)
        ensures
            b is Some <==> self@.method.carries_body(),
            self@.body_params == match b {
                Some(p) => Some(p@),
                None => None,
            },
    {
        proof {
            use_type_invariant(self);
        }
        self.body_params.as_ref()
    }

    /// The account on whose behalf this one request is made, if it names
    /// one.
    pub fn stripe_account(&self) -> (a: Option<&String>)
        ensures
            self@.tenant_override == match a {
                Some(t) => Some(t@),
                None => None,
            },
    {
        self.stripe_account.as_ref()
    }
}

} // verus!
