//! The description of one request, ready to be sent.

use crate::credentials::{Credentials, Scheme};
use crate::params::{Pairs, Params};
use vstd::prelude::*;

verus! {

/// The four methods that the interface uses.
#[derive(Clone, Copy, Debug, PartialEq, Eq, Structural)]
pub enum Method {
    Get,
    Put,
    Post,
    Delete,
}

impl Method {
    /// Whether a request of this method carries a body: `Put` and `Post` do.
    pub open spec fn carries_body(self) -> bool {
        self == Method::Put || self == Method::Post
    }

    /// The name of the method on the wire.
    pub open spec fn wire_name(self) -> Seq<char> {
        match self {
            Method::Get => "GET"@,
            Method::Put => "PUT"@,
            Method::Post => "POST"@,
            Method::Delete => "DELETE"@,
        }
    }

    /// Whether a request of this method carries a body.
    pub fn has_body(&self) -> (b: bool)
        ensures
            b == self.carries_body(),
    {
        match self {
            Method::Put => true,
            Method::Post => true,
            _ => false,
        }
    }

    /// The name of the method on the wire.
    pub fn name(&self) -> (res: &'static str)
        ensures
            res@ == self.wire_name(),
    {
        match self {
            Method::Get => "GET",
            Method::Put => "PUT",
            Method::Post => "POST",
            Method::Delete => "DELETE",
        }
    }
}

/// One request: where it goes, what it carries, and how it authenticates.
/// The query is kept apart from the address; whoever sends the request
/// encodes it.
pub struct Request {
    pub method: Method,
    pub url: String,
    pub query: Params,
    pub headers: Params,
    pub auth: Option<Credentials>,
    pub body: Option<String>,
}

/// The mathematical model of a `Request`.
pub struct RequestView {
    pub method: Method,
    pub url: Seq<char>,
    pub query: Pairs,
    pub headers: Pairs,
    pub auth: Option<Scheme>,
    pub body: Option<Seq<char>>,
}

/// The model of a text that may be absent.
pub open spec fn text_view(text: Option<String>) -> Option<Seq<char>> {
    match text {
        Some(s) => Some(s@),
        None => None,
    }
}

/// The model of a parameter list that may be absent: an absent list holds
/// nothing.
pub open spec fn params_view(params: Option<Params>) -> Pairs {
    match params {
        Some(p) => p@,
        None => Seq::empty(),
    }
}

/// The model of credentials that may be absent.
pub open spec fn auth_view(auth: Option<Credentials>) -> Option<Scheme> {
    match auth {
        Some(c) => Some(c@),
        None => None,
    }
}

impl View for Request {
    type V = RequestView;

    open spec fn view(&self) -> RequestView {
        RequestView {
            method: self.method,
            url: self.url@,
            query: self.query@,
            headers: self.headers@,
            auth: auth_view(self.auth),
            body: text_view(self.body),
        }
    }
}

} // verus!
