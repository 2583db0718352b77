//! Authentication material, and how it is attached to a request.

use crate::errors::{ConfigFault, Error, ErrorView};
use crate::request::{Request, RequestView};
use vstd::prelude::*;
use vstd::string::*;

verus! {

/// What a client authenticates with.
pub enum Credentials {
    /// A user name and a password.
    Basic { username: String, password: String },
    /// A bearer token.
    Bearer { token: String },
}

/// The mathematical model of `Credentials`.
pub enum Scheme {
    Basic { username: Seq<char>, password: Seq<char> },
    Bearer { token: Seq<char> },
}

impl View for Credentials {
    type V = Scheme;

    open spec fn view(&self) -> Scheme {
        match *self {
            Credentials::Basic { username, password } => Scheme::Basic {
                username: username@,
                password: password@,
            },
            Credentials::Bearer { token } => Scheme::Bearer { token: token@ },
        }
    }
}

/// What is wrong with the credentials of a client, if anything: there are
/// none, or the user name or the token is empty.
pub open spec fn config_fault(credentials: Option<Scheme>) -> Option<ConfigFault> {
    match credentials {
        None => Some(ConfigFault::MissingCredentials),
        Some(Scheme::Basic { username, password }) => if username.len() == 0 {
            Some(ConfigFault::EmptyUsername)
        } else {
            None
        },
        Some(Scheme::Bearer { token }) => if token.len() == 0 {
            Some(ConfigFault::EmptyToken)
        } else {
            None
        },
    }
}

/// `request` with `scheme` as its authentication, and nothing else changed.
pub open spec fn decorated(scheme: Scheme, request: RequestView) -> RequestView {
    RequestView { auth: Some(scheme), ..request }
}

/// Attaching the same credentials a second time changes nothing.
pub proof fn lemma_decorated_twice(scheme: Scheme, request: RequestView)
    ensures
        decorated(scheme, decorated(scheme, request)) == decorated(scheme, request),
{
}

/// Attaching credentials changes nothing but the authentication.
pub proof fn lemma_decorated_keeps(scheme: Scheme, request: RequestView)
    ensures
        decorated(scheme, request).method == request.method,
        decorated(scheme, request).url == request.url,
        decorated(scheme, request).query == request.query,
        decorated(scheme, request).headers == request.headers,
        decorated(scheme, request).body == request.body,
        decorated(scheme, request).auth == Some(scheme),
{
}

impl Clone for Credentials {
    fn clone(&self) -> (res: Credentials)
        ensures
            res@ == self@,
    {
        match self {
            Credentials::Basic { username, password } => Credentials::Basic {
                username: username.clone(),
                password: password.clone(),
            },
            Credentials::Bearer { token } => Credentials::Bearer { token: token.clone() },
        }
    }
}

impl Credentials {
    /// A user name and a password.
    pub fn basic(username: &str, password: &str) -> (res: Credentials)
        ensures
            res@ == (Scheme::Basic { username: username@, password: password@ }),
    {
        Credentials::Basic { username: username.to_owned(), password: password.to_owned() }
    }

    /// A bearer token.
    pub fn bearer(token: &str) -> (res: Credentials)
        ensures
            res@ == (Scheme::Bearer { token: token@ }),
    {
        Credentials::Bearer { token: token.to_owned() }
    }

    /// Whether these credentials can be used, and what is wrong if not.
    pub fn check(&self) -> (res: Result<(), ConfigFault>)
        ensures
            match res {
                Ok(_) => config_fault(Some(self@)) is None,
                Err(fault) => config_fault(Some(self@)) == Some(fault),
            },
    {
        match self {
            Credentials::Basic { username, password } => {
                if username.as_str().is_empty() {
                    Err(ConfigFault::EmptyUsername)
                } else {
                    Ok(())
                }
            },
            Credentials::Bearer { token } => {
                if token.as_str().is_empty() {
                    Err(ConfigFault::EmptyToken)
                } else {
                    Ok(())
                }
            },
        }
    }

    /// Attaches these credentials to `request`. Credentials that cannot be
    /// used are refused, and the request is then dropped unsent.
    pub fn decorate(&self, request: Request) -> (res: Result<Request, Error>)
        ensures
            match res {
                Ok(r) => config_fault(Some(self@)) is None && r@ == decorated(self@, request@),
                Err(e) => config_fault(Some(self@)) matches Some(fault) && e@ == (
                ErrorView::Configuration { fault }),
            },
    {
        match self.check() {
            Ok(_) => {
                let mut request = request;
                request.auth = Some(self.clone());
                Ok(request)
            },
            Err(fault) => Err(Error::Configuration { fault }),
        }
    }
}

} // verus!
