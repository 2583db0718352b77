//! The configuration of a session, and the requests that it builds.

use crate::credentials::{config_fault, Credentials, Scheme};
use crate::errors::{ConfigFault, Error, ErrorView};
use crate::params::{
    distinct_keys, has_key, lemma_lookup_put_same, lemma_merged_lookup, lookup, merged, put, Pairs,
    Params,
};
use crate::request::{auth_view, params_view, text_view, Method, Request, RequestView};
use vstd::prelude::*;
use vstd::string::*;

verus! {

/// The configuration of a session: the host, the headers that every request
/// carries, and the credentials. A client is a value: to change one is to
/// make another.
pub struct Client {
    host: String,
    headers: Params,
    credentials: Option<Credentials>,
}

/// The mathematical model of a `Client`.
pub struct ClientView {
    pub host: Seq<char>,
    pub headers: Pairs,
    pub credentials: Option<Scheme>,
}

impl View for Client {
    type V = ClientView;

    closed spec fn view(&self) -> ClientView {
        ClientView {
            host: self.host@,
            headers: self.headers@,
            credentials: auth_view(self.credentials),
        }
    }
}

/// The address of a resource: the host, then `/rest/`, the name of the
/// interface, its version and the path of the resource, over https.
pub open spec fn resource_url(
    host: Seq<char>,
    api: Seq<char>,
    version: Seq<char>,
    path: Seq<char>,
) -> Seq<char> {
    "https://"@ + host + "/rest/"@ + api + "/"@ + version + "/"@ + path
}

/// The request that `client` builds: the headers of the client with those of
/// the call set over them, the query of the call, the credentials of the
/// client, and the body only where the method carries one.
pub open spec fn request_of(
    client: ClientView,
    method: Method,
    api: Seq<char>,
    version: Seq<char>,
    path: Seq<char>,
    query: Pairs,
    headers: Pairs,
    body: Option<Seq<char>>,
) -> RequestView {
    RequestView {
        method,
        url: resource_url(client.host, api, version, path),
        query,
        headers: merged(client.headers, headers),
        auth: client.credentials,
        body: if method.carries_body() {
            body
        } else {
            None
        },
    }
}

/// On a name that the client and the call both set, the value of the call
/// stands in the request; every other header of the client and of the call
/// is there as it was set.
pub proof fn lemma_call_headers_win(
    client: ClientView,
    method: Method,
    api: Seq<char>,
    version: Seq<char>,
    path: Seq<char>,
    query: Pairs,
    headers: Pairs,
    body: Option<Seq<char>>,
    name: Seq<char>,
)
    requires
        distinct_keys(headers),
    ensures
        lookup(request_of(client, method, api, version, path, query, headers, body).headers, name)
            == if has_key(headers, name) {
            lookup(headers, name)
        } else {
            lookup(client.headers, name)
        },
{
    lemma_merged_lookup(client.headers, headers, name);
}

/// A header that is set on a copy of a client is carried by the requests of
/// the copy, and the requests of the client it was copied from carry the
/// headers of that client as they were: none of them depends on what was
/// set on the copy.
pub proof fn lemma_copy_leaves_original(
    client: ClientView,
    name: Seq<char>,
    value: Seq<char>,
    method: Method,
    api: Seq<char>,
    version: Seq<char>,
    path: Seq<char>,
    query: Pairs,
    body: Option<Seq<char>>,
)
    ensures
        ({
            let copy = ClientView { headers: put(client.headers, name, value), ..client };
            &&& lookup(
                request_of(copy, method, api, version, path, query, Seq::empty(), body).headers,
                name,
            ) == Some(value)
            &&& request_of(client, method, api, version, path, query, Seq::empty(), body).headers
                == client.headers
            &&& copy.host == client.host
            &&& copy.credentials == client.credentials
        }),
{
    lemma_lookup_put_same(client.headers, name, value);
}

/// The body of a request is the body that was given where the method is
/// `Put` or `Post`, and there is none where it is `Get` or `Delete`.
pub proof fn lemma_body_by_method(
    client: ClientView,
    method: Method,
    api: Seq<char>,
    version: Seq<char>,
    path: Seq<char>,
    query: Pairs,
    headers: Pairs,
    body: Option<Seq<char>>,
)
    ensures
        (method == Method::Get || method == Method::Delete) ==> request_of(
            client,
            method,
            api,
            version,
            path,
            query,
            headers,
            body,
        ).body is None,
        (method == Method::Put || method == Method::Post) ==> request_of(
            client,
            method,
            api,
            version,
            path,
            query,
            headers,
            body,
        ).body == body,
{
}

impl Clone for Client {
    fn clone(&self) -> (res: Client)
        ensures
            res@ == self@,
    {
        let credentials = match &self.credentials {
            Some(c) => Some(c.clone()),
            None => None,
        };
        Client { host: self.host.clone(), headers: self.headers.clone(), credentials }
    }
}

impl Client {
    /// A client for `host` with no headers of its own.
    pub fn new(host: &str, credentials: Option<Credentials>) -> (res: Client)
        ensures
            res@ == (ClientView {
                host: host@,
                headers: Seq::empty(),
                credentials: auth_view(credentials),
            }),
    {
        Client { host: host.to_owned(), headers: Params::new(), credentials }
    }

    /// The host.
    pub fn host(&self) -> (res: &String)
        ensures
            res@ == self@.host,
    {
        &self.host
    }

    /// The headers that every request of this client carries.
    pub fn headers(&self) -> (res: &Params)
        ensures
            res@ == self@.headers,
    {
        &self.headers
    }

    /// The credentials, if the client has any.
    pub fn credentials(&self) -> (res: Option<&Credentials>)
        ensures
            match res {
                Some(c) => self@.credentials == Some(c@),
                None => self@.credentials is None,
            },
    {
        match &self.credentials {
            Some(c) => Some(c),
            None => None,
        }
    }

    /// This client with the header `name` set to `value`. Nothing else
    /// differs, and the client that was given is used up: keep a clone of it
    /// to go on with the headers as they were.
    pub fn add_header(self, name: &str, value: String) -> (res: Client)
        ensures
            res@ == (ClientView { headers: put(self@.headers, name@, value@), ..self@ }),
    {
        let headers = self.headers.with(name.to_owned(), value);
        Client { host: self.host, headers, credentials: self.credentials }
    }

    /// A copy of this client with the header `name` set to `value`. This
    /// client stays as it is.
    pub fn with_header(&self, name: &str, value: String) -> (res: Client)
        ensures
            res@ == (ClientView { headers: put(self@.headers, name@, value@), ..self@ }),
    {
        self.clone().add_header(name, value)
    }

    /// Builds a request. The client must hold credentials that can be used;
    /// otherwise nothing is built.
    pub fn request(
        &self,
        method: Method,
        api: &str,
        version: &str,
        path: &str,
        query: Option<Params>,
        headers: Option<Params>,
        body: Option<String>,
    ) -> (res: Result<Request, Error>)
        ensures
            match res {
                Ok(r) => config_fault(self@.credentials) is None && r@ == request_of(
                    self@,
                    method,
                    api@,
                    version@,
                    path@,
                    params_view(query),
                    params_view(headers),
                    text_view(body),
                ),
                Err(e) => config_fault(self@.credentials) matches Some(fault) && e@ == (
                ErrorView::Configuration { fault }),
            },
    {
        let auth = match &self.credentials {
            None => {
                return Err(Error::Configuration { fault: ConfigFault::MissingCredentials });
            },
            Some(c) => c,
        };
        let mut url = String::from_str("https://");
        url.append(self.host.as_str());
        url.append("/rest/");
        url.append(api);
        url.append("/");
        url.append(version);
        url.append("/");
        url.append(path);
        let mut all = self.headers.clone();
        match &headers {
            Some(extra) => {
                all.extend(extra);
            },
            None => {},
        }
        let request = Request {
            method,
            url,
            query: match query {
                Some(q) => q,
                None => Params::new(),
            },
            headers: all,
            auth: None,
            body: if method.has_body() {
                body
            } else {
                None
            },
        };
        let ghost bare = request@;
        let res = auth.decorate(request);
        proof {
            if res is Ok {
                assert(res->Ok_0@ =~= request_of(
                    self@,
                    method,
                    api@,
                    version@,
                    path@,
                    params_view(query),
                    params_view(headers),
                    text_view(body),
                ));
            }
        }
        res
    }

    /// Builds a `Get` request. It carries no body.
    pub fn get(
        &self,
        api: &str,
        version: &str,
        path: &str,
        query: Option<Params>,
        headers: Option<Params>,
    ) -> (res: Result<Request, Error>)
        ensures
            match res {
                Ok(r) => config_fault(self@.credentials) is None && r@ == request_of(
                    self@,
                    Method::Get,
                    api@,
                    version@,
                    path@,
                    params_view(query),
                    params_view(headers),
                    None,
                ),
                Err(e) => config_fault(self@.credentials) matches Some(fault) && e@ == (
                ErrorView::Configuration { fault }),
            },
    {
        self.request(Method::Get, api, version, path, query, headers, None)
    }

    /// Builds a `Delete` request. It carries no body.
    pub fn delete(
        &self,
        api: &str,
        version: &str,
        path: &str,
        query: Option<Params>,
        headers: Option<Params>,
    ) -> (res: Result<Request, Error>)
        ensures
            match res {
                Ok(r) => config_fault(self@.credentials) is None && r@ == request_of(
                    self@,
                    Method::Delete,
                    api@,
                    version@,
                    path@,
                    params_view(query),
                    params_view(headers),
                    None,
                ),
                Err(e) => config_fault(self@.credentials) matches Some(fault) && e@ == (
                ErrorView::Configuration { fault }),
            },
    {
        self.request(Method::Delete, api, version, path, query, headers, None)
    }

    /// Builds a `Put` request with `body` as its body.
    pub fn put(
        &self,
        api: &str,
        version: &str,
        path: &str,
        query: Option<Params>,
        headers: Option<Params>,
        body: String,
    ) -> (res: Result<Request, Error>)
        ensures
            match res {
                Ok(r) => config_fault(self@.credentials) is None && r@ == request_of(
                    self@,
                    Method::Put,
                    api@,
                    version@,
                    path@,
                    params_view(query),
                    params_view(headers),
                    Some(body@),
                ),
                Err(e) => config_fault(self@.credentials) matches Some(fault) && e@ == (
                ErrorView::Configuration { fault }),
            },
    {
        self.request(Method::Put, api, version, path, query, headers, Some(body))
    }

    /// Builds a `Post` request with `body` as its body.
    pub fn post(
        &self,
        api: &str,
        version: &str,
        path: &str,
        query: Option<Params>,
        headers: Option<Params>,
        body: String,
    ) -> (res: Result<Request, Error>)
        ensures
            match res {
                Ok(r) => config_fault(self@.credentials) is None && r@ == request_of(
                    self@,
                    Method::Post,
                    api@,
                    version@,
                    path@,
                    params_view(query),
                    params_view(headers),
                    Some(body@),
                ),
                Err(e) => config_fault(self@.credentials) matches Some(fault) && e@ == (
                ErrorView::Configuration { fault }),
            },
    {
        self.request(Method::Post, api, version, path, query, headers, Some(body))
    }
}

} // verus!
