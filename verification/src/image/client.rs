//! The registry client: which requests it sends and how it reads the answers.
//!
//! The client holds the registry's base URL and the credential. It builds
//! requests and interprets responses; sending is left to the caller.

use vstd::prelude::*;

use crate::error::{PullError, RegistryError};
use crate::image::codec::{
    decode_index, decode_token, index_of, token_of, INDEX_MEDIA_TYPE, MANIFEST_MEDIA_TYPE,
};
use crate::image::model::{IndexView, OciImageIndex};
use crate::json::{parse, parsed, Json, JsonValue};
use crate::text::concat;

verus! {

/// Where tokens are issued.
pub const TOKEN_ENDPOINT: &'static str = "https://auth.docker.io/token";

/// The service that tokens are asked for.
pub const TOKEN_SERVICE: &'static str = "registry.docker.io";

/// How the client names itself to the registry.
pub const USER_AGENT: &'static str = "athlete (https://github.com/Nilstrieb/athlete)";

/// Name of the header that states the protocol version, sent with every
/// request.
pub const API_VERSION_HEADER: &'static str = "Docker-Distribution-Api-Version";

/// Value of the protocol version header.
pub const API_VERSION: &'static str = "registry/2.0";

/// A GET request, ready to be sent.
#[derive(Clone, Debug, PartialEq, Eq)]
pub struct Request {
    pub url: String,
    /// Query parameters, to be encoded and appended to the URL.
    pub query: Vec<(String, String)>,
    pub headers: Vec<(String, String)>,
}

pub struct RequestView {
    pub url: Seq<char>,
    pub query: Seq<(Seq<char>, Seq<char>)>,
    pub headers: Seq<(Seq<char>, Seq<char>)>,
}

impl View for Request {
    type V = RequestView;

    open spec fn view(&self) -> RequestView {
        RequestView {
            url: self.url@,
            query: self.query.deep_view(),
            headers: self.headers.deep_view(),
        }
    }
}

impl DeepView for Request {
    type V = RequestView;

    open spec fn deep_view(&self) -> RequestView {
        self@
    }
}

/// What came back for a request: the status and the unread body.
#[derive(Clone, Debug, PartialEq, Eq)]
pub struct Response {
    pub status: u16,
    pub body: Vec<u8>,
}

/// The error that a status stands for: none for 200 to 299, `NotFound` for
/// 404, `Http` with the status for every other one.
pub open spec fn status_error(status: u16) -> Option<RegistryError> {
    if 200 <= status <= 299 {
        None
    } else if status == 404 {
        Some(RegistryError::NotFound)
    } else {
        Some(RegistryError::Http { status })
    }
}

/// The value of the `Authorization` header for a token.
pub open spec fn bearer(token: Seq<char>) -> Seq<char> {
    "Bearer "@ + token
}

/// The request that exchanges a scope for a token.
pub open spec fn token_request_of(scope: Seq<char>) -> RequestView {
    RequestView {
        url: TOKEN_ENDPOINT@,
        query: seq![("scope"@, scope), ("service"@, TOKEN_SERVICE@)],
        headers: Seq::empty(),
    }
}

/// The token that a token response yields: the status must lie in 200 to 299
/// and the body must be a JSON object with a string member `token`.
pub open spec fn token_reply(status: u16, doc: Option<JsonValue>) -> Option<Seq<char>> {
    if status_error(status) is None {
        match doc {
            Some(j) => token_of(j),
            None => None,
        }
    } else {
        None
    }
}

/// The index that a response yields.
pub open spec fn index_reply(status: u16, doc: Option<JsonValue>) -> Result<
    IndexView,
    RegistryError,
> {
    match status_error(status) {
        Some(e) => Err(e),
        None => match doc {
            Some(j) => match index_of(j) {
                Some(x) => Ok(x),
                None => Err(RegistryError::Decode),
            },
            None => Err(RegistryError::Decode),
        },
    }
}

pub struct ClientView {
    pub base: Seq<char>,
    pub token: Seq<char>,
    pub accept_invalid_certs: bool,
}

impl ClientView {
    /// The request for the index of `image` at `reference`.
    pub open spec fn index_request(self, image: Seq<char>, reference: Seq<char>) -> RequestView {
        RequestView {
            url: self.base + image + "/manifests/"@ + reference,
            query: Seq::empty(),
            headers: seq![("Accept"@, INDEX_MEDIA_TYPE@), ("Authorization"@, self.token)],
        }
    }

    /// The request for the manifest of `image` with the given digest.
    pub open spec fn manifest_request(self, image: Seq<char>, digest: Seq<char>) -> RequestView {
        RequestView {
            url: self.base + image + "/manifests/"@ + digest,
            query: Seq::empty(),
            headers: seq![("Accept"@, MANIFEST_MEDIA_TYPE@), ("Authorization"@, self.token)],
        }
    }

    /// The request for a blob of `image` with the given digest.
    pub open spec fn blob_request(self, image: Seq<char>, digest: Seq<char>) -> RequestView {
        RequestView {
            url: self.base + image + "/blobs/"@ + digest,
            query: Seq::empty(),
            headers: seq![("Authorization"@, self.token)],
        }
    }
}

/// A client bound to one registry.
#[derive(Clone, Debug, PartialEq, Eq)]
pub struct Client {
    base: String,
    token: String,
    accept_invalid_certs: bool,
}

impl View for Client {
    type V = ClientView;

    closed spec fn view(&self) -> ClientView {
        ClientView {
            base: self.base@,
            token: self.token@,
            accept_invalid_certs: self.accept_invalid_certs,
        }
    }
}

fn pair(name: &str, value: &str) -> (p: (String, String))
    ensures
        p.0@ == name@,
        p.1@ == value@,
{
    (name.to_owned(), value.to_owned())
}

/// Checks the status of a response: `Ok` for 200 to 299, the error that the
/// status stands for otherwise.
pub fn check_status(status: u16) -> (r: Result<(), RegistryError>)
    ensures
        match status_error(status) {
            Some(e) => r == Err::<(), RegistryError>(e),
            None => r is Ok,
        },
{
    if 200 <= status && status <= 299 {
        Ok(())
    } else if status == 404 {
        Err(RegistryError::NotFound)
    } else {
        Err(RegistryError::Http { status })
    }
}

/// Reads an index out of a response whose body has been read as JSON; `doc`
/// is `None` where the body is no JSON document.
pub fn index_from_reply(status: u16, doc: &Option<Json>) -> (r: Result<OciImageIndex, RegistryError>)
    ensures
        match r {
            Ok(x) => index_reply(status, doc.deep_view()) == Ok::<IndexView, RegistryError>(x@),
            Err(e) => index_reply(status, doc.deep_view()) == Err::<IndexView, RegistryError>(e),
        },
{
    match check_status(status) {
        Err(e) => {
            return Err(e);
        },
        Ok(_) => {},
    }
    match doc {
        Some(j) => match decode_index(j) {
            Some(x) => Ok(x),
            None => Err(RegistryError::Decode),
        },
        None => Err(RegistryError::Decode),
    }
}

/// Reads an index out of a response.
pub fn read_index(response: &Response) -> (r: Result<OciImageIndex, RegistryError>)
    ensures
        match r {
            Ok(x) => index_reply(response.status, parsed(response.body@)) == Ok::<
                IndexView,
                RegistryError,
            >(x@),
            Err(e) => index_reply(response.status, parsed(response.body@)) == Err::<
                IndexView,
                RegistryError,
            >(e),
        },
{
    let doc = parse(response.body.as_slice());
    index_from_reply(response.status, &doc)
}

/// Takes the raw body out of a response, for a manifest or a blob: the body
/// is handed on unread, so that it can be checked against its digest and
/// stored as it came.
pub fn read_body(response: Response) -> (r: Result<Vec<u8>, RegistryError>)
    ensures
        match status_error(response.status) {
            Some(e) => r == Err::<Vec<u8>, RegistryError>(e),
            None => r == Ok::<Vec<u8>, RegistryError>(response.body),
        },
{
    match check_status(response.status) {
        Err(e) => Err(e),
        Ok(_) => Ok(response.body),
    }
}

impl Client {
    /// A client for the registry whose API root is `base`, without a
    /// credential, and which insists on valid certificates.
    pub fn new(base: String) -> (client: Client)
        ensures
            client@ == (ClientView {
                base: base@,
                token: Seq::<char>::empty(),
                accept_invalid_certs: false,
            }),
    {
        Client { base, token: String::new(), accept_invalid_certs: false }
    }

    /// Sets whether invalid certificates are to be accepted. They are not,
    /// unless this is called with `true`.
    pub fn danger_accept_invalid_certs(self, accept: bool) -> (client: Client)
        ensures
            client@ == (ClientView { accept_invalid_certs: accept, ..self@ }),
    {
        Client { base: self.base, token: self.token, accept_invalid_certs: accept }
    }

    /// Whether invalid certificates are to be accepted.
    pub fn accepts_invalid_certs(&self) -> (accept: bool)
        ensures
            accept == self@.accept_invalid_certs,
    {
        self.accept_invalid_certs
    }

    /// The registry's API root.
    pub fn base(&self) -> (base: &str)
        ensures
            base@ == self@.base,
    {
        self.base.as_str()
    }

    /// The value of the `Authorization` header; empty before a token is held.
    pub fn authorization(&self) -> (value: &str)
        ensures
            value@ == self@.token,
    {
        self.token.as_str()
    }

    /// The request that exchanges `scope` for a token.
    pub fn token_request(scope: &str) -> (request: Request)
        ensures
            request@ == token_request_of(scope@),
    {
        let mut query: Vec<(String, String)> = Vec::new();
        query.push(pair("scope", scope));
        query.push(pair("service", TOKEN_SERVICE));
        let headers: Vec<(String, String)> = Vec::new();
        let request = Request { url: TOKEN_ENDPOINT.to_owned(), query, headers };
        assert(request@.query =~= token_request_of(scope@).query);
        assert(request@.headers =~= token_request_of(scope@).headers);
        request
    }

    /// Holds `token` as the credential from now on, in the form that the
    /// `Authorization` header takes.
    pub fn set_token(&mut self, token: &str)
        ensures
            final(self)@ == (ClientView { token: bearer(token@), ..old(self)@ }),
    {
        self.token = concat("Bearer ", token);
    }

    /// Takes the token out of a token response whose body has been read as
    /// JSON, and holds it as the credential. Fails with `Auth`, and keeps the
    /// credential it had, when the response yields no token.
    pub fn token_from_reply(&mut self, status: u16, doc: &Option<Json>) -> (r: Result<(), PullError>)
        ensures
            match token_reply(status, doc.deep_view()) {
                Some(t) => r is Ok && final(self)@ == (ClientView {
                    token: bearer(t),
                    ..old(self)@
                }),
                None => r == Err::<(), PullError>(PullError::Auth) && final(self)@ == old(self)@,
            },
    {
        if check_status(status).is_err() {
            return Err(PullError::Auth);
        }
        let token = match doc {
            Some(j) => decode_token(j),
            None => None,
        };
        match token {
            Some(t) => {
                self.set_token(t.as_str());
                Ok(())
            },
            None => Err(PullError::Auth),
        }
    }

    /// Takes the token out of a token response and holds it as the
    /// credential.
    pub fn token(&mut self, response: &Response) -> (r: Result<(), PullError>)
        ensures
            match token_reply(response.status, parsed(response.body@)) {
                Some(t) => r is Ok && final(self)@ == (ClientView {
                    token: bearer(t),
                    ..old(self)@
                }),
                None => r == Err::<(), PullError>(PullError::Auth) && final(self)@ == old(self)@,
            },
    {
        let doc = parse(response.body.as_slice());
        self.token_from_reply(response.status, &doc)
    }

    fn url(&self, image: &str, part: &str, name: &str) -> (url: String)
        ensures
            url@ == self@.base + image@ + part@ + name@,
    {
        let mut url = concat(self.base.as_str(), image);
        url.append(part);
        url.append(name);
        url
    }

    /// The request for the index of `image` at `reference`.
    pub fn get_manifests(&self, image: &str, reference: &str) -> (request: Request)
        ensures
            request@ == self@.index_request(image@, reference@),
    {
        let mut headers: Vec<(String, String)> = Vec::new();
        headers.push(pair("Accept", INDEX_MEDIA_TYPE));
        headers.push(pair("Authorization", self.token.as_str()));
        let query: Vec<(String, String)> = Vec::new();
        let request = Request { url: self.url(image, "/manifests/", reference), query, headers };
        assert(request@.query =~= self@.index_request(image@, reference@).query);
        assert(request@.headers =~= self@.index_request(image@, reference@).headers);
        request
    }

    /// The request for the manifest of `image` with the given digest.
    pub fn get_manifest_from_digest(&self, image: &str, digest: &str) -> (request: Request)
        ensures
            request@ == self@.manifest_request(image@, digest@),
    {
        let mut headers: Vec<(String, String)> = Vec::new();
        headers.push(pair("Accept", MANIFEST_MEDIA_TYPE));
        headers.push(pair("Authorization", self.token.as_str()));
        let query: Vec<(String, String)> = Vec::new();
        let request = Request { url: self.url(image, "/manifests/", digest), query, headers };
        assert(request@.query =~= self@.manifest_request(image@, digest@).query);
        assert(request@.headers =~= self@.manifest_request(image@, digest@).headers);
        request
    }

    /// The request for a blob of `image` with the given digest.
    pub fn get_blob(&self, image: &str, digest: &str) -> (request: Request)
        ensures
            request@ == self@.blob_request(image@, digest@),
    {
        let mut headers: Vec<(String, String)> = Vec::new();
        headers.push(pair("Authorization", self.token.as_str()));
        let query: Vec<(String, String)> = Vec::new();
        let request = Request { url: self.url(image, "/blobs/", digest), query, headers };
        assert(request@.query =~= self@.blob_request(image@, digest@).query);
        assert(request@.headers =~= self@.blob_request(image@, digest@).headers);
        request
    }
}

} // verus!
