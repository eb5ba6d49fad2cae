//! The client's configuration and the requests it sends.
use crate::fields::opt_text;
use vstd::prelude::*;

verus! {

/// The address that every endpoint path is appended to.
pub open spec fn base_url() -> Seq<char> {
    "https://api.usercheck.com"@
}

/// The URL of an endpoint: the base address, a slash, and the path as given,
/// with no escaping.
pub open spec fn url_of(endpoint: Seq<char>) -> Seq<char> {
    base_url() + "/"@ + endpoint
}

/// The headers that a request carries: the bearer credential where there is
/// one, and nothing otherwise.
pub open spec fn auth_headers(credential: Option<Seq<char>>) -> Seq<(Seq<char>, Seq<char>)> {
    match credential {
        Some(k) => seq![("Authorization"@, "Bearer "@ + k)],
        None => seq![],
    }
}

pub open spec fn domain_endpoint(domain: Seq<char>) -> Seq<char> {
    "domain/"@ + domain
}

pub open spec fn email_endpoint(email: Seq<char>) -> Seq<char> {
    "email/"@ + email
}

/// One header of a request.
#[derive(Debug)]
pub struct Header {
    pub name: String,
    pub value: String,
}

impl View for Header {
    type V = (Seq<char>, Seq<char>);

    open spec fn view(&self) -> (Seq<char>, Seq<char>) {
        (self.name@, self.value@)
    }
}

/// A GET request to send: its URL and its headers.
#[derive(Debug)]
pub struct HttpRequest {
    pub url: String,
    pub headers: Vec<Header>,
}

pub struct HttpRequestView {
    pub url: Seq<char>,
    pub headers: Seq<(Seq<char>, Seq<char>)>,
}

impl View for HttpRequest {
    type V = HttpRequestView;

    open spec fn view(&self) -> HttpRequestView {
        HttpRequestView { url: self.url@, headers: self.headers@.map_values(|h: Header| h@) }
    }
}

/// The GET request for an endpoint, made by a client with `credential`.
pub open spec fn request_of(credential: Option<Seq<char>>, endpoint: Seq<char>) -> HttpRequestView {
    HttpRequestView { url: url_of(endpoint), headers: auth_headers(credential) }
}

/// A client of the service. It holds the optional credential, set once when
/// it is made.
pub struct UserCheckClient {
    api_key: Option<String>,
}

impl View for UserCheckClient {
    type V = Option<Seq<char>>;

    /// The credential.
    closed spec fn view(&self) -> Option<Seq<char>> {
        opt_text(self.api_key)
    }
}

impl UserCheckClient {
    pub fn new(api_key: Option<String>) -> (r: Self)
        ensures
            r@ == opt_text(api_key),
    {
        UserCheckClient { api_key }
    }

    /// The request for `endpoint`, with the credential where there is one.
    pub fn request(&self, endpoint: &str) -> (r: HttpRequest)
        ensures
            r@ == request_of(self@, endpoint@),
    {
        let mut url = String::from_str("https://api.usercheck.com");
        url.append("/");
        url.append(endpoint);
        let mut headers: Vec<Header> = Vec::new();
        if let Some(key) = &self.api_key {
            let mut value = String::from_str("Bearer ");
            value.append(key.as_str());
            headers.push(Header { name: String::from_str("Authorization"), value });
        }
        let r = HttpRequest { url, headers };
        assert(r@.headers =~= auth_headers(self@));
        r
    }

    /// The request that looks up a domain.
    pub fn domain_request(&self, domain: &str) -> (r: HttpRequest)
        ensures
            r@ == request_of(self@, domain_endpoint(domain@)),
    {
        let mut endpoint = String::from_str("domain/");
        endpoint.append(domain);
        self.request(endpoint.as_str())
    }

    /// The request that looks up an email address.
    pub fn email_request(&self, email: &str) -> (r: HttpRequest)
        ensures
            r@ == request_of(self@, email_endpoint(email@)),
    {
        let mut endpoint = String::from_str("email/");
        endpoint.append(email);
        self.request(endpoint.as_str())
    }
}

} // verus!
