//! The HTTP requests that talk to the provider, as plain values. Whoever
//! holds a transport performs them.

use vstd::prelude::*;

verus! {

/// The host of the provider's API, with the scheme and the closing slash.
pub open spec fn api_host() -> Seq<char> {
    "https://api.twilio.com/"@
}

/// The collection under which the accounts are found.
pub open spec fn accounts_endpoint() -> Seq<char> {
    "https://api.twilio.com/2010-04-01/Accounts"@
}

/// Where the messages of an account are posted.
pub open spec fn messages_url(account_sid: Seq<char>) -> Seq<char> {
    accounts_endpoint() + "/"@ + account_sid + "/Messages.json"@
}

/// Where a message resource is fetched again: the host, then the path that
/// the resource gives for itself, as it stands.
pub open spec fn resource_url(uri: Seq<char>) -> Seq<char> {
    api_host() + uri
}

/// The content type of an encoded form.
pub open spec fn form_content_type() -> Seq<char> {
    "application/x-www-form-urlencoded"@
}

/// The method of a request.
#[derive(Debug, Clone, Copy, PartialEq, Eq, Structural)]
pub enum Method {
    Get,
    Post,
}

/// An HTTP request as a mathematical value.
pub struct RequestView {
    pub method: Method,
    pub url: Seq<char>,
    pub username: Seq<char>,
    pub password: Seq<char>,
    pub content_type: Option<Seq<char>>,
    pub body: Option<Seq<char>>,
}

/// An HTTP request with basic authentication.
#[derive(Debug)]
pub struct HttpRequest {
    pub method: Method,
    pub url: String,
    /// The user of the basic authentication: the account identifier.
    pub username: String,
    /// The password of the basic authentication: the account's token.
    pub password: String,
    /// The `Content-Type` header, where the request has a body.
    pub content_type: Option<String>,
    pub body: Option<String>,
}

impl View for HttpRequest {
    type V = RequestView;

    open spec fn view(&self) -> RequestView {
        RequestView {
            method: self.method,
            url: self.url@,
            username: self.username@,
            password: self.password@,
            content_type: match self.content_type {
                Some(t) => Some(t@),
                None => None,
            },
            body: match self.body {
                Some(b) => Some(b@),
                None => None,
            },
        }
    }
}

/// The request that sends an encoded message.
pub open spec fn post_of(
    account_sid: Seq<char>,
    auth_token: Seq<char>,
    body: Seq<char>,
) -> RequestView {
    RequestView {
        method: Method::Post,
        url: messages_url(account_sid),
        username: account_sid,
        password: auth_token,
        content_type: Some(form_content_type()),
        body: Some(body),
    }
}

/// The request that fetches a message resource again.
pub open spec fn get_of(
    url: Seq<char>,
    account_sid: Seq<char>,
    auth_token: Seq<char>,
) -> RequestView {
    RequestView {
        method: Method::Get,
        url,
        username: account_sid,
        password: auth_token,
        content_type: None,
        body: None,
    }
}

/// The request that sends an encoded message: a POST of the form to the
/// messages of the account, authenticated with the account's identifier and
/// token.
pub fn send_request(account_sid: &str, auth_token: &str, body: String) -> (r: HttpRequest)
    ensures
        r@ == post_of(account_sid@, auth_token@, body@),
{
    let endpoint = String::from_str("https://api.twilio.com/2010-04-01/Accounts");
    let url = endpoint.concat("/").concat(account_sid).concat("/Messages.json");
    HttpRequest {
        method: Method::Post,
        url,
        username: String::from_str(account_sid),
        password: String::from_str(auth_token),
        content_type: Some(String::from_str("application/x-www-form-urlencoded")),
        body: Some(body),
    }
}

/// The request that fetches the resource at `url` again, authenticated like
/// the request that sent the message.
pub fn fetch_request(url: &str, account_sid: &str, auth_token: &str) -> (r: HttpRequest)
    ensures
        r@ == get_of(url@, account_sid@, auth_token@),
{
    HttpRequest {
        method: Method::Get,
        url: String::from_str(url),
        username: String::from_str(account_sid),
        password: String::from_str(auth_token),
        content_type: None,
        body: None,
    }
}

} // verus!
