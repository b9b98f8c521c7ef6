//! The answers that do not depend on any poll: the version, the headers on
//! every response, and the texts for requests that failed.
use vstd::prelude::*;
use crate::config::setting_or;
use crate::text::concat;

verus! {

/// The method of a request.
#[derive(Clone, Copy, Debug, PartialEq, Eq, Structural)]
pub enum Method {
    Get,
    Put,
    Post,
    Delete,
    Options,
    Head,
    Trace,
    Connect,
    Patch,
}

/// What the answers here read of a request.
#[derive(Debug)]
pub struct Request {
    pub method: Method,
    pub uri: String,
}

/// The fairing that lets pages of other origins call the backend.
#[derive(Debug)]
pub struct CORS;

/// One header of a response.
#[derive(Debug)]
pub struct Header {
    pub name: String,
    pub value: String,
}

/// The names and values of headers.
pub open spec fn header_texts(headers: Seq<Header>) -> Seq<(Seq<char>, Seq<char>)> {
    headers.map_values(|h: Header| (h.name@, h.value@))
}

/// The headers that every response carries in the given environment.
pub open spec fn cors_headers(environment: Option<Seq<char>>) -> Seq<(Seq<char>, Seq<char>)> {
    let env = setting_or(environment, "TEST"@);
    seq![
        ("set-cookie"@, "cv-"@ + env + "="@ + env),
        ("Access-Control-Allow-Origin"@, "*"@),
        ("Access-Control-Allow-Methods"@, "POST, GET, OPTIONS"@),
        ("Access-Control-Allow-Headers"@, "*"@),
        ("Access-Control-Allow-Credentials"@, "true"@),
    ]
}

impl CORS {
    /// The name of the fairing.
    pub fn info(&self) -> (r: String)
        ensures
            r@ == "Add CORS headers to responses"@,
    {
        "Add CORS headers to responses".to_owned()
    }

    /// The headers that are set on every response: a cookie that names the
    /// environment, and leave for any origin to call.
    pub fn on_response(&self, environment: &Option<String>) -> (r: Vec<Header>)
        ensures
            header_texts(r@) == cors_headers(environment.deep_view()),
    {
        let env = crate::config::text_or(environment, "TEST");
        let mut cookie = concat("cv-", env.as_str());
        cookie.append("=");
        cookie.append(env.as_str());
        let mut out: Vec<Header> = Vec::new();
        out.push(Header { name: "set-cookie".to_owned(), value: cookie });
        out.push(Header { name: "Access-Control-Allow-Origin".to_owned(), value: "*".to_owned() });
        out.push(
            Header {
                name: "Access-Control-Allow-Methods".to_owned(),
                value: "POST, GET, OPTIONS".to_owned(),
            },
        );
        out.push(Header { name: "Access-Control-Allow-Headers".to_owned(), value: "*".to_owned() });
        out.push(
            Header {
                name: "Access-Control-Allow-Credentials".to_owned(),
                value: "true".to_owned(),
            },
        );
        assert(header_texts(out@) =~= cors_headers(environment.deep_view()));
        out
    }
}

/// The date of the deployment, or "n/a" where none is configured.
pub fn version_handler(date_deploy: &Option<String>) -> (r: String)
    ensures
        r@ == setting_or(date_deploy.deep_view(), "n/a"@),
{
    crate::config::text_or(date_deploy, "n/a")
}

/// `text` as the answer to a failed request; a preflight request gets an
/// empty answer.
pub open spec fn answer(method: Method, text: Seq<char>) -> Seq<char> {
    if method == Method::Options {
        Seq::empty()
    } else {
        text
    }
}

pub fn internal_server_error(req: &Request) -> (r: String)
    ensures
        r@ == answer(req.method, "Sorry, Problem on our side. We are learning RUST here..."@),
{
    if req.method == Method::Options {
        return String::new();
    }
    "Sorry, Problem on our side. We are learning RUST here...".to_owned()
}

pub fn unauthorized(req: &Request) -> (r: String)
    ensures
        r@ == answer(
            req.method,
            "UNAUTHORIZED. You are not allowed to vote. Wrong invite_code or token?"@,
        ),
{
    if req.method == Method::Options {
        return String::new();
    }
    "UNAUTHORIZED. You are not allowed to vote. Wrong invite_code or token?".to_owned()
}

pub fn unprocessable_content(req: &Request) -> (r: String)
    ensures
        r@ == answer(req.method, "Your request body is malinformed or has missing properties."@),
{
    if req.method == Method::Options {
        return String::new();
    }
    "Your request body is malinformed or has missing properties.".to_owned()
}

pub fn not_found(req: &Request) -> (r: String)
    ensures
        r@ == answer(
            req.method,
            "The voting, candidate, user or whatever you wanted "@ + req.uri@
                + ". It does not exist!"@,
        ),
{
    if req.method == Method::Options {
        return String::new();
    }
    let mut out = concat("The voting, candidate, user or whatever you wanted ", req.uri.as_str());
    out.append(". It does not exist!");
    out
}

} // verus!
