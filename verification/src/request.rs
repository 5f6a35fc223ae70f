//! An outgoing request, as plain values that a transport can send.

use vstd::prelude::*;
use vstd::string::*;

verus! {

/// The request methods that the pipeline issues.
#[derive(Clone, Copy, Debug, PartialEq, Eq, Structural)]
pub enum Method {
    Get,
    Post,
    Put,
    Delete,
}

impl Method {
    /// The method's token on the wire.
    pub open spec fn token(self) -> Seq<char> {
        match self {
            Method::Get => "GET"@,
            Method::Post => "POST"@,
            Method::Put => "PUT"@,
            Method::Delete => "DELETE"@,
        }
    }

    /// The method's token on the wire.
    pub fn as_str(self) -> (token: &'static str)
        ensures
            token@ == self.token(),
    {
        match self {
            Method::Get => "GET",
            Method::Post => "POST",
            Method::Put => "PUT",
            Method::Delete => "DELETE",
        }
    }
}

/// A fully addressed, authenticated request.
#[derive(Debug)]
pub struct Request {
    pub method: Method,
    /// The absolute URL, with the key in its query where the client has one.
    pub url: String,
    /// The value of the `User-Agent` header.
    pub user_agent: String,
    /// The value of the `Authorization` header, if the request carries one.
    pub authorization: Option<String>,
    /// The value of the `Content-Type` header, if the request carries one.
    pub content_type: Option<String>,
    /// The payload, if there is one.
    pub body: Option<Vec<u8>>,
}

/// The mathematical value of a [`Request`].
pub struct RequestView {
    pub method: Method,
    pub url: Seq<char>,
    pub user_agent: Seq<char>,
    pub authorization: Option<Seq<char>>,
    pub content_type: Option<Seq<char>>,
    pub body: Option<Seq<u8>>,
}

/// The view of an optional text.
pub open spec fn option_text(text: Option<String>) -> Option<Seq<char>> {
    match text {
        Some(text) => Some(text@),
        None => None,
    }
}

/// The view of an optional payload.
pub open spec fn option_bytes(bytes: Option<Vec<u8>>) -> Option<Seq<u8>> {
    match bytes {
        Some(bytes) => Some(bytes@),
        None => None,
    }
}

impl View for Request {
    type V = RequestView;

    open spec fn view(&self) -> RequestView {
        RequestView {
            method: self.method,
            url: self.url@,
            user_agent: self.user_agent@,
            authorization: option_text(self.authorization),
            content_type: option_text(self.content_type),
            body: option_bytes(self.body),
        }
    }
}

impl RequestView {
    /// The header lines of the request, in the order in which they are set:
    /// `User-Agent` always, then `Authorization` and `Content-Type` where the
    /// request has them.
    pub open spec fn headers(self) -> Seq<(Seq<char>, Seq<char>)> {
        let agent = seq![("User-Agent"@, self.user_agent)];
        let authorization = match self.authorization {
            Some(value) => seq![("Authorization"@, value)],
            None => Seq::empty(),
        };
        let content_type = match self.content_type {
            Some(value) => seq![("Content-Type"@, value)],
            None => Seq::empty(),
        };
        agent + authorization + content_type
    }
}

/// The views of header lines.
pub open spec fn lines_view(lines: Seq<(String, String)>) -> Seq<(Seq<char>, Seq<char>)> {
    lines.map_values(|line: (String, String)| (line.0@, line.1@))
}

/// A copy of an optional text.
pub(crate) fn copy_text(text: &Option<String>) -> (copy: Option<String>)
    ensures
        option_text(copy) == option_text(*text),
{
    match text {
        Some(text) => Some(text.clone()),
        None => None,
    }
}

/// A copy of an optional payload.
pub(crate) fn copy_bytes(bytes: &Option<Vec<u8>>) -> (copy: Option<Vec<u8>>)
    ensures
        option_bytes(copy) == option_bytes(*bytes),
{
    match bytes {
        Some(bytes) => Some(bytes.clone()),
        None => None,
    }
}

impl Request {
    /// The header lines to send, as name and value.
    pub fn headers(&self) -> (lines: Vec<(String, String)>)
        ensures
            lines_view(lines@) == self@.headers(),
    {
        let mut lines: Vec<(String, String)> = Vec::new();
        lines.push((String::from_str("User-Agent"), self.user_agent.clone()));
        match &self.authorization {
            Some(value) => {
                lines.push((String::from_str("Authorization"), value.clone()));
            },
            None => {},
        }
        match &self.content_type {
            Some(value) => {
                lines.push((String::from_str("Content-Type"), value.clone()));
            },
            None => {},
        }
        assert(lines_view(lines@) =~= self@.headers());
        lines
    }
}

} // verus!
