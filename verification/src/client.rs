//! The client: its configuration, the requests it builds and the way it
//! answers a response.
//!
//! The client sends nothing itself. It builds the request to send, and, given
//! the head of the response, either builds the request that follows a
//! redirect or says how the response is to be settled.

use vstd::prelude::*;
use vstd::string::*;

use crate::address::{
    has_room, lemma_pair_occurs, overflow, parse, parse_with_pair, room_for, url_parse, with_pair,
};
use crate::credentials::{credentials_view, Credentials, CredentialsView};
use crate::encoding::{all_plain, encoded, query_pair};
use crate::errors::Error;
use crate::multipart::{Form, ToForm};
use crate::request::{copy_bytes, copy_text, option_bytes, option_text, Method, Request, RequestView};
use crate::response::{is_redirect, ResponseHead, ResponseHeadView, Verdict};
use crate::text::{join, occurs_in};

verus! {

/// The host of the API.
pub const DEFAULT_HOST: &'static str = "https://api.mod.io/v1";

/// The content type of a body of url-encoded pairs.
pub const FORM_URL_ENCODED: &'static str = "application/x-www-form-urlencoded";

/// A client's configuration. It does not change once it is made.
#[derive(Debug)]
pub struct Modio {
    host: String,
    agent: String,
    credentials: Option<Credentials>,
}

/// The mathematical value of a [`Modio`].
pub struct ModioView {
    pub host: Seq<char>,
    pub agent: Seq<char>,
    pub credentials: Option<CredentialsView>,
}

impl View for Modio {
    type V = ModioView;

    closed spec fn view(&self) -> ModioView {
        ModioView {
            host: self.host@,
            agent: self.agent@,
            credentials: credentials_view(self.credentials),
        }
    }
}

impl ModioView {
    /// The value of the `Authorization` header: a bearer token where the
    /// client has a token, and no header otherwise.
    pub open spec fn authorization(self) -> Option<Seq<char>> {
        match self.credentials {
            Some(CredentialsView::Token(token)) => Some("Bearer "@ + token),
            _ => None,
        }
    }

    /// The URL that a request to `uri` goes to: `uri` as the parser writes
    /// it, with the pair `api_key` added to its query where the client has
    /// a key. There is none where `uri` is no absolute URL, or where the key
    /// does not fit into the URL.
    pub open spec fn target(self, uri: Seq<char>) -> Option<Seq<char>> {
        match url_parse(uri) {
            Some(parsed) => match self.credentials {
                Some(CredentialsView::ApiKey(key)) => if has_room(parsed, "api_key"@, key) {
                    Some(with_pair(uri, "api_key"@, key))
                } else {
                    None
                },
                _ => Some(parsed),
            },
            None => None,
        }
    }

    /// The request that the client builds for these arguments, if `uri` has
    /// a target.
    pub open spec fn outgoing(
        self,
        method: Method,
        uri: Seq<char>,
        body: Option<Seq<u8>>,
        content_type: Option<Seq<char>>,
    ) -> Option<RequestView> {
        match self.target(uri) {
            Some(url) => Some(
                RequestView {
                    method,
                    url,
                    user_agent: self.agent,
                    authorization: self.authorization(),
                    content_type,
                    body,
                },
            ),
            None => None,
        }
    }

    /// `built` is what a multipart call returns once making its form gave
    /// `form`. An error of the form is the error of the call. A form that
    /// was made travels, as it is, with the request for `uri` that has
    /// neither body nor content type of its own; where `uri` has no
    /// target, the call fails with a URL error.
    pub open spec fn carries<S>(
        self,
        method: Method,
        uri: Seq<char>,
        form: Result<Form<S>, Error>,
        built: Result<FormRequest<S>, Error>,
    ) -> bool {
        match form {
            Ok(form) => match self.outgoing(method, uri, None, None) {
                Some(request) => built matches Ok(made) && made.head@ == request && made.form@
                    == form@,
                None => built matches Err(Error::UrlParse(_)),
            },
            Err(error) => built matches Err(same) && same == error,
        }
    }

    /// The client has an access token.
    pub open spec fn has_token(self) -> bool {
        self.credentials matches Some(CredentialsView::Token(_))
    }
}

/// A request whose body is a multipart form.
pub struct FormRequest<S> {
    /// Method, URL and headers; the form adds the content type and the body.
    pub head: Request,
    pub form: Form<S>,
}

/// What follows a response.
pub enum Next<R> {
    /// The response was a redirect: this request is to be sent next.
    Follow(R),
    /// The response is final and is settled by this verdict.
    Settle(Verdict),
}

impl Clone for Modio {
    fn clone(&self) -> (copy: Self)
        ensures
            copy@ == self@,
    {
        Modio {
            host: self.host.clone(),
            agent: self.agent.clone(),
            credentials: match &self.credentials {
                Some(credentials) => Some(credentials.clone()),
                None => None,
            },
        }
    }
}

impl Modio {
    /// A client of the default host.
    pub fn new(agent: &str, credentials: Option<Credentials>) -> (modio: Self)
        ensures
            modio@ == (ModioView {
                host: DEFAULT_HOST@,
                agent: agent@,
                credentials: credentials_view(credentials),
            }),
    {
        Self::host(DEFAULT_HOST, agent, credentials)
    }

    /// A client of the host `host`.
    pub fn host(host: &str, agent: &str, credentials: Option<Credentials>) -> (modio: Self)
        ensures
            modio@ == (ModioView {
                host: host@,
                agent: agent@,
                credentials: credentials_view(credentials),
            }),
    {
        Self::custom(host, agent, credentials)
    }

    /// A client of the host `host`, for a transport of the caller's choice.
    pub fn custom(host: &str, agent: &str, credentials: Option<Credentials>) -> (modio: Self)
        ensures
            modio@ == (ModioView {
                host: host@,
                agent: agent@,
                credentials: credentials_view(credentials),
            }),
    {
        Modio { host: String::from_str(host), agent: String::from_str(agent), credentials }
    }

    /// The client's credentials.
    pub fn credentials(&self) -> (credentials: Option<&Credentials>)
        ensures
            match credentials {
                Some(credentials) => self@.credentials == Some(credentials@),
                None => self@.credentials is None,
            },
    {
        self.credentials.as_ref()
    }

    /// Whether the client has an access token.
    pub fn has_token(&self) -> (token: bool)
        ensures
            token == self@.has_token(),
    {
        match &self.credentials {
            Some(Credentials::Token(_)) => true,
            _ => false,
        }
    }

    fn target(&self, uri: &str) -> (url: Result<String, Error>)
        ensures
            match self@.target(uri@) {
                Some(target) => url matches Ok(text) && text@ == target,
                None => url matches Err(Error::UrlParse(_)),
            },
    {
        let parsed = match parse(uri) {
            Ok(parsed) => parsed,
            Err(error) => {
                return Err(Error::UrlParse(error));
            },
        };
        match &self.credentials {
            Some(Credentials::ApiKey(key)) => {
                if room_for(parsed.as_str(), "api_key", key.as_str()) {
                    match parse_with_pair(uri, "api_key", key.as_str()) {
                        Ok(url) => Ok(url),
                        Err(error) => Err(Error::UrlParse(error)),
                    }
                } else {
                    Err(Error::UrlParse(overflow()))
                }
            },
            _ => Ok(parsed),
        }
    }

    fn authorization(&self) -> (header: Option<String>)
        ensures
            option_text(header) == self@.authorization(),
    {
        match &self.credentials {
            Some(Credentials::Token(token)) => Some(join("Bearer ", token.as_str())),
            _ => None,
        }
    }

    /// Builds the request for `method` and the absolute URL `uri`.
    ///
    /// The request always names the client's agent. A client with a key gets
    /// the key into the query of the URL and no `Authorization` header; a
    /// client with a token gets the header and the URL as it is. The call
    /// fails, with a URL error, exactly when `uri` has no target.
    pub fn request(
        &self,
        method: Method,
        uri: String,
        body: Option<Vec<u8>>,
        content_type: Option<String>,
    ) -> (built: Result<Request, Error>)
        ensures
            match self@.outgoing(method, uri@, option_bytes(body), option_text(content_type)) {
                Some(request) => built matches Ok(made) && made@ == request,
                None => built matches Err(Error::UrlParse(_)),
            },
    {
        let url = match self.target(uri.as_str()) {
            Ok(url) => url,
            Err(error) => {
                return Err(error);
            },
        };
        Ok(
            Request {
                method,
                url,
                user_agent: self.agent.clone(),
                authorization: self.authorization(),
                content_type,
                body,
            },
        )
    }

    /// Builds the request that carries `form`, given what making the form
    /// gave. An error of the form is the error of the call; a URL error
    /// comes only after it.
    pub fn with_form<S>(&self, method: Method, uri: String, form: Result<Form<S>, Error>) -> (built:
        Result<FormRequest<S>, Error>)
        ensures
            self@.carries(method, uri@, form, built),
    {
        let form = match form {
            Ok(form) => form,
            Err(error) => {
                return Err(error);
            },
        };
        match self.request(method, uri, None, None) {
            Ok(head) => Ok(FormRequest { head, form }),
            Err(error) => Err(error),
        }
    }

    /// Builds the multipart request for `method` and the absolute URL `uri`
    /// with the form that `data` makes: the result is what [`Modio::with_form`]
    /// gives for what `data.to_form()` returned. Where the form cannot be
    /// made, its error is returned.
    pub fn formdata<S, F: ToForm<S>>(&self, method: Method, uri: String, data: &F) -> (built: Result<
        FormRequest<S>,
        Error,
    >)
        ensures
            exists|form: Result<Form<S>, Error>|
                call_ensures(F::to_form, (data,), form) && self@.carries(method, uri@, form, built),
            built matches Ok(made) ==> self@.outgoing(method, uri@, None, None) == Some(made.head@),
    {
        let form = data.to_form();
        self.with_form(method, uri, form)
    }

    /// The request that submits the url-encoded `message` with `method` to
    /// `uri`, a path on the host.
    pub fn submit(&self, method: Method, uri: &str, message: Vec<u8>) -> (built: Result<
        Request,
        Error,
    >)
        ensures
            match self@.outgoing(
                method,
                self@.host + uri@,
                Some(message@),
                Some(FORM_URL_ENCODED@),
            ) {
                Some(request) => built matches Ok(made) && made@ == request,
                None => built matches Err(Error::UrlParse(_)),
            },
    {
        self.request(
            method,
            join(self.host.as_str(), uri),
            Some(message),
            Some(String::from_str(FORM_URL_ENCODED)),
        )
    }

    /// The request that reads the resource at `uri`, a path on the host.
    pub fn get(&self, uri: &str) -> (built: Result<Request, Error>)
        ensures
            match self@.outgoing(Method::Get, self@.host + uri@, None, None) {
                Some(request) => built matches Ok(made) && made@ == request,
                None => built matches Err(Error::UrlParse(_)),
            },
    {
        self.request(Method::Get, join(self.host.as_str(), uri), None, None)
    }

    /// The multipart request that posts `data` to `uri`, a path on the host:
    /// the result is what [`Modio::with_form`] gives for what
    /// `data.to_form()` returned.
    pub fn post<S, F: ToForm<S>>(&self, uri: &str, data: &F) -> (built: Result<
        FormRequest<S>,
        Error,
    >)
        ensures
            exists|form: Result<Form<S>, Error>|
                call_ensures(F::to_form, (data,), form) && self@.carries(
                    Method::Post,
                    self@.host + uri@,
                    form,
                    built,
                ),
            built matches Ok(made) ==> self@.outgoing(Method::Post, self@.host + uri@, None, None)
                == Some(made.head@),
    {
        self.formdata(Method::Post, join(self.host.as_str(), uri), data)
    }

    /// The request that puts the url-encoded `message` to `uri`, a path on
    /// the host.
    pub fn put(&self, uri: &str, message: Vec<u8>) -> (built: Result<Request, Error>)
        ensures
            match self@.outgoing(
                Method::Put,
                self@.host + uri@,
                Some(message@),
                Some(FORM_URL_ENCODED@),
            ) {
                Some(request) => built matches Ok(made) && made@ == request,
                None => built matches Err(Error::UrlParse(_)),
            },
    {
        self.submit(Method::Put, uri, message)
    }

    /// The request that deletes the resource at `uri`, a path on the host.
    pub fn delete(&self, uri: &str) -> (built: Result<Request, Error>)
        ensures
            match self@.outgoing(Method::Delete, self@.host + uri@, None, None) {
                Some(request) => built matches Ok(made) && made@ == request,
                None => built matches Err(Error::UrlParse(_)),
            },
    {
        self.request(Method::Delete, join(self.host.as_str(), uri), None, None)
    }

    /// What follows the response `head` to the request `sent`.
    ///
    /// A redirect that names a location is followed: the same method, body
    /// and content type go to the location, with the client's credentials
    /// attached anew. Every other response, a redirect without location
    /// too, is final and gets its verdict.
    pub fn advance(&self, sent: &Request, head: &ResponseHead) -> (next: Result<
        Next<Request>,
        Error,
    >)
        ensures
            match head@.redirect() {
                Some(location) => match self@.outgoing(
                    sent@.method,
                    location,
                    sent@.body,
                    sent@.content_type,
                ) {
                    Some(request) => next matches Ok(Next::Follow(made)) && made@ == request,
                    None => next matches Err(Error::UrlParse(_)),
                },
                None => next matches Ok(Next::Settle(outcome)) && outcome == head@.verdict(),
            },
    {
        match head.redirect() {
            Some(location) => {
                match self.request(
                    sent.method,
                    location.clone(),
                    copy_bytes(&sent.body),
                    copy_text(&sent.content_type),
                ) {
                    Ok(request) => Ok(Next::Follow(request)),
                    Err(error) => Err(error),
                }
            },
            None => Ok(Next::Settle(head.verdict())),
        }
    }

    /// What follows the response `head` to a multipart request of `method`
    /// with the form of `data`. A redirect that names a location is
    /// followed with a form made anew; every other response is final.
    pub fn advance_form<S, F: ToForm<S>>(&self, method: Method, data: &F, head: &ResponseHead) -> (next:
        Result<Next<FormRequest<S>>, Error>)
        ensures
            match head@.redirect() {
                Some(location) => match next {
                    Ok(Next::Follow(made)) => self@.outgoing(method, location, None, None) == Some(
                        made.head@,
                    ),
                    Ok(Next::Settle(_)) => false,
                    Err(_) => true,
                },
                None => next matches Ok(Next::Settle(outcome)) && outcome == head@.verdict(),
            },
    {
        match head.redirect() {
            Some(location) => {
                match self.formdata(method, location.clone(), data) {
                    Ok(request) => Ok(Next::Follow(request)),
                    Err(error) => Err(error),
                }
            },
            None => Ok(Next::Settle(head.verdict())),
        }
    }
}

/// The two kinds of credentials attach at different layers and never both.
///
/// A request of a client with a key has the pair `api_key` with the key in
/// its URL (the key itself where it is plain text) and no `Authorization`
/// header. A request of a client with a token has the bearer header, and its
/// URL is the parsed address with nothing added; so is the URL of a client
/// without credentials, which has no such header either.
pub proof fn lemma_credentials_attach_apart(
    config: ModioView,
    method: Method,
    uri: Seq<char>,
    body: Option<Seq<u8>>,
    content_type: Option<Seq<char>>,
)
    requires
        config.outgoing(method, uri, body, content_type) is Some,
    ensures
        ({
            let request = config.outgoing(method, uri, body, content_type)->0;
            &&& request.user_agent == config.agent
            &&& request.headers()[0] == ("User-Agent"@, config.agent)
            &&& config.credentials matches Some(CredentialsView::ApiKey(key)) ==> {
                &&& occurs_in("api_key="@ + encoded(key), request.url)
                &&& all_plain(key) ==> occurs_in("api_key="@ + key, request.url)
                &&& request.authorization is None
                &&& forall|i: int|
                    0 <= i < request.headers().len() ==> (#[trigger] request.headers()[i]).0
                        != "Authorization"@
            }
            &&& config.credentials matches Some(CredentialsView::Token(token)) ==> {
                &&& request.authorization == Some("Bearer "@ + token)
                &&& request.headers()[1] == ("Authorization"@, "Bearer "@ + token)
                &&& Some(request.url) == url_parse(uri)
            }
            &&& config.credentials is None ==> {
                &&& request.authorization is None
                &&& Some(request.url) == url_parse(uri)
            }
        }),
{
    let request = config.outgoing(method, uri, body, content_type)->0;
    reveal_strlit("api_key");
    reveal_strlit("api_key=");
    reveal_strlit("User-Agent");
    reveal_strlit("Authorization");
    reveal_strlit("Content-Type");
    match config.credentials {
        Some(CredentialsView::ApiKey(key)) => {
            assert(all_plain("api_key"@));
            assert(query_pair("api_key"@, key) =~= "api_key="@ + encoded(key));
            lemma_pair_occurs(uri, "api_key"@, key);
            assert forall|i: int| 0 <= i < request.headers().len() implies (
            #[trigger] request.headers()[i]).0 != "Authorization"@ by {
                assert("User-Agent"@.len() != "Authorization"@.len());
                assert("Content-Type"@.len() != "Authorization"@.len());
            }
        },
        _ => {},
    }
}

/// A redirect is followed only where it names a location, and the request
/// that follows it differs from the one before in nothing but its URL:
/// method, body and content type are those that were sent, agent and
/// credentials those of the client.
pub proof fn lemma_redirect_reissues(config: ModioView, sent: RequestView, head: ResponseHeadView)
    ensures
        (is_redirect(head.status) && head.location is Some) ==> head.redirect() == head.location,
        !(is_redirect(head.status) && head.location is Some) ==> head.redirect() is None,
        head.redirect() matches Some(location) ==> (config.outgoing(
            sent.method,
            location,
            sent.body,
            sent.content_type,
        ) matches Some(request) ==> {
            &&& request.method == sent.method
            &&& request.body == sent.body
            &&& request.content_type == sent.content_type
            &&& request.user_agent == config.agent
            &&& request.authorization == config.authorization()
            &&& Some(request.url) == config.target(location)
        }),
{
}

} // verus!
