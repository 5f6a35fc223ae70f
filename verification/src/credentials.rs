//! The two ways a client can identify itself.

use vstd::prelude::*;

verus! {

/// How a client identifies itself to the API. The two kinds exclude each
/// other and travel at different layers: a key in the query, a token in a
/// header.
#[derive(Debug)]
pub enum Credentials {
    /// A key sent as the `api_key` query parameter.
    ApiKey(String),
    /// An access token sent in a bearer `Authorization` header.
    Token(String),
}

/// The mathematical value of [`Credentials`].
pub enum CredentialsView {
    ApiKey(Seq<char>),
    Token(Seq<char>),
}

impl View for Credentials {
    type V = CredentialsView;

    open spec fn view(&self) -> CredentialsView {
        match self {
            Credentials::ApiKey(key) => CredentialsView::ApiKey(key@),
            Credentials::Token(token) => CredentialsView::Token(token@),
        }
    }
}

impl Clone for Credentials {
    fn clone(&self) -> (copy: Self)
        ensures
            copy@ == self@,
    {
        match self {
            Credentials::ApiKey(key) => Credentials::ApiKey(key.clone()),
            Credentials::Token(token) => Credentials::Token(token.clone()),
        }
    }
}

impl Credentials {
    /// Whether these credentials are an access token.
    pub fn is_token(&self) -> (token: bool)
        ensures
            token == (self@ is Token),
    {
        match self {
            Credentials::ApiKey(_) => false,
            Credentials::Token(_) => true,
        }
    }
}

/// The view of optional credentials.
pub open spec fn credentials_view(credentials: Option<Credentials>) -> Option<CredentialsView> {
    match credentials {
        Some(credentials) => Some(credentials@),
        None => None,
    }
}

} // verus!
