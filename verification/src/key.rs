//! Credential wrappers and the convenience facade over the URL builder.

use vstd::prelude::*;
use crate::builder::{create_token_url, delete_token_url, list_tokens_url, MesowestBuilder};
use crate::url::MesowestUrl;

verus! {

/// Error signalled by the reserved network entry points: the HTTP
/// collaborator that would execute a request is not wired in yet, so they
/// fail unconditionally.
#[derive(Debug, PartialEq, Eq, Clone, Copy)]
pub struct NotImplemented;

/// Holds the key for accessing auth API calls.
/// For general API calls please use or create an `ApiToken` instead.
#[derive(Debug, Eq, Hash, PartialEq, PartialOrd, Ord, Clone, Copy)]
pub struct ApiKey<'a>(&'a str);

impl<'a> View for ApiKey<'a> {
    type V = Seq<char>;

    closed spec fn view(&self) -> Seq<char> {
        self.0@
    }
}

impl<'a> ApiKey<'a> {
    /// Constructs a new key from a str. Any string is accepted: the key
    /// format is not validated here.
    pub fn new(token: &'a str) -> (key: Self)
        ensures
            key@ == token@,
    {
        Self(token)
    }

    /// The string slice representing the API key itself. This is the only
    /// path to the raw value; the generic textual form hides it.
    pub fn as_str(&self) -> (s: &'a str)
        ensures
            s@ == self@,
    {
        self.0
    }

    /// Builds the URL for creating a new token, with an expiration fragment
    /// exactly when an expiration value is supplied.
    pub fn build_new_token(&self, expiration: Option<&str>) -> (url: MesowestUrl)
        ensures
            url@ == create_token_url(self@, expiration.deep_view()),
    {
        let nonexpired = MesowestBuilder::default().auth(*self).create_token();

        if let Some(expiration_date) = expiration {
            nonexpired.token_expiration(expiration_date).build()
        } else {
            nonexpired.build()
        }
    }

    /// Builds the URL for getting the list of tokens associated with the key.
    pub fn build_get_tokens(&self) -> (url: MesowestUrl)
        ensures
            url@ == list_tokens_url(self@),
    {
        MesowestBuilder::default().auth(*self).list_tokens().build()
    }

    /// Builds the URL for deleting a token.
    pub fn build_delete_token(&self, tok: &ApiToken) -> (url: MesowestUrl)
        ensures
            url@ == delete_token_url(self@, tok@),
    {
        MesowestBuilder::default().auth(*self).delete_token(tok).build()
    }

    /// Creates a new token. Reserved for a web-request collaborator; until
    /// one is wired in, this fails unconditionally.
    pub fn create_token(&self) -> (result: Result<ApiToken<'a>, NotImplemented>)
        ensures
            result is Err,
    {
        Err(NotImplemented)
    }

    /// Gets the list of tokens that are associated with the API key.
    /// Reserved for a web-request collaborator; until one is wired in, this
    /// fails unconditionally.
    pub fn get_tokens(&self) -> (result: Result<Vec<ApiToken<'a>>, NotImplemented>)
        ensures
            result is Err,
    {
        Err(NotImplemented)
    }

    /// Deletes a token permanently from the API key. Reserved for a
    /// web-request collaborator; until one is wired in, this fails
    /// unconditionally.
    pub fn delete_token(&self, _tok: ApiToken) -> (result: Result<(), NotImplemented>)
        ensures
            result is Err,
    {
        Err(NotImplemented)
    }
}

/// Accessor idempotence for keys: the contract of `as_str` pins the result's
/// characters to the key's own, so any two results of it on one key agree.
pub proof fn lemma_key_as_str_idempotent(key: &ApiKey, first: &str, second: &str)
    requires
        first@ == key@,
        second@ == key@,
    ensures
        first@ == second@,
{
}

/// Grants access to general API calls.
#[derive(Debug, Eq, Hash, PartialEq, PartialOrd, Ord, Clone, Copy)]
pub struct ApiToken<'a>(&'a str);

impl<'a> View for ApiToken<'a> {
    type V = Seq<char>;

    closed spec fn view(&self) -> Seq<char> {
        self.0@
    }
}

impl<'a> ApiToken<'a> {
    /// Constructs a new token from a str.
    pub fn new(token: &'a str) -> (tok: Self)
        ensures
            tok@ == token@,
    {
        Self(token)
    }

    /// The string slice representing the token itself.
    pub fn as_str(&self) -> (s: &'a str)
        ensures
            s@ == self@,
    {
        self.0
    }

    /// The generic textual form of a token: the token's own value. Tokens
    /// are freely printable; this will expose your token.
    pub fn display_string(&self) -> (s: String)
        ensures
            s@ == self@,
    {
        self.0.to_owned()
    }
}

/// Accessor idempotence for tokens: the contract of `as_str` pins the
/// result's characters to the token's own, so any two results of it on one
/// token agree.
pub proof fn lemma_token_as_str_idempotent(tok: &ApiToken, first: &str, second: &str)
    requires
        first@ == tok@,
        second@ == tok@,
    ensures
        first@ == second@,
{
}

} // verus!
