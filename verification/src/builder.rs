//! The URL builder state machine and the shapes of the URLs it produces.
//!
//! Each state exposes only the transitions that are legal from it, and each
//! transition consumes its state, so an illegal call order does not compile.
//! Concatenation appends the fragments in encounter order; no percent-encoding
//! is performed, a known limitation: a caller must supply pre-encoded values.

use vstd::prelude::*;
use vstd::string::StringExecFns;
use crate::key::{ApiKey, ApiToken};
use crate::url::new_url;
use crate::url::MesowestUrl;

verus! {

/// Base API URL.
pub const BASE: &'static str = "https://api.synopticdata.com/v2/";

/// The URL that attaching an API key to the base produces.
pub open spec fn auth_url(key: Seq<char>) -> Seq<char> {
    BASE@ + "auth?apikey="@ + key
}

/// The URL that asks for a new token, with or without an expiration.
pub open spec fn create_token_url(key: Seq<char>, expiration: Option<Seq<char>>) -> Seq<char> {
    match expiration {
        Some(e) => auth_url(key) + "&expire="@ + e,
        None => auth_url(key),
    }
}

/// The URL that lists the tokens associated with a key.
pub open spec fn list_tokens_url(key: Seq<char>) -> Seq<char> {
    auth_url(key) + "&list=1"@
}

/// The URL that deletes one token associated with a key.
pub open spec fn delete_token_url(key: Seq<char>, token: Seq<char>) -> Seq<char> {
    auth_url(key) + "&disableToken="@ + token
}

/// Base builder for building URLs.
#[derive(Debug)]
pub struct MesowestBuilder(String);

impl View for MesowestBuilder {
    type V = Seq<char>;

    closed spec fn view(&self) -> Seq<char> {
        self.0@
    }
}

/// The output of builders that have no further states.
#[derive(Debug)]
pub struct FinalBuilder(String);

impl View for FinalBuilder {
    type V = Seq<char>;

    closed spec fn view(&self) -> Seq<char> {
        self.0@
    }
}

/// Builder for creating Auth URLs.
#[derive(Debug)]
pub struct AuthApiBuilder(String);

impl View for AuthApiBuilder {
    type V = Seq<char>;

    closed spec fn view(&self) -> Seq<char> {
        self.0@
    }
}

/// Builder for creating URLs for creating new tokens.
#[derive(Debug)]
pub struct AuthApiCreateTokenBuilder(String);

impl View for AuthApiCreateTokenBuilder {
    type V = Seq<char>;

    closed spec fn view(&self) -> Seq<char> {
        self.0@
    }
}

impl Default for MesowestBuilder {
    /// A fresh builder holds the base address and nothing else.
    fn default() -> (builder: Self)
        ensures
            builder@ == BASE@,
    {
        MesowestBuilder(BASE.to_owned())
    }
}

impl MesowestBuilder {
    /// Creates a new builder, holding the base address.
    pub fn new() -> (builder: MesowestBuilder)
        ensures
            builder@ == BASE@,
    {
        Self::default()
    }

    /// Attaches an API key, producing the auth builder.
    pub fn auth(self, api_key: ApiKey) -> (next: AuthApiBuilder)
        ensures
            next@ == self@ + "auth?apikey="@ + api_key@,
    {
        AuthApiBuilder(self.0.concat("auth?apikey=").concat(api_key.as_str()))
    }
}

impl FinalBuilder {
    /// Build the URL.
    pub fn build(self) -> (url: MesowestUrl)
        ensures
            url@ == self@,
    {
        new_url(self.0)
    }
}

impl AuthApiBuilder {
    /// Begin creating a new API token. No fragment is appended yet: until it
    /// is finalized the accumulated URL equals the auth URL.
    pub fn create_token(self) -> (next: AuthApiCreateTokenBuilder)
        ensures
            next@ == self@,
    {
        AuthApiCreateTokenBuilder(self.0)
    }

    /// List all tokens associated with an API key.
    pub fn list_tokens(self) -> (next: FinalBuilder)
        ensures
            next@ == self@ + "&list=1"@,
    {
        FinalBuilder(self.0.concat("&list=1"))
    }

    /// Delete a token associated with an API key.
    pub fn delete_token(self, tok: &ApiToken) -> (next: FinalBuilder)
        ensures
            next@ == self@ + "&disableToken="@ + tok@,
    {
        FinalBuilder(self.0.concat("&disableToken=").concat(tok.as_str()))
    }
}

impl AuthApiCreateTokenBuilder {
    /// Build the URL, with no expiration fragment.
    pub fn build(self) -> (url: MesowestUrl)
        ensures
            url@ == self@,
    {
        new_url(self.0)
    }

    /// If the token should expire, add this.
    pub fn token_expiration(self, expiration: &str) -> (next: FinalBuilder)
        ensures
            next@ == self@ + "&expire="@ + expiration@,
    {
        FinalBuilder(self.0.concat("&expire=").concat(expiration))
    }
}

} // verus!
