//! Credential wrappers whose accessors consume the wrapper. The builder and
//! the facade work with the borrowing pair in `crate::key`; this pair stays
//! for callers that hand the wrapper off once.

use vstd::prelude::*;

verus! {

/// Holds the key for accessing auth API calls.
/// For general API calls please use or create an `ApiToken` instead.
#[derive(Debug, Eq, Hash, PartialEq, PartialOrd, Ord, Clone)]
pub struct ApiKey<'a>(&'a str);

impl<'a> View for ApiKey<'a> {
    type V = Seq<char>;

    closed spec fn view(&self) -> Seq<char> {
        self.0@
    }
}

impl<'a> ApiKey<'a> {
    /// Constructs a new key from a str.
    pub fn new(token: &'a str) -> (key: Self)
        ensures
            key@ == token@,
    {
        Self(token)
    }

    /// Get the string slice representing the API key itself.
    pub fn get_str(self) -> (s: &'a str)
        ensures
            s@ == self@,
    {
        self.0
    }

    /// The generic textual form of a key: the fixed placeholder, whatever
    /// the key holds, so a key is not leaked through casual printing. If you
    /// really want to expose your API key, get the string slice with
    /// `get_str`. This is a convenience guard, not a security boundary.
    pub fn display_string(&self) -> (s: String)
        ensures
            s@ == "SECRET"@,
    {
        "SECRET".to_owned()
    }
}

/// Grants access to general API calls.
#[derive(Debug, Eq, Hash, PartialEq, PartialOrd, Ord, Clone)]
pub struct ApiToken<'a>(&'a str);

impl<'a> View for ApiToken<'a> {
    type V = Seq<char>;

    closed spec fn view(&self) -> Seq<char> {
        self.0@
    }
}

impl<'a> ApiToken<'a> {
    /// Constructs a new token from a str.
    pub fn new(token: &'a str) -> (tok: Self)
        ensures
            tok@ == token@,
    {
        Self(token)
    }

    /// Get the string slice representing the token itself.
    pub fn get_str(self) -> (s: &'a str)
        ensures
            s@ == self@,
    {
        self.0
    }

    /// The generic textual form of a token: the token's own value. Tokens
    /// are freely printable; this will expose your token.
    pub fn display_string(&self) -> (s: String)
        ensures
            s@ == self@,
    {
        self.0.to_owned()
    }
}

} // verus!
