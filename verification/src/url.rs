//! The finalized Mesowest URL value.

use vstd::prelude::*;

verus! {

/// A fully formed Mesowest URL. Values of this type are only produced by the
/// terminal step of the builder in `crate::builder`, so every one of them went
/// through the canonical transition sequence.
#[derive(Debug, Eq, Hash, PartialEq, PartialOrd, Ord, Clone)]
pub struct MesowestUrl(String);

impl View for MesowestUrl {
    type V = Seq<char>;

    closed spec fn view(&self) -> Seq<char> {
        self.0@
    }
}

/// Crate-internal constructor for `MesowestUrl`; the module is private, so
/// outside the crate a URL can only come out of the builder.
pub fn new_url(input: String) -> (url: MesowestUrl)
    ensures
        url@ == input@,
{
    MesowestUrl(input)
}

impl MesowestUrl {
    /// Returns the string the URL consists of. The result is determined by
    /// the value alone, so repeated calls agree.
    pub fn as_str(&self) -> (s: &str)
        ensures
            s@ == self@,
    {
        self.0.as_str()
    }
}

/// Accessor idempotence for URLs: the contract of `as_str` pins the result's
/// characters to the URL's own, so any two results of it on one URL agree.
pub proof fn lemma_url_as_str_idempotent(url: &MesowestUrl, first: &str, second: &str)
    requires
        first@ == url@,
        second@ == url@,
    ensures
        first@ == second@,
{
}

} // verus!
