//! Addresses, through the `url` crate.
use vstd::prelude::*;

verus! {

/// The address that a text stands for, in its normal form, or why it is none
/// (`url::Url::parse`).
pub uninterp spec fn url_parsed(text: Seq<char>) -> Result<Seq<char>, Seq<char>>;

/// A relative address taken from a base, or why it cannot be
/// (`url::Url::join`).
pub uninterp spec fn url_joined(base: Seq<char>, rel: Seq<char>) -> Result<Seq<char>, Seq<char>>;

/// The contents of a result.
pub open spec fn result_text(r: Result<String, String>) -> Result<Seq<char>, Seq<char>> {
    match r {
        Ok(s) => Ok(s@),
        Err(e) => Err(e@),
    }
}

/// `url::Url::parse`: the normal form of an address, or the error as text.
#[verifier::external_body]
pub(crate) fn parse(text: &str) -> (r: Result<String, String>)
    ensures
        result_text(r) == url_parsed(text@),
{
    url::Url::parse(text).map(String::from).map_err(|e| e.to_string())
}

/// `url::Url::join`: a relative address taken from a base, or the error as text
/// (that of the base, where the base is no address).
#[verifier::external_body]
pub(crate) fn join(base: &str, rel: &str) -> (r: Result<String, String>)
    ensures
        result_text(r) == url_joined(base@, rel@),
{
    url::Url::parse(base).and_then(|b| b.join(rel)).map(String::from).map_err(|e| e.to_string())
}

} // verus!
