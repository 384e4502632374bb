//! Requests over HTTP, as plain values.
use crate::json::JsonValue;
use vstd::prelude::*;

verus! {

/// A request over HTTP with a JSON body.
#[derive(Debug, Clone)]
pub struct HttpCall {
    pub url: String,
    pub timeout_ms: u64,
    /// Names and values, in order.
    pub headers: Vec<(String, String)>,
    pub body: JsonValue,
}

/// The contents of a list of headers.
pub open spec fn headers_of(v: Seq<(String, String)>) -> Seq<(Seq<char>, Seq<char>)> {
    v.map_values(|h: (String, String)| (h.0@, h.1@))
}

pub(crate) fn push_header(v: &mut Vec<(String, String)>, name: &str, value: &str)
    ensures
        headers_of(final(v)@) == headers_of(old(v)@).push((name@, value@)),
{
    let ghost start = headers_of(v@);
    v.push((name.to_string(), value.to_string()));
    assert(headers_of(v@) =~= start.push((name@, value@)));
}

} // verus!
