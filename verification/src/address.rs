//! Absolute URLs, as the `url` crate parses and serialises them.
//!
//! A URL is held as its serialisation. The parser and the query editor are
//! the `url` crate's; this module names what they return and states what the
//! callers rely on. None of that is proved here.

use vstd::prelude::*;
use vstd::string::*;
use vstd::utf8::encode_utf8;

use crate::encoding::query_pair;
use crate::text::{lemma_occurs_between, occurs_in};

verus! {

#[verifier::external_type_specification]
#[verifier::external_body]
pub struct ExParseError(url::ParseError);

/// The serialisation of the URL that `url::Url::parse` reads from `input`, or
/// `None` where it rejects `input`.
pub uninterp spec fn url_parse(input: Seq<char>) -> Option<Seq<char>>;

/// Where `url::Url::query_pairs_mut` lets a new pair stand in the URL parsed
/// from `input`: the text before the pair and the text after it.
///
/// The first part is the URL up to its fragment, followed by `?` if the URL
/// had no query, or by `&` if its query was not empty. The second part is the
/// fragment with its `#`, or nothing.
pub uninterp spec fn query_frame(input: Seq<char>) -> (Seq<char>, Seq<char>);

/// The URL parsed from `input` with the pair `name`, `value` added to its query.
pub open spec fn with_pair(input: Seq<char>, name: Seq<char>, value: Seq<char>) -> Seq<char> {
    query_frame(input).0 + query_pair(name, value) + query_frame(input).1
}

/// The most bytes that the `url` crate lets a URL have.
pub open spec fn max_len() -> nat {
    0xffff_ffff
}

/// A pair of `name` and `value` can be added to the URL `parsed` without
/// passing the limit, however the pair is escaped.
pub open spec fn has_room(parsed: Seq<char>, name: Seq<char>, value: Seq<char>) -> bool {
    encode_utf8(parsed).len() + 3 * (encode_utf8(name).len() + encode_utf8(value).len()) + 2
        <= max_len()
}

/// Calls `url::Url::parse` and hands back the URL's serialisation.
///
/// Trusted: the result is a function of `input` alone.
#[verifier::external_body]
pub(crate) fn parse(input: &str) -> (parsed: Result<String, url::ParseError>)
    ensures
        parsed matches Ok(text) ==> url_parse(input@) == Some(text@),
        parsed is Err ==> url_parse(input@) is None,
{
    url::Url::parse(input).map(String::from)
}

/// Calls `url::Url::parse`, then `append_pair` on the URL's
/// `query_pairs_mut`, and hands back the new serialisation.
///
/// Trusted: the editor takes the fragment off, writes `?` where there was no
/// query, lets the serialiser append the pair after `&` where the query held
/// something, and puts the fragment back. It panics beyond the length limit,
/// which the precondition keeps away: an escaped byte takes three bytes, and
/// two separators may be written.
#[verifier::external_body]
pub(crate) fn parse_with_pair(input: &str, name: &str, value: &str) -> (edited: Result<
    String,
    url::ParseError,
>)
    requires
        url_parse(input@) matches Some(parsed) ==> has_room(parsed, name@, value@),
    ensures
        edited is Ok <==> url_parse(input@) is Some,
        edited matches Ok(text) ==> text@ == query_frame(input@).0 + query_pair(name@, value@)
            + query_frame(input@).1,
{
    let mut parsed = url::Url::parse(input)?;
    parsed.query_pairs_mut().append_pair(name, value);
    Ok(String::from(parsed))
}

/// Whether a pair of `name` and `value` can be added to the URL `parsed`
/// without passing the length limit.
pub fn room_for(parsed: &str, name: &str, value: &str) -> (room: bool)
    ensures
        room == has_room(parsed@, name@, value@),
{
    let limit: u64 = 0xffff_ffff - 2;
    let url = parsed.as_bytes().len() as u64;
    let name = name.as_bytes().len() as u64;
    let value = value.as_bytes().len() as u64;
    if url > limit {
        false
    } else {
        let left = (limit - url) / 3;
        name <= left && value <= left - name
    }
}

/// `url::ParseError::Overflow`, the parser's own error for a URL beyond the
/// length limit.
#[verifier::external_body]
pub(crate) fn overflow() -> url::ParseError {
    url::ParseError::Overflow
}

/// The added pair stands in the edited URL.
pub proof fn lemma_pair_occurs(input: Seq<char>, name: Seq<char>, value: Seq<char>)
    ensures
        occurs_in(query_pair(name, value), with_pair(input, name, value)),
{
    lemma_occurs_between(query_frame(input).0, query_pair(name, value), query_frame(input).1);
}

} // verus!
