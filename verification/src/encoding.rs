//! The `application/x-www-form-urlencoded` serialisation of names and values.
//!
//! The serialiser itself is the `form_urlencoded` crate's. What this module
//! states of it is in the contract of [`append_pair`]; nothing here is proved
//! about the crate's code.

use vstd::prelude::*;

use crate::text::{decimal, digit};

verus! {

/// The characters that the serialiser writes as they are: ASCII letters and
/// digits, `*`, `-`, `.` and `_`.
pub open spec fn is_plain(c: char) -> bool {
    ||| c == '*'
    ||| c == '-'
    ||| c == '.'
    ||| c == '_'
    ||| ('0' as u32 <= c as u32 && c as u32 <= '9' as u32)
    ||| ('A' as u32 <= c as u32 && c as u32 <= 'Z' as u32)
    ||| ('a' as u32 <= c as u32 && c as u32 <= 'z' as u32)
}

/// Every character of `text` is written as it is.
pub open spec fn all_plain(text: Seq<char>) -> bool {
    forall|i: int| 0 <= i < text.len() ==> is_plain(#[trigger] text[i])
}

/// What `form_urlencoded::byte_serialize` yields, piece after piece, for the
/// UTF-8 bytes of `text`.
pub uninterp spec fn form_encoded(text: Seq<char>) -> Seq<char>;

/// What stands for `text` once serialised, given the serialiser's output
/// `escaped`: plain text is written as it is.
pub open spec fn written(text: Seq<char>, escaped: Seq<char>) -> Seq<char> {
    if all_plain(text) {
        text
    } else {
        escaped
    }
}

/// The serialised form of a name or value.
pub open spec fn encoded(text: Seq<char>) -> Seq<char> {
    written(text, form_encoded(text))
}

/// One serialised pair: name, `=`, value.
pub open spec fn query_pair(name: Seq<char>, value: Seq<char>) -> Seq<char> {
    encoded(name) + seq!['='] + encoded(value)
}

/// `target` with one more pair, after `&` unless `target` is empty; `name`
/// and `value` are given in their serialised form.
pub open spec fn appended(target: Seq<char>, name: Seq<char>, value: Seq<char>) -> Seq<char> {
    if target.len() == 0 {
        name + seq!['='] + value
    } else {
        target + seq!['&'] + name + seq!['='] + value
    }
}

/// Calls `form_urlencoded::Serializer::append_pair` on a serialiser made for
/// `target` with `Serializer::new`, and hands back the finished string.
///
/// Trusted: the serialiser writes `&` if the target already holds something,
/// then the name, `=` and the value, each passed through `byte_serialize`,
/// which leaves the bytes of plain characters unchanged.
#[verifier::external_body]
pub(crate) fn append_pair(target: String, name: &str, value: &str) -> (text: String)
    ensures
        text@ == appended(
            target@,
            written(name@, form_encoded(name@)),
            written(value@, form_encoded(value@)),
        ),
{
    url::form_urlencoded::Serializer::new(target).append_pair(name, value).finish()
}

/// A decimal numeral is plain text.
pub proof fn lemma_decimal_plain(n: nat)
    ensures
        all_plain(decimal(n)),
    decreases n,
{
    if n >= 10 {
        lemma_decimal_plain(n / 10);
        assert(is_plain(digit(n % 10)));
    } else {
        assert(is_plain(digit(n)));
    }
}

} // verus!
