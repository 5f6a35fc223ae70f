//! What a response means: redirect, rate limit, success or fault.

use vstd::prelude::*;

use crate::errors::{ClientError, CodecError, Error};
use crate::request::option_text;

verus! {

/// Bytes that may stand around a number in a header value: the ASCII
/// whitespace.
pub open spec fn is_blank(byte: u8) -> bool {
    byte == 0x20 || (0x09 <= byte && byte <= 0x0d)
}

/// The ASCII digits.
pub open spec fn is_digit(byte: u8) -> bool {
    0x30 <= byte && byte <= 0x39
}

/// The first position at or after `from` that holds no blank.
pub open spec fn skip_blanks(bytes: Seq<u8>, from: int) -> int
    decreases bytes.len() - from,
{
    if 0 <= from < bytes.len() && is_blank(bytes[from]) {
        skip_blanks(bytes, from + 1)
    } else {
        from
    }
}

/// The end of what is left of `bytes[from..to]` without its trailing blanks.
pub open spec fn drop_blanks(bytes: Seq<u8>, from: int, to: int) -> int
    decreases to,
{
    if 0 <= from < to <= bytes.len() && is_blank(bytes[to - 1]) {
        drop_blanks(bytes, from, to - 1)
    } else {
        to
    }
}

/// `bytes` without the blanks at its two ends.
pub open spec fn trimmed(bytes: Seq<u8>) -> Seq<u8> {
    let from = skip_blanks(bytes, 0);
    bytes.subrange(from, drop_blanks(bytes, from, bytes.len() as int))
}

/// `text` without a leading `+`.
pub open spec fn unsigned(text: Seq<u8>) -> Seq<u8> {
    if text.len() > 0 && text[0] == 0x2b {
        text.drop_first()
    } else {
        text
    }
}

/// Every byte is a digit.
pub open spec fn all_digits(digits: Seq<u8>) -> bool {
    forall|i: int| 0 <= i < digits.len() ==> is_digit(#[trigger] digits[i])
}

/// The number that decimal `digits` write.
pub open spec fn number(digits: Seq<u8>) -> int
    decreases digits.len(),
{
    if digits.len() == 0 {
        0
    } else {
        number(digits.drop_last()) * 10 + (digits.last() - 0x30)
    }
}

/// The count that a rate-limit header value gives: decimal digits, after an
/// optional `+`, between optional blanks, that write a number of 16 bits.
/// Anything else gives none.
pub open spec fn quota(value: Seq<u8>) -> Option<u16> {
    let digits = unsigned(trimmed(value));
    if digits.len() > 0 && all_digits(digits) && number(digits) <= u16::MAX {
        Some(number(digits) as u16)
    } else {
        None
    }
}

proof fn lemma_number_grows(digits: Seq<u8>, upto: int)
    requires
        all_digits(digits),
        0 <= upto <= digits.len(),
    ensures
        0 <= number(digits.subrange(0, upto)) <= number(digits),
    decreases digits.len() - upto,
{
    if upto == digits.len() {
        assert(digits.subrange(0, upto) =~= digits);
        lemma_number_positive(digits);
    } else {
        lemma_number_grows(digits, upto + 1);
        let longer = digits.subrange(0, upto + 1);
        assert(longer.drop_last() =~= digits.subrange(0, upto));
        assert(is_digit(digits[upto]));
        assert(longer.last() == digits[upto]);
        lemma_number_positive(digits.subrange(0, upto));
    }
}

proof fn lemma_number_positive(digits: Seq<u8>)
    requires
        all_digits(digits),
    ensures
        0 <= number(digits),
    decreases digits.len(),
{
    if digits.len() > 0 {
        assert(is_digit(digits[digits.len() - 1]));
        lemma_number_positive(digits.drop_last());
    }
}

/// Reads the count that a rate-limit header value gives.
pub fn parse_quota(value: &[u8]) -> (count: Option<u16>)
    ensures
        count == quota(value@),
{
    let len = value.len();
    let mut from: usize = 0;
    while from < len && is_blank_byte(value[from])
        invariant
            from <= len == value@.len(),
            skip_blanks(value@, from as int) == skip_blanks(value@, 0),
        decreases len - from,
    {
        from += 1;
    }
    let mut to: usize = len;
    while to > from && is_blank_byte(value[to - 1])
        invariant
            from <= to <= len == value@.len(),
            drop_blanks(value@, from as int, to as int) == drop_blanks(
                value@,
                from as int,
                len as int,
            ),
        decreases to,
    {
        to -= 1;
    }
    assert(trimmed(value@) == value@.subrange(from as int, to as int));
    let mut start: usize = from;
    if start < to && value[start] == 0x2b {
        start += 1;
    }
    let ghost digits = value@.subrange(start as int, to as int);
    assert(digits =~= unsigned(trimmed(value@)));
    if start == to {
        return None;
    }
    let mut at: usize = start;
    let mut total: u32 = 0;
    while at < to
        invariant
            start <= at <= to <= value@.len(),
            digits == value@.subrange(start as int, to as int),
            digits == unsigned(trimmed(value@)),
            total == number(digits.subrange(0, at - start)),
            total <= u16::MAX,
            forall|i: int| 0 <= i < at - start ==> is_digit(#[trigger] digits[i]),
        decreases to - at,
    {
        let byte = value[at];
        if !(0x30 <= byte && byte <= 0x39) {
            assert(!is_digit(digits[at - start]));
            return None;
        }
        let ghost shorter = digits.subrange(0, at - start);
        let ghost longer = digits.subrange(0, at - start + 1);
        assert(longer.drop_last() =~= shorter);
        assert(longer.last() == byte);
        total = total * 10 + (byte - 0x30) as u32;
        at += 1;
        if total > 0xffff {
            proof {
                if all_digits(digits) {
                    lemma_number_grows(digits, at - start);
                }
            }
            return None;
        }
    }
    assert(digits.subrange(0, at - start) =~= digits);
    Some(total as u16)
}

fn is_blank_byte(byte: u8) -> (blank: bool)
    ensures
        blank == is_blank(byte),
{
    byte == 0x20 || (0x09 <= byte && byte <= 0x0d)
}

/// The rate-limit state that one response reports: how many requests are left
/// in the window, and after how many minutes the window opens again.
#[derive(Clone, Copy, Debug, PartialEq, Eq, Structural)]
pub struct Snapshot {
    pub remaining: Option<u16>,
    pub retry_after: Option<u16>,
}

impl Snapshot {
    /// The snapshot that two header values give; a missing or unreadable
    /// value leaves its part unknown.
    pub open spec fn of(remaining: Option<Seq<u8>>, retry_after: Option<Seq<u8>>) -> Snapshot {
        Snapshot {
            remaining: match remaining {
                Some(value) => quota(value),
                None => None,
            },
            retry_after: match retry_after {
                Some(value) => quota(value),
                None => None,
            },
        }
    }

    /// Reads the snapshot from the values of the remaining-quota header and
    /// of the retry-after header.
    pub fn read(remaining: Option<&[u8]>, retry_after: Option<&[u8]>) -> (snapshot: Snapshot)
        ensures
            snapshot == Snapshot::of(
                match remaining {
                    Some(value) => Some(value@),
                    None => None,
                },
                match retry_after {
                    Some(value) => Some(value@),
                    None => None,
                },
            ),
    {
        Snapshot {
            remaining: match remaining {
                Some(value) => parse_quota(value),
                None => None,
            },
            retry_after: match retry_after {
                Some(value) => parse_quota(value),
                None => None,
            },
        }
    }

    /// The window is used up: no request is left in it.
    pub open spec fn exhausted(self) -> bool {
        self.remaining == Some(0u16)
    }

    /// The seconds until the window opens again: sixty for each minute of the
    /// retry-after value, none where the response gave no such value.
    pub open spec fn reset(self) -> nat {
        match self.retry_after {
            Some(minutes) => (minutes * 60) as nat,
            None => 0,
        }
    }
}

/// What to do with a response that is no redirect.
#[derive(Clone, Copy, Debug, PartialEq, Eq, Structural)]
pub enum Verdict {
    /// The call fails with a rate-limit error; the body is not decoded.
    RateLimit { reset: u64 },
    /// The body is to be decoded as the value that the caller expects.
    Success,
    /// The body is to be decoded as the API's error description.
    Fault { code: u16 },
}

impl Verdict {
    /// The error of a verdict that fails the call without a look at the
    /// body: the rate limit. The other verdicts wait for the body.
    pub fn failure(self) -> (error: Option<Error>)
        ensures
            match self {
                Verdict::RateLimit { reset } => error matches Some(Error::RateLimit { reset: wait })
                    && wait == reset,
                _ => error is None,
            },
    {
        match self {
            Verdict::RateLimit { reset } => Some(Error::RateLimit { reset }),
            _ => None,
        }
    }
}

/// The statuses that report success.
pub open spec fn is_success(status: u16) -> bool {
    200 <= status && status < 300
}

/// The statuses on which a `Location` is followed.
pub open spec fn is_redirect(status: u16) -> bool {
    status == 301 || status == 307
}

/// The verdict on a response, first match first: an exhausted window, then a
/// success status, then everything else.
pub open spec fn verdict(status: u16, limits: Snapshot) -> Verdict {
    if limits.exhausted() {
        Verdict::RateLimit { reset: limits.reset() as u64 }
    } else if is_success(status) {
        Verdict::Success
    } else {
        Verdict::Fault { code: status }
    }
}

/// An exhausted window makes a rate-limit failure of every response, whatever
/// its status, a success status too: the reset is sixty seconds for each
/// minute of the retry-after value.
pub proof fn lemma_exhausted_window_wins(status: u16, limits: Snapshot)
    requires
        limits.remaining == Some(0u16),
    ensures
        verdict(status, limits) == (Verdict::RateLimit { reset: limits.reset() as u64 }),
        limits.reset() as u64 == limits.reset(),
        limits.retry_after matches Some(minutes) ==> limits.reset() == minutes * 60,
        limits.retry_after is None ==> limits.reset() == 0,
{
}

/// A window that is not exhausted leaves the verdict to the status.
pub proof fn lemma_status_decides(status: u16, limits: Snapshot)
    requires
        limits.remaining != Some(0u16),
    ensures
        is_success(status) ==> verdict(status, limits) == Verdict::Success,
        !is_success(status) ==> verdict(status, limits) == (Verdict::Fault { code: status }),
{
}

/// Classifies a response by its status and its rate-limit snapshot.
pub fn classify(status: u16, limits: Snapshot) -> (outcome: Verdict)
    ensures
        outcome == verdict(status, limits),
{
    let exhausted = match limits.remaining {
        Some(remaining) => remaining == 0,
        None => false,
    };
    if exhausted {
        let minutes: u64 = match limits.retry_after {
            Some(minutes) => minutes as u64,
            None => 0,
        };
        Verdict::RateLimit { reset: minutes * 60 }
    } else if 200 <= status && status < 300 {
        Verdict::Success
    } else {
        Verdict::Fault { code: status }
    }
}

/// The header that reports how many requests are left in the window.
pub const REMAINING: &'static str = "X-RateLimit-Remaining";

/// The header that reports after how many minutes the window opens again.
pub const RETRY_AFTER: &'static str = "X-RateLimit-RetryAfter";

/// The header that names the target of a redirect.
pub const LOCATION: &'static str = "Location";

/// What the pipeline reads of a response before its body.
#[derive(Debug)]
pub struct ResponseHead {
    pub status: u16,
    pub limits: Snapshot,
    /// The value of the `Location` header, if the response has one.
    pub location: Option<String>,
}

/// The mathematical value of a [`ResponseHead`].
pub struct ResponseHeadView {
    pub status: u16,
    pub limits: Snapshot,
    pub location: Option<Seq<char>>,
}

impl View for ResponseHead {
    type V = ResponseHeadView;

    open spec fn view(&self) -> ResponseHeadView {
        ResponseHeadView {
            status: self.status,
            limits: self.limits,
            location: option_text(self.location),
        }
    }
}

impl ResponseHeadView {
    /// Where the response sends the client: its location, if its status is a
    /// redirect and it names one.
    pub open spec fn redirect(self) -> Option<Seq<char>> {
        if is_redirect(self.status) {
            self.location
        } else {
            None
        }
    }

    /// The verdict on the response, taken as final.
    pub open spec fn verdict(self) -> Verdict {
        verdict(self.status, self.limits)
    }
}

impl ResponseHead {
    /// The head of a response with this status, these values of the two
    /// rate-limit headers and this location.
    pub fn read(
        status: u16,
        remaining: Option<&[u8]>,
        retry_after: Option<&[u8]>,
        location: Option<String>,
    ) -> (head: Self)
        ensures
            head@ == (ResponseHeadView {
                status,
                limits: Snapshot::of(
                    match remaining {
                        Some(value) => Some(value@),
                        None => None,
                    },
                    match retry_after {
                        Some(value) => Some(value@),
                        None => None,
                    },
                ),
                location: option_text(location),
            }),
    {
        ResponseHead { status, limits: Snapshot::read(remaining, retry_after), location }
    }

    /// Where the response sends the client, if it is a redirect.
    pub fn redirect(&self) -> (location: Option<&String>)
        ensures
            match location {
                Some(location) => self@.redirect() == Some(location@),
                None => self@.redirect() is None,
            },
    {
        if self.status == 301 || self.status == 307 {
            self.location.as_ref()
        } else {
            None
        }
    }

    /// The verdict on the response, taken as final.
    pub fn verdict(&self) -> (outcome: Verdict)
        ensures
            outcome == self@.verdict(),
    {
        classify(self.status, self.limits)
    }
}

/// The result of a call whose response was a success, given what decoding its
/// body gave: the value, or the decoder's message.
pub fn decoded<T>(body: Result<T, String>) -> (result: Result<T, Error>)
    ensures
        match body {
            Ok(value) => result == Ok::<T, Error>(value),
            Err(message) => result matches Err(Error::Codec(CodecError::Json(text))) && text@
                == message@,
        },
{
    match body {
        Ok(value) => Ok(value),
        Err(message) => Err(Error::Codec(CodecError::Json(message))),
    }
}

/// The error of a call whose response was a fault with status `code`, given
/// what decoding its body gave: the API's description, or the decoder's
/// message.
pub fn rejected(code: u16, body: Result<ClientError, String>) -> (error: Error)
    ensures
        match body {
            Ok(described) => error matches Error::Fault { code: status, error: payload } && status
                == code && payload.code == described.code && payload.message@
                == described.message@,
            Err(message) => error matches Error::Codec(CodecError::Json(text)) && text@
                == message@,
        },
{
    match body {
        Ok(described) => Error::Fault { code, error: described },
        Err(message) => Error::Codec(CodecError::Json(message)),
    }
}

} // verus!
