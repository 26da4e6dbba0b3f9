//! A stand-in for a server, for trying the client out: the rule by which it
//! answers a request, without the serving.
use crate::error::Method;
use crate::headers::copy_bytes;
use crate::response::{digits_of, push_digits, DIGIT_ZERO, MINUS};
use vstd::prelude::*;
use vstd::slice::slice_subrange;

verus! {

/// The equals sign, after which a range header holds its first position.
pub const EQUALS: u8 = 61;

/// The plus sign, which may stand before a number.
pub const PLUS: u8 = 43;

/// The slash, which stands before the total in a content range.
pub const SLASH: u8 = 47;

/// The status of a reply that holds the whole resource.
pub const STATUS_OK: u16 = 200;

/// The status of a reply that holds a part of the resource.
pub const STATUS_PARTIAL_CONTENT: u16 = 206;

/// What a mock server answers with.
#[derive(Clone, Debug, PartialEq, Eq)]
pub enum ResponderType {
    /// The sample file, or the part of it that a range request asks for.
    File,
    /// These bytes.
    Body(Vec<u8>),
}

/// A mock server's rule for answering requests.
#[derive(Clone, Debug)]
pub struct MockResponder {
    responder: ResponderType,
}

/// The part of a resource that a reply holds: the positions of its first
/// and last byte, and the size of the whole.
#[derive(Clone, Copy, Debug, PartialEq, Eq, Structural)]
pub struct ContentRange {
    pub first: usize,
    pub last: usize,
    pub total: usize,
}

/// The reply of a mock server.
#[derive(Clone, Debug, PartialEq, Eq)]
pub struct MockReply {
    /// The status code.
    pub status: u16,
    /// The part of the resource that the body holds, for a partial reply.
    pub range: Option<ContentRange>,
    /// The body.
    pub body: Vec<u8>,
}

/// Why a mock server does not answer a request.
#[derive(Clone, Copy, Debug, PartialEq, Eq, Structural)]
pub enum MockFault {
    /// The request body is not the one that the server expects.
    UnexpectedBody,
    /// The range header names no position inside the sample file.
    BadRange,
    /// The server answers GET, POST and PUT only.
    UnsupportedMethod,
}

/// Whether `i` is the first place in `s` where `b` stands.
pub open spec fn is_first(s: Seq<u8>, b: u8, i: int) -> bool {
    &&& 0 <= i < s.len()
    &&& s[i] == b
    &&& forall|j: int| 0 <= j < i ==> s[j] != b
}

/// Whether `i` is the last place in `s` where `b` stands.
pub open spec fn is_last(s: Seq<u8>, b: u8, i: int) -> bool {
    &&& 0 <= i < s.len()
    &&& s[i] == b
    &&& forall|j: int| i < j < s.len() ==> s[j] != b
}

/// The value of a decimal digit; any other byte counts as zero.
pub open spec fn digit_value(b: u8) -> nat {
    if DIGIT_ZERO <= b <= DIGIT_ZERO + 9 {
        (b - DIGIT_ZERO) as nat
    } else {
        0
    }
}

/// The number that a sequence of decimal digits stands for.
pub open spec fn number_of(digits: Seq<u8>) -> nat
    decreases digits.len(),
{
    if digits.len() == 0 {
        0
    } else {
        number_of(digits.drop_last()) * 10 + digit_value(digits.last())
    }
}

/// Whether `digits` is a sequence of one or more decimal digits.
pub open spec fn is_digits(digits: Seq<u8>) -> bool {
    &&& digits.len() > 0
    &&& forall|i: int| 0 <= i < digits.len() ==> DIGIT_ZERO <= #[trigger] digits[i] <= DIGIT_ZERO + 9
}

/// The digits of a number in text: the text itself, without a plus sign at
/// its start.
pub open spec fn unsigned_part(text: Seq<u8>) -> Seq<u8> {
    if text.len() > 0 && text[0] == PLUS {
        text.skip(1)
    } else {
        text
    }
}

/// The number that `text` holds: one or more decimal digits, after a plus
/// sign or without one, that stand for a number of at most 64 bits.
pub open spec fn parse_number(text: Seq<u8>) -> Option<u64> {
    let digits = unsigned_part(text);
    if is_digits(digits) && number_of(digits) <= u64::MAX {
        Some(number_of(digits) as u64)
    } else {
        None
    }
}

/// The first position that a range header asks for: the number between
/// the first equals sign of the value and its last minus sign.
pub open spec fn range_start(value: Seq<u8>) -> Option<u64> {
    if value.contains(EQUALS) && value.contains(MINUS) {
        let start = choose|i: int| is_first(value, EQUALS, i);
        let end = choose|i: int| is_last(value, MINUS, i);
        if start < end {
            parse_number(value.subrange(start + 1, end))
        } else {
            None
        }
    } else {
        None
    }
}

/// The text of a content range: `bytes`, the first and the last position
/// with a minus sign between them, a slash, and the total.
pub open spec fn content_range_text(range: ContentRange) -> Seq<u8> {
    seq![98u8, 121u8, 116u8, 101u8, 115u8, 32u8] + digits_of(range.first as nat) + seq![MINUS]
        + digits_of(range.last as nat) + seq![SLASH] + digits_of(range.total as nat)
}

/// The reply to a GET request for the sample file `sample`, by the range
/// header that the request holds.
pub open spec fn file_reply(range: Option<Seq<u8>>, sample: Seq<u8>) -> Result<
    (u16, Option<ContentRange>, Seq<u8>),
    MockFault,
> {
    match range {
        Some(value) => match range_start(value) {
            Some(offset) if sample.len() > 0 && offset <= sample.len() => Ok(
                (
                    STATUS_PARTIAL_CONTENT,
                    Some(
                        ContentRange {
                            first: offset as usize,
                            last: (sample.len() - 1) as usize,
                            total: sample.len() as usize,
                        },
                    ),
                    sample.skip(offset as int),
                ),
            ),
            _ => Err(MockFault::BadRange),
        },
        None => Ok((STATUS_OK, None, sample)),
    }
}

/// The reply to a request that uploads `sent`, where `expected` is the
/// body that the server expects, if it expects one.
pub open spec fn upload_reply(expected: Option<Seq<u8>>, sent: Seq<u8>) -> Result<
    (u16, Option<ContentRange>, Seq<u8>),
    MockFault,
> {
    match expected {
        Some(body) if body != sent => Err(MockFault::UnexpectedBody),
        _ => Ok((STATUS_OK, None, Seq::empty())),
    }
}

/// The reply of a mock server to a request, by its rule.
pub open spec fn reply_for(
    responder: ResponderType,
    method: Method,
    range: Option<Seq<u8>>,
    sample: Seq<u8>,
    sent: Seq<u8>,
) -> Result<(u16, Option<ContentRange>, Seq<u8>), MockFault> {
    match method {
        Method::Get => match responder {
            ResponderType::File => file_reply(range, sample),
            ResponderType::Body(body) => Ok((STATUS_OK, None, body@)),
        },
        Method::Post => match responder {
            ResponderType::File => upload_reply(None, sent),
            ResponderType::Body(body) => upload_reply(Some(body@), sent),
        },
        Method::Put => match responder {
            ResponderType::File => upload_reply(Some(sample), sent),
            ResponderType::Body(body) => upload_reply(Some(body@), sent),
        },
        _ => Err(MockFault::UnsupportedMethod),
    }
}

/// Whether a reply is the one that the rule gives.
pub open spec fn is_reply(
    result: Result<MockReply, MockFault>,
    expected: Result<(u16, Option<ContentRange>, Seq<u8>), MockFault>,
) -> bool {
    match result {
        Ok(reply) => expected == Ok::<(u16, Option<ContentRange>, Seq<u8>), MockFault>(
            (reply.status, reply.range, reply.body@),
        ),
        Err(fault) => expected == Err::<(u16, Option<ContentRange>, Seq<u8>), MockFault>(fault),
    }
}

/// A byte has at most one first place in a sequence.
pub proof fn lemma_first_is_unique(s: Seq<u8>, b: u8, first: int)
    requires
        is_first(s, b, first),
    ensures
        s.contains(b),
        (choose|i: int| is_first(s, b, i)) == first,
{
    let f = choose|i: int| is_first(s, b, i);
    assert(is_first(s, b, f));
}

/// A byte has at most one last place in a sequence.
pub proof fn lemma_last_is_unique(s: Seq<u8>, b: u8, last: int)
    requires
        is_last(s, b, last),
    ensures
        s.contains(b),
        (choose|i: int| is_last(s, b, i)) == last,
{
    let l = choose|i: int| is_last(s, b, i);
    assert(is_last(s, b, l));
}

/// A longer sequence of digits stands for a number that is no smaller.
pub proof fn lemma_number_grows(digits: Seq<u8>, k: int)
    requires
        0 <= k <= digits.len(),
    ensures
        number_of(digits.take(k)) <= number_of(digits),
    decreases digits.len() - k,
{
    if k == digits.len() {
        assert(digits.take(k) == digits);
    } else {
        lemma_number_grows(digits, k + 1);
        assert(digits.take(k + 1).drop_last() == digits.take(k));
    }
}

/// Finds the first place where `b` stands.
pub fn find_first(s: &[u8], b: u8) -> (found: Option<usize>)
    ensures
        match found {
            Some(i) => is_first(s@, b, i as int),
            None => !s@.contains(b),
        },
{
    let mut i: usize = 0;
    while i < s.len()
        invariant
            i <= s@.len(),
            forall|j: int| 0 <= j < i ==> s@[j] != b,
        decreases s@.len() - i,
    {
        if s[i] == b {
            return Some(i);
        }
        i = i + 1;
    }
    None
}

/// Finds the last place where `b` stands.
pub fn find_last(s: &[u8], b: u8) -> (found: Option<usize>)
    ensures
        match found {
            Some(i) => is_last(s@, b, i as int),
            None => !s@.contains(b),
        },
{
    let mut i: usize = s.len();
    while i > 0
        invariant
            i <= s@.len(),
            forall|j: int| i <= j < s@.len() ==> s@[j] != b,
        decreases i,
    {
        i = i - 1;
        if s[i] == b {
            return Some(i);
        }
    }
    None
}

/// Reads the number that `text` holds.
pub fn read_number(text: &[u8]) -> (number: Option<u64>)
    ensures
        number == parse_number(text@),
{
    let start: usize = if text.len() > 0 && text[0] == PLUS {
        1
    } else {
        0
    };
    let digits = slice_subrange(text, start, text.len());
    assert(digits@ == unsigned_part(text@));
    if digits.len() == 0 {
        return None;
    }
    let mut value: u64 = 0;
    let mut i: usize = 0;
    while i < digits.len()
        invariant
            i <= digits@.len(),
            digits@ == unsigned_part(text@),
            value == number_of(digits@.take(i as int)),
            forall|j: int| 0 <= j < i ==> DIGIT_ZERO <= #[trigger] digits@[j] <= DIGIT_ZERO + 9,
        decreases digits@.len() - i,
    {
        let b = digits[i];
        if b < DIGIT_ZERO || b > DIGIT_ZERO + 9 {
            assert(!is_digits(digits@)) by {
                assert(digits@[i as int] == b);
            }
            return None;
        }
        let digit: u64 = (b - DIGIT_ZERO) as u64;
        proof {
            let next = digits@.take(i + 1);
            assert(next.drop_last() == digits@.take(i as int));
            assert(next.last() == b);
            assert(number_of(next) == value * 10 + digit);
            lemma_number_grows(digits@, i + 1);
        }
        if value > (u64::MAX - digit) / 10 {
            assert(number_of(digits@) > u64::MAX);
            return None;
        }
        value = value * 10 + digit;
        i = i + 1;
    }
    assert(digits@.take(i as int) == digits@);
    Some(value)
}

/// Reads the first position that a range header asks for.
pub fn parse_range(value: &[u8]) -> (start: Option<u64>)
    ensures
        start == range_start(value@),
{
    let first = match find_first(value, EQUALS) {
        Some(first) => first,
        None => {
            return None;
        },
    };
    let last = match find_last(value, MINUS) {
        Some(last) => last,
        None => {
            return None;
        },
    };
    proof {
        lemma_first_is_unique(value@, EQUALS, first as int);
        lemma_last_is_unique(value@, MINUS, last as int);
    }
    if first < last {
        read_number(slice_subrange(value, first + 1, last))
    } else {
        None
    }
}

/// Decides whether two byte strings are the same.
pub fn same_bytes(a: &[u8], b: &[u8]) -> (same: bool)
    ensures
        same == (a@ == b@),
{
    if a.len() != b.len() {
        return false;
    }
    let mut i: usize = 0;
    while i < a.len()
        invariant
            a@.len() == b@.len(),
            i <= a@.len(),
            forall|j: int| 0 <= j < i ==> a@[j] == b@[j],
        decreases a@.len() - i,
    {
        if a[i] != b[i] {
            return false;
        }
        i = i + 1;
    }
    assert(a@ =~= b@);
    true
}

impl ContentRange {
    /// Writes the range as the value of a content range header.
    pub fn text(&self) -> (text: Vec<u8>)
        ensures
            text@ == content_range_text(*self),
    {
        let mut text: Vec<u8> = Vec::new();
        text.push(98u8);
        text.push(121u8);
        text.push(116u8);
        text.push(101u8);
        text.push(115u8);
        text.push(32u8);
        push_digits(&mut text, self.first as u64);
        text.push(MINUS);
        push_digits(&mut text, self.last as u64);
        text.push(SLASH);
        push_digits(&mut text, self.total as u64);
        assert(text@ =~= content_range_text(*self));
        text
    }
}

impl MockResponder {
    /// What the responder answers with.
    pub closed spec fn kind(&self) -> ResponderType {
        self.responder
    }

    /// A responder that answers with `responder`.
    pub fn new(responder: ResponderType) -> (mock: Self)
        ensures
            mock.kind() == responder,
    {
        MockResponder { responder }
    }

    /// What the responder answers with.
    pub fn responder(&self) -> (responder: &ResponderType)
        ensures
            *responder == self.kind(),
    {
        &self.responder
    }

    fn upload(expected: Option<&[u8]>, sent: &[u8]) -> (result: Result<MockReply, MockFault>)
        ensures
            is_reply(
                result,
                upload_reply(
                    match expected {
                        Some(body) => Some(body@),
                        None => None,
                    },
                    sent@,
                ),
            ),
    {
        match expected {
            Some(body) => {
                if !same_bytes(body, sent) {
                    return Err(MockFault::UnexpectedBody);
                }
            },
            None => {},
        }
        Ok(MockReply { status: STATUS_OK, range: None, body: Vec::new() })
    }

    fn file(range: Option<&[u8]>, sample: &[u8]) -> (result: Result<MockReply, MockFault>)
        ensures
            is_reply(
                result,
                file_reply(
                    match range {
                        Some(value) => Some(value@),
                        None => None,
                    },
                    sample@,
                ),
            ),
    {
        let total = sample.len();
        match range {
            Some(value) => match parse_range(value) {
                Some(offset) => {
                    if total == 0 || offset > total as u64 {
                        return Err(MockFault::BadRange);
                    }
                    let first = offset as usize;
                    let body = copy_bytes(slice_subrange(sample, first, total));
                    Ok(
                        MockReply {
                            status: STATUS_PARTIAL_CONTENT,
                            range: Some(ContentRange { first, last: total - 1, total }),
                            body,
                        },
                    )
                },
                None => Err(MockFault::BadRange),
            },
            None => Ok(MockReply { status: STATUS_OK, range: None, body: copy_bytes(sample) }),
        }
    }

    /// Answers a request. A GET is answered with the responder's bytes, or
    /// with the sample file, from the position that the range header asks
    /// for where there is one. A POST or PUT is answered with an empty
    /// reply if it sent what the responder expects: its own bytes, or, for
    /// a PUT to a file responder, the sample file. A POST to a file
    /// responder may send anything.
    pub fn respond(&self, method: Method, range: Option<&[u8]>, sample: &[u8], sent: &[u8]) -> (result:
        Result<MockReply, MockFault>)
        ensures
            is_reply(
                result,
                reply_for(
                    self.kind(),
                    method,
                    match range {
                        Some(value) => Some(value@),
                        None => None,
                    },
                    sample@,
                    sent@,
                ),
            ),
    {
        match method {
            Method::Get => match &self.responder {
                ResponderType::File => Self::file(range, sample),
                ResponderType::Body(body) => Ok(
                    MockReply { status: STATUS_OK, range: None, body: copy_bytes(body.as_slice()) },
                ),
            },
            Method::Post => match &self.responder {
                ResponderType::File => Self::upload(None, sent),
                ResponderType::Body(body) => Self::upload(Some(body.as_slice()), sent),
            },
            Method::Put => match &self.responder {
                ResponderType::File => Self::upload(Some(sample), sent),
                ResponderType::Body(body) => Self::upload(Some(body.as_slice()), sent),
            },
            _ => Err(MockFault::UnsupportedMethod),
        }
    }
}

} // verus!
