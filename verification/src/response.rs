//! Assembly of the response once the engine has finished a transfer.
use crate::error::{Error, HttpFault};
use crate::headers::{
    accepts_value, all_value_bytes, empty_header_map, header_map_entries, header_name_of,
    is_header_value, lower_case, no_entries, store_header,
};
use http::{HeaderMap, HeaderValue};
use vstd::prelude::*;

verus! {

/// The lowest HTTP status code.
pub const MIN_STATUS_CODE: u32 = 100;

/// The highest HTTP status code.
pub const MAX_STATUS_CODE: u32 = 599;

/// The digit zero in ASCII.
pub const DIGIT_ZERO: u8 = 48;

/// The minus sign in ASCII.
pub const MINUS: u8 = 45;

/// An HTTP response.
#[derive(Debug)]
pub struct HttpResponse {
    /// The status code that the server returned, from 100 to 599.
    pub status_code: u16,
    /// The response headers.
    pub headers: HeaderMap<HeaderValue>,
    /// The response body, where the collector kept it in memory.
    pub body: Option<Vec<u8>>,
}

/// What the engine answers when asked about a finished transfer. Each
/// answer is the value, or the engine's error code where the query failed.
#[derive(Debug)]
pub struct TransferReport {
    /// The status code of the response.
    pub response_code: Result<u32, u32>,
    /// The content type of the response, if the server named one.
    pub content_type: Result<Option<Vec<u8>>, u32>,
    /// The length of the response body as the server announced it, or -1
    /// where it announced none.
    pub content_length: Result<i64, u32>,
}

/// The name of the content type header.
pub open spec fn content_type_name() -> Seq<u8> {
    seq![99u8, 111u8, 110u8, 116u8, 101u8, 110u8, 116u8, 45u8, 116u8, 121u8, 112u8, 101u8]
}

/// The name of the content length header.
pub open spec fn content_length_name() -> Seq<u8> {
    seq![
        99u8,
        111u8,
        110u8,
        116u8,
        101u8,
        110u8,
        116u8,
        45u8,
        108u8,
        101u8,
        110u8,
        103u8,
        116u8,
        104u8,
    ]
}

/// The decimal digits of a number, most significant first.
pub open spec fn digits_of(n: nat) -> Seq<u8>
    decreases n,
{
    if n < 10 {
        seq![(DIGIT_ZERO + n) as u8]
    } else {
        digits_of(n / 10).push((DIGIT_ZERO + n % 10) as u8)
    }
}

/// A number in decimal, with a minus sign before a negative one.
pub open spec fn decimal_text(n: int) -> Seq<u8> {
    if n < 0 {
        seq![MINUS] + digits_of((-n) as nat)
    } else {
        digits_of(n as nat)
    }
}

/// Whether a status code lies in the range of HTTP status codes.
pub open spec fn is_status_code(code: u32) -> bool {
    MIN_STATUS_CODE <= code <= MAX_STATUS_CODE
}

/// The headers made from what the engine reports, for a collector that
/// captured none: the content type, if there is one, and the content
/// length.
pub open spec fn reported_entries(content_type: Option<Seq<u8>>, content_length: int) -> Map<
    Seq<u8>,
    Seq<u8>,
> {
    let first = match content_type {
        Some(text) => no_entries().insert(content_type_name(), text),
        None => no_entries(),
    };
    first.insert(content_length_name(), decimal_text(content_length))
}

/// Why a response cannot be assembled, if it cannot. The engine's answers
/// are looked at in a fixed order: the status code, then, only where the
/// collector captured no headers, the content type and the content length,
/// and last the range of the status code.
pub open spec fn assembly_fault(captured: bool, report: TransferReport) -> Option<Error> {
    match report.response_code {
        Err(code) => Some(Error::Curl(code)),
        Ok(status) => {
            let reported = if captured {
                None
            } else {
                report_fault(report)
            };
            if reported is Some {
                reported
            } else if !is_status_code(status) {
                Some(Error::Http(HttpFault::InvalidStatusCode))
            } else {
                None
            }
        },
    }
}

/// Why no headers can be made from what the engine reports, if none can:
/// the engine could not say the content type, or it could not say the
/// content length.
pub open spec fn report_fault(report: TransferReport) -> Option<Error> {
    match report.content_type {
        Err(code) => Some(Error::Curl(code)),
        Ok(_) => match report.content_length {
            Err(code) => Some(Error::Curl(code)),
            Ok(_) => None,
        },
    }
}

/// The content type that the engine reports, if it reports one that is a
/// header value. One that is no header value is left out.
pub open spec fn reported_content_type(report: TransferReport) -> Option<Seq<u8>> {
    match report.content_type {
        Ok(Some(text)) if is_header_value(text@) => Some(text@),
        _ => None,
    }
}

/// The content length that the engine reports.
pub open spec fn reported_content_length(report: TransferReport) -> int {
    match report.content_length {
        Ok(length) => length as int,
        Err(_) => 0,
    }
}

/// Every digit may stand in a header value.
pub proof fn lemma_digits_are_value_bytes(n: nat)
    ensures
        all_value_bytes(digits_of(n)),
        digits_of(n).len() >= 1,
    decreases n,
{
    if n >= 10 {
        lemma_digits_are_value_bytes(n / 10);
    }
}

/// A number in decimal may stand in a header value.
pub proof fn lemma_decimal_is_value_bytes(n: int)
    ensures
        all_value_bytes(decimal_text(n)),
{
    if n < 0 {
        lemma_digits_are_value_bytes((-n) as nat);
    } else {
        lemma_digits_are_value_bytes(n as nat);
    }
}

/// The names of the two headers made from the engine's report are header
/// names as they stand: they hold lower-case letters and the minus sign
/// only.
pub proof fn lemma_reported_names_are_header_names()
    ensures
        header_name_of(content_type_name()) == Some(content_type_name()),
        header_name_of(content_length_name()) == Some(content_length_name()),
{
    let t = content_type_name();
    let l = content_length_name();
    assert(t.map_values(|b: u8| lower_case(b)) =~= t);
    assert(l.map_values(|b: u8| lower_case(b)) =~= l);
}

/// The name of the content type header.
pub fn content_type_header() -> (name: Vec<u8>)
    ensures
        name@ == content_type_name(),
{
    let name = vec![99u8, 111u8, 110u8, 116u8, 101u8, 110u8, 116u8, 45u8, 116u8, 121u8, 112u8, 101u8];
    assert(name@ =~= content_type_name());
    name
}

/// The name of the content length header.
pub fn content_length_header() -> (name: Vec<u8>)
    ensures
        name@ == content_length_name(),
{
    let name = vec![
        99u8,
        111u8,
        110u8,
        116u8,
        101u8,
        110u8,
        116u8,
        45u8,
        108u8,
        101u8,
        110u8,
        103u8,
        116u8,
        104u8,
    ];
    assert(name@ =~= content_length_name());
    name
}

/// Appends the decimal digits of `n` to `out`.
pub fn push_digits(out: &mut Vec<u8>, n: u64)
    ensures
        final(out)@ == old(out)@ + digits_of(n as nat),
    decreases n,
{
    if n >= 10 {
        push_digits(out, n / 10);
    }
    let digit: u8 = (n % 10) as u8;
    out.push(DIGIT_ZERO + digit);
    assert(out@ =~= old(out)@ + digits_of(n as nat));
}

/// Writes a number in decimal.
pub fn decimal(n: i64) -> (text: Vec<u8>)
    ensures
        text@ == decimal_text(n as int),
{
    let mut text: Vec<u8> = Vec::new();
    if n < 0 {
        text.push(MINUS);
        let magnitude: u64 = (-(n + 1)) as u64 + 1;
        push_digits(&mut text, magnitude);
    } else {
        push_digits(&mut text, n as u64);
    }
    assert(text@ =~= decimal_text(n as int));
    text
}

/// Assembles the response of a finished transfer from what the collector
/// holds and what the engine reports.
///
/// The body is the collector's. The headers are the collector's where it
/// captured them; otherwise they are the content length that the engine
/// reports and, where it reports one that is a header value, the content
/// type, and no other. The response is owed unless a query failed or the
/// status code lies outside 100 to 599; the error is then the one that
/// `assembly_fault` names.
pub fn assemble_response(
    body: Option<Vec<u8>>,
    headers: Option<HeaderMap<HeaderValue>>,
    report: &TransferReport,
) -> (result: Result<HttpResponse, Error>)
    ensures
        match result {
            Ok(response) => {
                &&& assembly_fault(headers is Some, *report) is None
                &&& report.response_code == Ok::<u32, u32>(response.status_code as u32)
                &&& response.body == body
                &&& match headers {
                    Some(captured) => response.headers == captured,
                    None => header_map_entries(response.headers) == reported_entries(
                        reported_content_type(*report),
                        reported_content_length(*report),
                    ),
                }
            },
            Err(error) => assembly_fault(headers is Some, *report) == Some(error),
        },
{
    let status = match report.response_code {
        Ok(status) => status,
        Err(code) => {
            return Err(Error::Curl(code));
        },
    };
    match headers {
        Some(captured) => {
            if status < MIN_STATUS_CODE || status > MAX_STATUS_CODE {
                return Err(Error::Http(HttpFault::InvalidStatusCode));
            }
            Ok(HttpResponse { status_code: status as u16, headers: captured, body })
        },
        None => {
            let content_type = match &report.content_type {
                Ok(content_type) => content_type,
                Err(code) => {
                    return Err(Error::Curl(*code));
                },
            };
            let content_length = match report.content_length {
                Ok(length) => length,
                Err(code) => {
                    return Err(Error::Curl(code));
                },
            };
            if status < MIN_STATUS_CODE || status > MAX_STATUS_CODE {
                return Err(Error::Http(HttpFault::InvalidStatusCode));
            }
            proof {
                lemma_reported_names_are_header_names();
                lemma_decimal_is_value_bytes(content_length as int);
            }
            let mut made = empty_header_map();
            match content_type {
                Some(text) => {
                    if accepts_value(text.as_slice()) {
                        let name = content_type_header();
                        let kept = store_header(&mut made, name.as_slice(), text.as_slice());
                        assert(kept);
                    }
                },
                None => {},
            }
            let name = content_length_header();
            let length = decimal(content_length);
            assert(header_map_entries(made).dom().finite() && header_map_entries(made).dom().len()
                <= 1) by {
                let typed = no_entries().insert(content_type_name(), reported_content_type(*report)->0);
                assert(typed.dom() =~= set![content_type_name()]);
            }
            let kept = store_header(&mut made, name.as_slice(), length.as_slice());
            assert(kept);
            Ok(HttpResponse { status_code: status as u16, headers: made, body })
        },
    }
}

} // verus!
