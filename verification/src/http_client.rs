//! Building a transfer: the request, the options of the engine, and the
//! client that gathers both before the engine runs.
//!
//! A client records, in order, the options that the engine is to be given.
//! Nothing reaches the engine while the client is built; whoever runs the
//! transfer applies the recorded options to the engine's handle, one by
//! one, and the engine may still refuse one then.
use crate::error::{Error, Method, RequestFault};
use crate::headers::{
    append_bytes, copy_bytes, field_views, HeaderField, COLON, DELETE, SPACE, TAB,
};
use crate::response::{digits_of, push_digits};
use crate::units::{Bps, BytesOffset, FileSize};
use std::time::Duration;
use vstd::prelude::*;

verus! {

/// A clone of a `Duration` is the same span of time.
pub assume_specification[ <Duration as Clone>::clone ](time: &Duration) -> (copy: Duration)
    ensures
        copy == *time,
;

/// A request body: bytes to send, or none.
pub trait CurlBodyRequest {
    /// The bytes that are sent as the body, if any are.
    spec fn body_bytes(&self) -> Option<Seq<u8>>;

    /// The bytes that are sent as the body, if any are.
    fn get_bytes(&self) -> (bytes: Option<&Vec<u8>>)
        ensures
            match bytes {
                Some(b) => self.body_bytes() == Some(b@),
                None => self.body_bytes() is None,
            },
    ;
}

/// A vector of bytes is sent as it is; an empty one sends no body.
impl CurlBodyRequest for Vec<u8> {
    open spec fn body_bytes(&self) -> Option<Seq<u8>> {
        if self@.len() == 0 {
            None
        } else {
            Some(self@)
        }
    }

    fn get_bytes(&self) -> (bytes: Option<&Vec<u8>>) {
        if self.len() == 0 {
            None
        } else {
            Some(self)
        }
    }
}

/// An optional vector of bytes is sent when it is there, empty or not.
impl CurlBodyRequest for Option<Vec<u8>> {
    open spec fn body_bytes(&self) -> Option<Seq<u8>> {
        match self {
            Some(bytes) => Some(bytes@),
            None => None,
        }
    }

    fn get_bytes(&self) -> (bytes: Option<&Vec<u8>>) {
        self.as_ref()
    }
}

/// An HTTP request.
#[derive(Clone, Debug)]
pub struct Request<B> {
    /// The address to send the request to.
    pub url: String,
    /// The request method.
    pub method: Method,
    /// The request headers, in the order in which they are sent.
    pub headers: Vec<HeaderField>,
    /// The request body.
    pub body: B,
}

/// A switch of the engine.
#[derive(Clone, Copy, Debug, PartialEq, Eq, Structural)]
pub enum Switch {
    Post,
    Get,
    Upload,
    HttpProxyTunnel,
    FollowLocation,
    FreshConnect,
    ForbidReuse,
    Verbose,
    ShowHeader,
    Progress,
    FetchFiletime,
    Nobody,
    CookieSession,
}

/// A numeric setting of the engine.
#[derive(Clone, Copy, Debug, PartialEq, Eq, Structural)]
pub enum Quantity {
    PostFieldSize,
    ResumeFrom,
    MaxRecvSpeed,
    MaxSendSpeed,
    InFilesize,
    MaxFilesize,
    Port,
    ProxyPort,
    BufferSize,
    UploadBufferSize,
}

/// A time limit of the engine.
#[derive(Clone, Copy, Debug, PartialEq, Eq, Structural)]
pub enum Limit {
    ConnectTimeout,
    Timeout,
}

/// A textual setting of the engine.
#[derive(Clone, Copy, Debug, PartialEq, Eq, Structural)]
pub enum Text {
    Url,
    Username,
    Password,
    Cainfo,
    Capath,
    ProxyUsername,
    ProxyPassword,
    Proxy,
    ProxyCainfo,
    ProxyCapath,
    ProxySslcert,
    ProxySslcertType,
    ProxySslkey,
    ProxySslkeyType,
    ProxyKeyPassword,
    Noproxy,
    CustomRequest,
}

/// A setting of the engine that takes raw bytes.
#[derive(Clone, Copy, Debug, PartialEq, Eq, Structural)]
pub enum Blob {
    PostFieldsCopy,
    ProxySslcertBlob,
    ProxySslkeyBlob,
}

/// The kind of proxy that is used.
#[derive(Clone, Copy, Debug, PartialEq, Eq, Structural)]
pub enum ProxyType {
    Http,
    Http1,
    Socks4,
    Socks5,
    Socks4a,
    Socks5Hostname,
}

/// The HTTP version that is preferred.
#[derive(Clone, Copy, Debug, PartialEq, Eq, Structural)]
pub enum HttpVersion {
    Any,
    V10,
    V11,
    V2,
    V2TLS,
    V2PriorKnowledge,
    V3,
}

/// The TLS version that is preferred.
#[derive(Clone, Copy, Debug, PartialEq, Eq, Structural)]
pub enum SslVersion {
    Any,
    Tlsv1,
    Sslv2,
    Sslv3,
    Tlsv10,
    Tlsv11,
    Tlsv12,
    Tlsv13,
}

/// How the time value of a conditional request is read.
#[derive(Clone, Copy, Debug, PartialEq, Eq, Structural)]
pub enum TimeCondition {
    Unconditional,
    IfModifiedSince,
    IfUnmodifiedSince,
    LastModified,
}

/// The authentication methods that may be tried.
#[derive(Clone, Copy, Debug, PartialEq, Eq, Structural)]
pub struct Auth {
    pub basic: bool,
    pub digest: bool,
    pub digest_ie: bool,
    pub gssnegotiate: bool,
    pub ntlm: bool,
    pub ntlm_wb: bool,
}

/// One option for the engine, with its value.
#[derive(Clone, Debug, PartialEq, Eq)]
pub enum EngineOption {
    /// Turns a switch on or off.
    Flag(Switch, bool),
    /// Sets a number.
    Number(Quantity, u64),
    /// Sets a signed number of seconds since 1970 for a conditional request.
    TimeValue(i64),
    /// Sets a time limit.
    Period(Limit, Duration),
    /// Sets a text.
    Words(Text, String),
    /// Sets raw bytes.
    Bytes(Blob, Vec<u8>),
    /// Sets the list of request header lines.
    HttpHeaders(Vec<Vec<u8>>),
    /// Sets the authentication methods for the server.
    HttpAuth(Auth),
    /// Sets the authentication methods for the proxy.
    ProxyAuth(Auth),
    /// Sets the kind of proxy.
    Proxy(ProxyType),
    /// Sets the preferred HTTP version.
    Version(HttpVersion),
    /// Sets the preferred TLS version.
    Ssl(SslVersion),
    /// Sets how the time value is read.
    Condition(TimeCondition),
}

/// An engine option with its value as a sequence.
pub enum EngineOptionView {
    Flag(Switch, bool),
    Number(Quantity, u64),
    TimeValue(i64),
    Period(Limit, Duration),
    Words(Text, Seq<char>),
    Bytes(Blob, Seq<u8>),
    HttpHeaders(Seq<Seq<u8>>),
    HttpAuth(Auth),
    ProxyAuth(Auth),
    Proxy(ProxyType),
    Version(HttpVersion),
    Ssl(SslVersion),
    Condition(TimeCondition),
}

impl View for EngineOption {
    type V = EngineOptionView;

    open spec fn view(&self) -> EngineOptionView {
        match *self {
            EngineOption::Flag(switch, on) => EngineOptionView::Flag(switch, on),
            EngineOption::Number(quantity, n) => EngineOptionView::Number(quantity, n),
            EngineOption::TimeValue(seconds) => EngineOptionView::TimeValue(seconds),
            EngineOption::Period(limit, time) => EngineOptionView::Period(limit, time),
            EngineOption::Words(text, words) => EngineOptionView::Words(text, words@),
            EngineOption::Bytes(blob, bytes) => EngineOptionView::Bytes(blob, bytes@),
            EngineOption::HttpHeaders(lines) => EngineOptionView::HttpHeaders(
                lines@.map_values(|line: Vec<u8>| line@),
            ),
            EngineOption::HttpAuth(auth) => EngineOptionView::HttpAuth(auth),
            EngineOption::ProxyAuth(auth) => EngineOptionView::ProxyAuth(auth),
            EngineOption::Proxy(kind) => EngineOptionView::Proxy(kind),
            EngineOption::Version(version) => EngineOptionView::Version(version),
            EngineOption::Ssl(version) => EngineOptionView::Ssl(version),
            EngineOption::Condition(condition) => EngineOptionView::Condition(condition),
        }
    }
}

/// The views of a sequence of options, in order.
pub open spec fn option_views(options: Seq<EngineOption>) -> Seq<EngineOptionView> {
    options.map_values(|option: EngineOption| option@)
}

/// Whether a byte is visible text: a printable ASCII character or a tab.
pub open spec fn is_visible_byte(b: u8) -> bool {
    (SPACE <= b < DELETE) || b == TAB
}

/// Whether all bytes are visible text.
pub open spec fn is_visible_text(bytes: Seq<u8>) -> bool {
    forall|i: int| 0 <= i < bytes.len() ==> is_visible_byte(#[trigger] bytes[i])
}

/// Whether the header at `i` is the first whose value is not visible text.
pub open spec fn first_invalid_header(headers: Seq<(Seq<u8>, Seq<u8>)>, i: int) -> bool {
    &&& 0 <= i < headers.len()
    &&& !is_visible_text(headers[i].1)
    &&& forall|j: int| 0 <= j < i ==> is_visible_text(#[trigger] headers[j].1)
}

/// Whether the value of every header is visible text.
pub open spec fn all_headers_valid(headers: Seq<(Seq<u8>, Seq<u8>)>) -> bool {
    forall|j: int| 0 <= j < headers.len() ==> is_visible_text(#[trigger] headers[j].1)
}

/// The line that the engine is given for a header: the name, a colon, a
/// space, the value.
pub open spec fn header_line(field: (Seq<u8>, Seq<u8>)) -> Seq<u8> {
    field.0 + seq![COLON, SPACE] + field.1
}

/// The lines that the engine is given for a list of headers.
pub open spec fn header_lines(headers: Seq<(Seq<u8>, Seq<u8>)>) -> Seq<Seq<u8>> {
    headers.map_values(|field: (Seq<u8>, Seq<u8>)| header_line(field))
}

/// Whether a request with this method can be made.
pub open spec fn is_implemented(method: Method) -> bool {
    method == Method::Get || method == Method::Post || method == Method::Put
}

/// The options that select the method and carry the body. A POST sends the
/// body if there is one, announcing its size first; GET and PUT send none
/// from the request.
pub open spec fn method_options(method: Method, body: Option<Seq<u8>>) -> Seq<EngineOptionView> {
    match method {
        Method::Post => match body {
            Some(bytes) => seq![
                EngineOptionView::Flag(Switch::Post, true),
                EngineOptionView::Number(Quantity::PostFieldSize, bytes.len() as u64),
                EngineOptionView::Bytes(Blob::PostFieldsCopy, bytes),
            ],
            None => seq![EngineOptionView::Flag(Switch::Post, true)],
        },
        Method::Get => seq![EngineOptionView::Flag(Switch::Get, true)],
        Method::Put => seq![EngineOptionView::Flag(Switch::Upload, true)],
        _ => seq![],
    }
}

/// The options that a request adds to a client: the address, the header
/// lines, and the options of the method.
pub open spec fn request_options(
    url: Seq<char>,
    method: Method,
    headers: Seq<(Seq<u8>, Seq<u8>)>,
    body: Option<Seq<u8>>,
) -> Seq<EngineOptionView> {
    seq![
        EngineOptionView::Words(Text::Url, url),
        EngineOptionView::HttpHeaders(header_lines(headers)),
    ] + method_options(method, body)
}

/// Why a request is refused, if it is: the client already holds one, a
/// header value is not visible text, or the method is not implemented, in
/// this order.
pub open spec fn request_fault(requested: bool, method: Method, headers: Seq<(Seq<u8>, Seq<u8>)>)
    -> Option<Error> {
    if requested {
        Some(Error::Other(RequestFault::AlreadyRequested))
    } else if !all_headers_valid(headers) {
        Some(
            Error::Other(
                RequestFault::InvalidHeaderValue(
                    (choose|i: int| first_invalid_header(headers, i)) as usize,
                ),
            ),
        )
    } else if !is_implemented(method) {
        Some(Error::Unimplemented(method))
    } else {
        None
    }
}

/// There is at most one first invalid header.
pub proof fn lemma_first_invalid_header_is_unique(headers: Seq<(Seq<u8>, Seq<u8>)>, i: int)
    requires
        first_invalid_header(headers, i),
    ensures
        !all_headers_valid(headers),
        (choose|k: int| first_invalid_header(headers, k)) == i,
{
    let c = choose|k: int| first_invalid_header(headers, k);
    assert(first_invalid_header(headers, c));
    if c < i {
        assert(is_visible_text(headers[c].1));
    }
    if i < c {
        assert(is_visible_text(headers[i].1));
    }
}

/// Decides whether all bytes are visible text.
pub fn is_visible(bytes: &[u8]) -> (ok: bool)
    ensures
        ok == is_visible_text(bytes@),
{
    let mut i: usize = 0;
    while i < bytes.len()
        invariant
            i <= bytes@.len(),
            forall|j: int| 0 <= j < i ==> is_visible_byte(#[trigger] bytes@[j]),
        decreases bytes@.len() - i,
    {
        let b = bytes[i];
        if !((SPACE <= b && b < DELETE) || b == TAB) {
            return false;
        }
        i = i + 1;
    }
    true
}

/// The comma between the numbers of a list.
pub const COMMA: u8 = 44;

/// The bracket that opens a list of numbers.
pub const OPEN_BRACKET: u8 = 91;

/// The bracket that closes a list of numbers.
pub const CLOSE_BRACKET: u8 = 93;

/// The word `invalid` and a space.
pub open spec fn invalid_word() -> Seq<u8> {
    seq![105u8, 110u8, 118u8, 97u8, 108u8, 105u8, 100u8, 32u8]
}

/// The words `header value` between two spaces.
pub open spec fn header_value_words() -> Seq<u8> {
    seq![
        32u8,
        104u8,
        101u8,
        97u8,
        100u8,
        101u8,
        114u8,
        32u8,
        118u8,
        97u8,
        108u8,
        117u8,
        101u8,
        32u8,
    ]
}

/// Bytes as decimal numbers with a comma and a space between them.
pub open spec fn number_list(bytes: Seq<u8>) -> Seq<u8>
    decreases bytes.len(),
{
    if bytes.len() == 0 {
        Seq::empty()
    } else if bytes.len() == 1 {
        digits_of(bytes[0] as nat)
    } else {
        number_list(bytes.drop_last()) + seq![COMMA, SPACE] + digits_of(bytes.last() as nat)
    }
}

/// The text that names a request header whose value is not visible text:
/// `invalid`, the name, `header value`, and the bytes of the value as a
/// list of numbers in brackets.
pub open spec fn invalid_header_text(field: (Seq<u8>, Seq<u8>)) -> Seq<u8> {
    invalid_word() + field.0 + header_value_words() + seq![OPEN_BRACKET] + number_list(field.1)
        + seq![CLOSE_BRACKET]
}

/// The text that names the header that a refusal speaks of, if it speaks
/// of one of `headers`.
pub open spec fn fault_text(headers: Seq<(Seq<u8>, Seq<u8>)>, error: Error) -> Option<Seq<u8>> {
    match error {
        Error::Other(RequestFault::InvalidHeaderValue(i)) if i < headers.len() => Some(
            invalid_header_text(headers[i as int]),
        ),
        _ => None,
    }
}

/// Appends bytes as decimal numbers with a comma and a space between them.
pub fn push_number_list(out: &mut Vec<u8>, bytes: &[u8])
    ensures
        final(out)@ == old(out)@ + number_list(bytes@),
{
    let mut i: usize = 0;
    assert(bytes@.take(0) == Seq::<u8>::empty());
    assert(out@ == old(out)@ + number_list(bytes@.take(0)));
    while i < bytes.len()
        invariant
            i <= bytes@.len(),
            out@ == old(out)@ + number_list(bytes@.take(i as int)),
        decreases bytes@.len() - i,
    {
        let ghost before = out@;
        let ghost next = bytes@.take(i + 1);
        proof {
            assert(next.drop_last() == bytes@.take(i as int));
            assert(next.last() == bytes@[i as int]);
        }
        if i > 0 {
            out.push(COMMA);
            out.push(SPACE);
        }
        push_digits(out, bytes[i] as u64);
        proof {
            if i == 0 {
                assert(number_list(bytes@.take(0)) == Seq::<u8>::empty());
                assert(next[0] == bytes@[0]);
                assert(out@ == old(out)@ + number_list(next));
            } else {
                assert(out@ == old(out)@ + number_list(next));
            }
        }
        i = i + 1;
    }
    assert(bytes@.take(i as int) == bytes@);
}

/// Writes the text that names a request header whose value is not visible
/// text.
pub fn describe_invalid_header(field: &HeaderField) -> (text: Vec<u8>)
    ensures
        text@ == invalid_header_text(field@),
{
    let mut text: Vec<u8> = vec![105u8, 110u8, 118u8, 97u8, 108u8, 105u8, 100u8, 32u8];
    assert(text@ =~= invalid_word());
    append_bytes(&mut text, field.name.as_slice());
    let words: Vec<u8> = vec![
        32u8,
        104u8,
        101u8,
        97u8,
        100u8,
        101u8,
        114u8,
        32u8,
        118u8,
        97u8,
        108u8,
        117u8,
        101u8,
        32u8,
    ];
    assert(words@ =~= header_value_words());
    append_bytes(&mut text, words.as_slice());
    text.push(OPEN_BRACKET);
    push_number_list(&mut text, field.value.as_slice());
    text.push(CLOSE_BRACKET);
    assert(text@ =~= invalid_header_text(field@));
    text
}

/// Writes the text that names the header that a refusal speaks of, if it
/// speaks of one of `headers`.
pub fn describe_fault(headers: &Vec<HeaderField>, error: &Error) -> (text: Option<Vec<u8>>)
    ensures
        match text {
            Some(t) => fault_text(field_views(headers@), *error) == Some(t@),
            None => fault_text(field_views(headers@), *error) is None,
        },
{
    match error {
        Error::Other(RequestFault::InvalidHeaderValue(i)) => {
            if *i < headers.len() {
                Some(describe_invalid_header(&headers[*i]))
            } else {
                None
            }
        },
        _ => None,
    }
}

/// Makes the line that the engine is given for a header.
pub fn make_header_line(field: &HeaderField) -> (line: Vec<u8>)
    ensures
        line@ == header_line(field@),
{
    let mut line: Vec<u8> = Vec::new();
    append_bytes(&mut line, field.name.as_slice());
    line.push(COLON);
    line.push(SPACE);
    append_bytes(&mut line, field.value.as_slice());
    assert(line@ =~= header_line(field@));
    line
}

/// Makes the header lines of a request, or finds the first header whose
/// value is not visible text.
pub fn make_header_lines(headers: &Vec<HeaderField>) -> (result: Result<Vec<Vec<u8>>, usize>)
    ensures
        match result {
            Ok(lines) => all_headers_valid(field_views(headers@)) && lines@.map_values(
                |line: Vec<u8>| line@,
            ) == header_lines(field_views(headers@)),
            Err(i) => first_invalid_header(field_views(headers@), i as int),
        },
{
    let mut lines: Vec<Vec<u8>> = Vec::new();
    let mut i: usize = 0;
    let ghost fields = field_views(headers@);
    while i < headers.len()
        invariant
            i <= headers@.len(),
            fields == field_views(headers@),
            lines@.len() == i,
            forall|j: int| 0 <= j < i ==> is_visible_text(#[trigger] fields[j].1),
            forall|j: int| 0 <= j < i ==> (#[trigger] lines@[j])@ == header_line(fields[j]),
        decreases headers@.len() - i,
    {
        let field = &headers[i];
        if !is_visible(field.value.as_slice()) {
            return Err(i);
        }
        let line = make_header_line(field);
        lines.push(line);
        i = i + 1;
    }
    assert(lines@.map_values(|line: Vec<u8>| line@) =~= header_lines(fields));
    Ok(lines)
}

/// A transfer in the making: the collector that will handle its data, and
/// the options that the engine is to be given, in order.
///
/// A client starts without a request. `request` attaches one, once; engine
/// options may be added before and after.
#[derive(Debug)]
pub struct HttpClient<C> {
    collector: C,
    options: Vec<EngineOption>,
    requested: bool,
}

impl<C> HttpClient<C> {
    /// The collector of the transfer.
    pub closed spec fn collector(&self) -> C {
        self.collector
    }

    /// The options recorded so far, in order.
    pub closed spec fn plan(&self) -> Seq<EngineOptionView> {
        option_views(self.options@)
    }

    /// Whether a request has been attached.
    pub closed spec fn requested(&self) -> bool {
        self.requested
    }

    /// The client after one more option.
    pub open spec fn extended_by(&self, before: &Self, option: EngineOptionView) -> bool {
        &&& self.collector() == before.collector()
        &&& self.requested() == before.requested()
        &&& self.plan() == before.plan().push(option)
    }

    /// A client for a transfer whose data `collector` handles, without
    /// options and without a request.
    pub fn new(collector: C) -> (client: Self)
        ensures
            client.collector() == collector,
            client.plan() == Seq::<EngineOptionView>::empty(),
            !client.requested(),
    {
        let client = HttpClient { collector, options: Vec::new(), requested: false };
        assert(client.plan() =~= Seq::<EngineOptionView>::empty());
        client
    }

    /// Whether a request has been attached.
    pub fn has_request(&self) -> (requested: bool)
        ensures
            requested == self.requested(),
    {
        self.requested
    }

    /// The options recorded so far, in order.
    pub fn options(&self) -> (options: &Vec<EngineOption>)
        ensures
            option_views(options@) == self.plan(),
    {
        &self.options
    }

    /// Takes the client apart: the collector, and the options in order.
    pub fn into_parts(self) -> (parts: (C, Vec<EngineOption>))
        ensures
            parts.0 == self.collector(),
            option_views(parts.1@) == self.plan(),
    {
        (self.collector, self.options)
    }

    /// Records one more option.
    pub fn with_option(self, option: EngineOption) -> (client: Self)
        ensures
            client.extended_by(&self, option@),
    {
        let mut client = self;
        client.options.push(option);
        assert(client.plan() =~= self.plan().push(option@));
        client
    }

    /// Attaches the request: its address, its header lines, and the options
    /// of its method, in this order.
    ///
    /// The request is refused where the client already holds one, where a
    /// header value is not visible text, and where the method is none of
    /// GET, POST and PUT.
    pub fn request<B: CurlBodyRequest>(self, request: Request<B>) -> (result: Result<Self, Error>)
        ensures
            match result {
                Ok(client) => {
                    &&& request_fault(
                        self.requested(),
                        request.method,
                        field_views(request.headers@),
                    ) is None
                    &&& client.collector() == self.collector()
                    &&& client.requested()
                    &&& client.plan() == self.plan() + request_options(
                        request.url@,
                        request.method,
                        field_views(request.headers@),
                        request.body.body_bytes(),
                    )
                },
                Err(error) => request_fault(
                    self.requested(),
                    request.method,
                    field_views(request.headers@),
                ) == Some(error),
            },
    {
        if self.requested {
            return Err(Error::Other(RequestFault::AlreadyRequested));
        }
        let lines = match make_header_lines(&request.headers) {
            Ok(lines) => lines,
            Err(i) => {
                proof {
                    lemma_first_invalid_header_is_unique(field_views(request.headers@), i as int);
                }
                return Err(Error::Other(RequestFault::InvalidHeaderValue(i)));
            },
        };
        let ghost before = self.plan();
        let ghost added = request_options(
            request.url@,
            request.method,
            field_views(request.headers@),
            request.body.body_bytes(),
        );
        let mut client = self;
        match request.method {
            Method::Post => {
                client = client.with_option(EngineOption::Words(Text::Url, request.url));
                client = client.with_option(EngineOption::HttpHeaders(lines));
                client = client.with_option(EngineOption::Flag(Switch::Post, true));
                match request.body.get_bytes() {
                    Some(bytes) => {
                        let size = bytes.len() as u64;
                        let copy = bytes.clone();
                        client = client.with_option(
                            EngineOption::Number(Quantity::PostFieldSize, size),
                        );
                        client = client.with_option(
                            EngineOption::Bytes(Blob::PostFieldsCopy, copy),
                        );
                    },
                    None => {},
                }
            },
            Method::Get => {
                client = client.with_option(EngineOption::Words(Text::Url, request.url));
                client = client.with_option(EngineOption::HttpHeaders(lines));
                client = client.with_option(EngineOption::Flag(Switch::Get, true));
            },
            Method::Put => {
                client = client.with_option(EngineOption::Words(Text::Url, request.url));
                client = client.with_option(EngineOption::HttpHeaders(lines));
                client = client.with_option(EngineOption::Flag(Switch::Upload, true));
            },
            _ => {
                return Err(Error::Unimplemented(request.method));
            },
        }
        client.requested = true;
        assert(client.plan() =~= before + added);
        Ok(client)
    }

    /// Has the transfer start `offset` bytes into the resource.
    pub fn resume_from(self, offset: BytesOffset) -> (result: Result<Self, Error>)
        ensures
            result matches Ok(client) && client.extended_by(
                &self,
                EngineOptionView::Number(Quantity::ResumeFrom, offset.0 as u64),
            ),
    {
        Ok(self.with_option(EngineOption::Number(Quantity::ResumeFrom, offset.0 as u64)))
    }

    /// Limits the average download rate.
    pub fn download_speed(self, speed: Bps) -> (result: Result<Self, Error>)
        ensures
            result matches Ok(client) && client.extended_by(
                &self,
                EngineOptionView::Number(Quantity::MaxRecvSpeed, speed.0),
            ),
    {
        Ok(self.with_option(EngineOption::Number(Quantity::MaxRecvSpeed, speed.0)))
    }

    /// Announces the size of the file that is uploaded.
    pub fn upload_file_size(self, size: FileSize) -> (result: Result<Self, Error>)
        ensures
            result matches Ok(client) && client.extended_by(
                &self,
                EngineOptionView::Number(Quantity::InFilesize, size.0 as u64),
            ),
    {
        Ok(self.with_option(EngineOption::Number(Quantity::InFilesize, size.0 as u64)))
    }

    /// Limits the average upload rate.
    pub fn upload_speed(self, speed: Bps) -> (result: Result<Self, Error>)
        ensures
            result matches Ok(client) && client.extended_by(
                &self,
                EngineOptionView::Number(Quantity::MaxSendSpeed, speed.0),
            ),
    {
        Ok(self.with_option(EngineOption::Number(Quantity::MaxSendSpeed, speed.0)))
    }

    /// Has all operations tunnelled through the proxy.
    pub fn http_proxy_tunnel(self, tunnel: bool) -> (result: Result<Self, Error>)
        ensures
            result matches Ok(client) && client.extended_by(
                &self,
                EngineOptionView::Flag(Switch::HttpProxyTunnel, tunnel),
            ),
    {
        Ok(self.with_option(EngineOption::Flag(Switch::HttpProxyTunnel, tunnel)))
    }

    /// Has redirects followed.
    pub fn follow_location(self, enable: bool) -> (result: Result<Self, Error>)
        ensures
            result matches Ok(client) && client.extended_by(
                &self,
                EngineOptionView::Flag(Switch::FollowLocation, enable),
            ),
    {
        Ok(self.with_option(EngineOption::Flag(Switch::FollowLocation, enable)))
    }

    /// Has the transfer use a connection of its own.
    pub fn fresh_connect(self, enable: bool) -> (result: Result<Self, Error>)
        ensures
            result matches Ok(client) && client.extended_by(
                &self,
                EngineOptionView::Flag(Switch::FreshConnect, enable),
            ),
    {
        Ok(self.with_option(EngineOption::Flag(Switch::FreshConnect, enable)))
    }

    /// Has the connection closed after the transfer.
    pub fn forbid_reuse(self, enable: bool) -> (result: Result<Self, Error>)
        ensures
            result matches Ok(client) && client.extended_by(
                &self,
                EngineOptionView::Flag(Switch::ForbidReuse, enable),
            ),
    {
        Ok(self.with_option(EngineOption::Flag(Switch::ForbidReuse, enable)))
    }

    /// Has the engine describe what it does.
    pub fn verbose(self, verbose: bool) -> (result: Result<Self, Error>)
        ensures
            result matches Ok(client) && client.extended_by(
                &self,
                EngineOptionView::Flag(Switch::Verbose, verbose),
            ),
    {
        Ok(self.with_option(EngineOption::Flag(Switch::Verbose, verbose)))
    }

    /// Has the headers written into the body.
    pub fn show_header(self, show: bool) -> (result: Result<Self, Error>)
        ensures
            result matches Ok(client) && client.extended_by(
                &self,
                EngineOptionView::Flag(Switch::ShowHeader, show),
            ),
    {
        Ok(self.with_option(EngineOption::Flag(Switch::ShowHeader, show)))
    }

    /// Has the engine report progress.
    pub fn progress(self, progress: bool) -> (result: Result<Self, Error>)
        ensures
            result matches Ok(client) && client.extended_by(
                &self,
                EngineOptionView::Flag(Switch::Progress, progress),
            ),
    {
        Ok(self.with_option(EngineOption::Flag(Switch::Progress, progress)))
    }

    /// Asks for the modification time of the resource.
    pub fn fetch_filetime(self, fetch: bool) -> (result: Result<Self, Error>)
        ensures
            result matches Ok(client) && client.extended_by(
                &self,
                EngineOptionView::Flag(Switch::FetchFiletime, fetch),
            ),
    {
        Ok(self.with_option(EngineOption::Flag(Switch::FetchFiletime, fetch)))
    }

    /// Asks for the headers only.
    pub fn nobody(self, enable: bool) -> (result: Result<Self, Error>)
        ensures
            result matches Ok(client) && client.extended_by(
                &self,
                EngineOptionView::Flag(Switch::Nobody, enable),
            ),
    {
        Ok(self.with_option(EngineOption::Flag(Switch::Nobody, enable)))
    }

    /// Starts a new cookie session.
    pub fn cookie_session(self, session: bool) -> (result: Result<Self, Error>)
        ensures
            result matches Ok(client) && client.extended_by(
                &self,
                EngineOptionView::Flag(Switch::CookieSession, session),
            ),
    {
        Ok(self.with_option(EngineOption::Flag(Switch::CookieSession, session)))
    }

    /// Asks for a GET request.
    pub fn get(self, enable: bool) -> (result: Result<Self, Error>)
        ensures
            result matches Ok(client) && client.extended_by(
                &self,
                EngineOptionView::Flag(Switch::Get, enable),
            ),
    {
        Ok(self.with_option(EngineOption::Flag(Switch::Get, enable)))
    }

    /// Asks for a POST request.
    pub fn post(self, enable: bool) -> (result: Result<Self, Error>)
        ensures
            result matches Ok(client) && client.extended_by(
                &self,
                EngineOptionView::Flag(Switch::Post, enable),
            ),
    {
        Ok(self.with_option(EngineOption::Flag(Switch::Post, enable)))
    }

    /// Has data uploaded.
    pub fn upload(self, enable: bool) -> (result: Result<Self, Error>)
        ensures
            result matches Ok(client) && client.extended_by(
                &self,
                EngineOptionView::Flag(Switch::Upload, enable),
            ),
    {
        Ok(self.with_option(EngineOption::Flag(Switch::Upload, enable)))
    }

    /// Sets the user name for the server.
    pub fn username(self, user: &str) -> (result: Result<Self, Error>)
        ensures
            result matches Ok(client) && client.extended_by(
                &self,
                EngineOptionView::Words(Text::Username, user@),
            ),
    {
        Ok(self.with_option(EngineOption::Words(Text::Username, user.to_owned())))
    }

    /// Sets the password for the server.
    pub fn password(self, pass: &str) -> (result: Result<Self, Error>)
        ensures
            result matches Ok(client) && client.extended_by(
                &self,
                EngineOptionView::Words(Text::Password, pass@),
            ),
    {
        Ok(self.with_option(EngineOption::Words(Text::Password, pass.to_owned())))
    }

    /// Names the file of certificate authorities.
    pub fn cainfo(self, path: &str) -> (result: Result<Self, Error>)
        ensures
            result matches Ok(client) && client.extended_by(
                &self,
                EngineOptionView::Words(Text::Cainfo, path@),
            ),
    {
        Ok(self.with_option(EngineOption::Words(Text::Cainfo, path.to_owned())))
    }

    /// Names the directory of certificate authorities.
    pub fn capath(self, path: &str) -> (result: Result<Self, Error>)
        ensures
            result matches Ok(client) && client.extended_by(
                &self,
                EngineOptionView::Words(Text::Capath, path@),
            ),
    {
        Ok(self.with_option(EngineOption::Words(Text::Capath, path.to_owned())))
    }

    /// Sets the user name for the proxy.
    pub fn proxy_username(self, user: &str) -> (result: Result<Self, Error>)
        ensures
            result matches Ok(client) && client.extended_by(
                &self,
                EngineOptionView::Words(Text::ProxyUsername, user@),
            ),
    {
        Ok(self.with_option(EngineOption::Words(Text::ProxyUsername, user.to_owned())))
    }

    /// Sets the password for the proxy.
    pub fn proxy_password(self, pass: &str) -> (result: Result<Self, Error>)
        ensures
            result matches Ok(client) && client.extended_by(
                &self,
                EngineOptionView::Words(Text::ProxyPassword, pass@),
            ),
    {
        Ok(self.with_option(EngineOption::Words(Text::ProxyPassword, pass.to_owned())))
    }

    /// Names the proxy.
    pub fn proxy(self, url: &str) -> (result: Result<Self, Error>)
        ensures
            result matches Ok(client) && client.extended_by(
                &self,
                EngineOptionView::Words(Text::Proxy, url@),
            ),
    {
        Ok(self.with_option(EngineOption::Words(Text::Proxy, url.to_owned())))
    }

    /// Names the file of certificate authorities for the proxy.
    pub fn proxy_cainfo(self, cainfo: &str) -> (result: Result<Self, Error>)
        ensures
            result matches Ok(client) && client.extended_by(
                &self,
                EngineOptionView::Words(Text::ProxyCainfo, cainfo@),
            ),
    {
        Ok(self.with_option(EngineOption::Words(Text::ProxyCainfo, cainfo.to_owned())))
    }

    /// Names the directory of certificate authorities for the proxy.
    pub fn proxy_capath(self, path: &str) -> (result: Result<Self, Error>)
        ensures
            result matches Ok(client) && client.extended_by(
                &self,
                EngineOptionView::Words(Text::ProxyCapath, path@),
            ),
    {
        Ok(self.with_option(EngineOption::Words(Text::ProxyCapath, path.to_owned())))
    }

    /// Names the client certificate for the proxy.
    pub fn proxy_sslcert(self, sslcert: &str) -> (result: Result<Self, Error>)
        ensures
            result matches Ok(client) && client.extended_by(
                &self,
                EngineOptionView::Words(Text::ProxySslcert, sslcert@),
            ),
    {
        Ok(self.with_option(EngineOption::Words(Text::ProxySslcert, sslcert.to_owned())))
    }

    /// Names the format of the client certificate for the proxy.
    pub fn proxy_sslcert_type(self, kind: &str) -> (result: Result<Self, Error>)
        ensures
            result matches Ok(client) && client.extended_by(
                &self,
                EngineOptionView::Words(Text::ProxySslcertType, kind@),
            ),
    {
        Ok(self.with_option(EngineOption::Words(Text::ProxySslcertType, kind.to_owned())))
    }

    /// Names the private key for the proxy.
    pub fn proxy_sslkey(self, sslkey: &str) -> (result: Result<Self, Error>)
        ensures
            result matches Ok(client) && client.extended_by(
                &self,
                EngineOptionView::Words(Text::ProxySslkey, sslkey@),
            ),
    {
        Ok(self.with_option(EngineOption::Words(Text::ProxySslkey, sslkey.to_owned())))
    }

    /// Names the format of the private key for the proxy.
    pub fn proxy_sslkey_type(self, kind: &str) -> (result: Result<Self, Error>)
        ensures
            result matches Ok(client) && client.extended_by(
                &self,
                EngineOptionView::Words(Text::ProxySslkeyType, kind@),
            ),
    {
        Ok(self.with_option(EngineOption::Words(Text::ProxySslkeyType, kind.to_owned())))
    }

    /// Sets the passphrase of the private key for the proxy.
    pub fn proxy_key_password(self, password: &str) -> (result: Result<Self, Error>)
        ensures
            result matches Ok(client) && client.extended_by(
                &self,
                EngineOptionView::Words(Text::ProxyKeyPassword, password@),
            ),
    {
        Ok(self.with_option(EngineOption::Words(Text::ProxyKeyPassword, password.to_owned())))
    }

    /// Lists the hosts that are reached without the proxy.
    pub fn noproxy(self, skip: &str) -> (result: Result<Self, Error>)
        ensures
            result matches Ok(client) && client.extended_by(
                &self,
                EngineOptionView::Words(Text::Noproxy, skip@),
            ),
    {
        Ok(self.with_option(EngineOption::Words(Text::Noproxy, skip.to_owned())))
    }

    /// Names the address of the transfer.
    pub fn url(self, url: &str) -> (result: Result<Self, Error>)
        ensures
            result matches Ok(client) && client.extended_by(
                &self,
                EngineOptionView::Words(Text::Url, url@),
            ),
    {
        Ok(self.with_option(EngineOption::Words(Text::Url, url.to_owned())))
    }

    /// Sets the method string that is sent.
    pub fn custom_request(self, request: &str) -> (result: Result<Self, Error>)
        ensures
            result matches Ok(client) && client.extended_by(
                &self,
                EngineOptionView::Words(Text::CustomRequest, request@),
            ),
    {
        Ok(self.with_option(EngineOption::Words(Text::CustomRequest, request.to_owned())))
    }

    /// Sets the port of the server.
    pub fn port(self, port: u16) -> (result: Result<Self, Error>)
        ensures
            result matches Ok(client) && client.extended_by(
                &self,
                EngineOptionView::Number(Quantity::Port, port as u64),
            ),
    {
        Ok(self.with_option(EngineOption::Number(Quantity::Port, port as u64)))
    }

    /// Sets the port of the proxy.
    pub fn proxy_port(self, port: u16) -> (result: Result<Self, Error>)
        ensures
            result matches Ok(client) && client.extended_by(
                &self,
                EngineOptionView::Number(Quantity::ProxyPort, port as u64),
            ),
    {
        Ok(self.with_option(EngineOption::Number(Quantity::ProxyPort, port as u64)))
    }

    /// Sets the preferred size of the receive buffer.
    pub fn download_buffer_size(self, size: usize) -> (result: Result<Self, Error>)
        ensures
            result matches Ok(client) && client.extended_by(
                &self,
                EngineOptionView::Number(Quantity::BufferSize, size as u64),
            ),
    {
        Ok(self.with_option(EngineOption::Number(Quantity::BufferSize, size as u64)))
    }

    /// Sets the preferred size of the send buffer.
    pub fn upload_buffer_size(self, size: usize) -> (result: Result<Self, Error>)
        ensures
            result matches Ok(client) && client.extended_by(
                &self,
                EngineOptionView::Number(Quantity::UploadBufferSize, size as u64),
            ),
    {
        Ok(self.with_option(EngineOption::Number(Quantity::UploadBufferSize, size as u64)))
    }

    /// Sets the preferred size of the receive buffer.
    pub fn buffer_size(self, size: usize) -> (result: Result<Self, Error>)
        ensures
            result matches Ok(client) && client.extended_by(
                &self,
                EngineOptionView::Number(Quantity::BufferSize, size as u64),
            ),
    {
        Ok(self.with_option(EngineOption::Number(Quantity::BufferSize, size as u64)))
    }

    /// Announces the size of the data that is uploaded.
    pub fn in_filesize(self, size: u64) -> (result: Result<Self, Error>)
        ensures
            result matches Ok(client) && client.extended_by(
                &self,
                EngineOptionView::Number(Quantity::InFilesize, size),
            ),
    {
        Ok(self.with_option(EngineOption::Number(Quantity::InFilesize, size)))
    }

    /// Limits the size of what is downloaded.
    pub fn max_filesize(self, size: u64) -> (result: Result<Self, Error>)
        ensures
            result matches Ok(client) && client.extended_by(
                &self,
                EngineOptionView::Number(Quantity::MaxFilesize, size),
            ),
    {
        Ok(self.with_option(EngineOption::Number(Quantity::MaxFilesize, size)))
    }

    /// Limits the time for connecting.
    pub fn connect_timeout(self, timeout: Duration) -> (result: Result<Self, Error>)
        ensures
            result matches Ok(client) && client.extended_by(
                &self,
                EngineOptionView::Period(Limit::ConnectTimeout, timeout),
            ),
    {
        Ok(self.with_option(EngineOption::Period(Limit::ConnectTimeout, timeout)))
    }

    /// Limits the time for the whole transfer.
    pub fn timeout(self, timeout: Duration) -> (result: Result<Self, Error>)
        ensures
            result matches Ok(client) && client.extended_by(
                &self,
                EngineOptionView::Period(Limit::Timeout, timeout),
            ),
    {
        Ok(self.with_option(EngineOption::Period(Limit::Timeout, timeout)))
    }

    /// Gives the client certificate for the proxy as bytes.
    pub fn proxy_sslcert_blob(self, blob: &[u8]) -> (result: Result<Self, Error>)
        ensures
            result matches Ok(client) && client.extended_by(
                &self,
                EngineOptionView::Bytes(Blob::ProxySslcertBlob, blob@),
            ),
    {
        Ok(self.with_option(EngineOption::Bytes(Blob::ProxySslcertBlob, copy_bytes(blob))))
    }

    /// Gives the private key for the proxy as bytes.
    pub fn proxy_sslkey_blob(self, blob: &[u8]) -> (result: Result<Self, Error>)
        ensures
            result matches Ok(client) && client.extended_by(
                &self,
                EngineOptionView::Bytes(Blob::ProxySslkeyBlob, blob@),
            ),
    {
        Ok(self.with_option(EngineOption::Bytes(Blob::ProxySslkeyBlob, copy_bytes(blob))))
    }

    /// Sets the authentication methods to try with the server.
    pub fn http_auth(self, auth: &Auth) -> (result: Result<Self, Error>)
        ensures
            result matches Ok(client) && client.extended_by(&self, EngineOptionView::HttpAuth(*auth)),
    {
        Ok(self.with_option(EngineOption::HttpAuth(*auth)))
    }

    /// Sets the authentication methods to try with the proxy.
    pub fn proxy_auth(self, auth: &Auth) -> (result: Result<Self, Error>)
        ensures
            result matches Ok(client) && client.extended_by(&self, EngineOptionView::ProxyAuth(*auth)),
    {
        Ok(self.with_option(EngineOption::ProxyAuth(*auth)))
    }

    /// Sets the kind of proxy.
    pub fn proxy_type(self, kind: ProxyType) -> (result: Result<Self, Error>)
        ensures
            result matches Ok(client) && client.extended_by(&self, EngineOptionView::Proxy(kind)),
    {
        Ok(self.with_option(EngineOption::Proxy(kind)))
    }

    /// Sets the preferred HTTP version.
    pub fn http_version(self, version: HttpVersion) -> (result: Result<Self, Error>)
        ensures
            result matches Ok(client) && client.extended_by(&self, EngineOptionView::Version(version)),
    {
        Ok(self.with_option(EngineOption::Version(version)))
    }

    /// Sets the preferred TLS version.
    pub fn ssl_version(self, version: SslVersion) -> (result: Result<Self, Error>)
        ensures
            result matches Ok(client) && client.extended_by(&self, EngineOptionView::Ssl(version)),
    {
        Ok(self.with_option(EngineOption::Ssl(version)))
    }

    /// Sets how the time value of a conditional request is read.
    pub fn time_condition(self, cond: TimeCondition) -> (result: Result<Self, Error>)
        ensures
            result matches Ok(client) && client.extended_by(&self, EngineOptionView::Condition(cond)),
    {
        Ok(self.with_option(EngineOption::Condition(cond)))
    }

    /// Sets the time of a conditional request, in seconds since 1970.
    pub fn time_value(self, val: i64) -> (result: Result<Self, Error>)
        ensures
            result matches Ok(client) && client.extended_by(&self, EngineOptionView::TimeValue(val)),
    {
        Ok(self.with_option(EngineOption::TimeValue(val)))
    }

    /// Ends the building: the transfer is to run on the calling thread.
    pub fn blocking(self) -> (perform: SyncPerform<C>)
        ensures
            perform.client() == self,
    {
        SyncPerform { client: self }
    }

    /// Ends the building: the transfer is to be handed to `actor`, which
    /// runs it off the calling thread.
    pub fn nonblocking<A>(self, actor: A) -> (perform: AsyncPerform<C, A>)
        ensures
            perform.client() == self,
            perform.actor() == actor,
    {
        AsyncPerform { actor, client: self }
    }

    /// Forgets every option and the request, and keeps the collector.
    pub fn reset(&mut self)
        ensures
            final(self).collector() == old(self).collector(),
            final(self).plan() == Seq::<EngineOptionView>::empty(),
            !final(self).requested(),
    {
        self.options = Vec::new();
        self.requested = false;
        assert(self.plan() =~= Seq::<EngineOptionView>::empty());
    }
}

/// What the engine is to run: the collector and the options, in order.
#[derive(Debug)]
pub struct Transfer<C> {
    /// The collector that handles the data of the transfer.
    pub collector: C,
    /// The options that the engine is given, in order.
    pub options: Vec<EngineOption>,
}

/// A finished client whose transfer runs on the calling thread.
#[derive(Debug)]
pub struct SyncPerform<C> {
    client: HttpClient<C>,
}

/// A finished client whose transfer is handed to an actor.
#[derive(Debug)]
pub struct AsyncPerform<C, A> {
    actor: A,
    client: HttpClient<C>,
}

/// What a finished client hands over: its transfer, or, where no request
/// was attached, the refusal to run one.
pub open spec fn handed_over<C>(client: HttpClient<C>, result: Result<Transfer<C>, Error>) -> bool {
    match result {
        Ok(transfer) => {
            &&& client.requested()
            &&& transfer.collector == client.collector()
            &&& option_views(transfer.options@) == client.plan()
        },
        Err(error) => !client.requested() && error == Error::Other(RequestFault::NoRequest),
    }
}

impl<C> SyncPerform<C> {
    /// The client as it was when the building ended.
    pub closed spec fn client(&self) -> HttpClient<C> {
        self.client
    }

    /// Hands over the transfer that is to be run. A client without a
    /// request has none.
    pub fn into_transfer(self) -> (result: Result<Transfer<C>, Error>)
        ensures
            handed_over(self.client(), result),
    {
        if !self.client.has_request() {
            return Err(Error::Other(RequestFault::NoRequest));
        }
        let parts = self.client.into_parts();
        Ok(Transfer { collector: parts.0, options: parts.1 })
    }
}

impl<C, A> AsyncPerform<C, A> {
    /// The client as it was when the building ended.
    pub closed spec fn client(&self) -> HttpClient<C> {
        self.client
    }

    /// The actor that is to run the transfer.
    pub closed spec fn actor(&self) -> A {
        self.actor
    }

    /// Hands over the actor and the transfer that it is to run. A client
    /// without a request has none.
    pub fn into_transfer(self) -> (result: (A, Result<Transfer<C>, Error>))
        ensures
            result.0 == self.actor(),
            handed_over(self.client(), result.1),
    {
        if !self.client.has_request() {
            return (self.actor, Err(Error::Other(RequestFault::NoRequest)));
        }
        let parts = self.client.into_parts();
        (self.actor, Ok(Transfer { collector: parts.0, options: parts.1 }))
    }
}

} // verus!
