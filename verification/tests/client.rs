use curl_http_client::collector::Collector;
use curl_http_client::error::{Error, Method, RequestFault};
use curl_http_client::headers::HeaderField;
use curl_http_client::http_client::{
    describe_fault, describe_invalid_header, push_number_list, is_visible, make_header_line, make_header_lines, Auth, Blob, CurlBodyRequest, EngineOption,
    HttpClient, HttpVersion, Limit, ProxyType, Quantity, Request, SslVersion, Switch, Text,
    TimeCondition,
};
use curl_http_client::mock_server::{
    find_first, find_last, parse_range, read_number, same_bytes, ContentRange, MockFault,
    MockReply, MockResponder, ResponderType,
};
use curl_http_client::units::{Bps, BytesOffset, FileSize, Mbps};
use std::time::Duration;

fn request<B>(method: Method, body: B) -> Request<B> {
    Request { url: "http://localhost/test".to_string(), method, headers: Vec::new(), body }
}

fn header(name: &str, value: &[u8]) -> HeaderField {
    HeaderField { name: name.as_bytes().to_vec(), value: value.to_vec() }
}

fn client() -> HttpClient<Collector> {
    HttpClient::new(Collector::Ram(Vec::new()))
}

fn url_and_headers(lines: Vec<Vec<u8>>) -> Vec<EngineOption> {
    vec![
        EngineOption::Words(Text::Url, "http://localhost/test".to_string()),
        EngineOption::HttpHeaders(lines),
    ]
}

#[test]
fn new_client_has_no_options() {
    let client = client();
    assert!(client.options().is_empty());
    assert!(!client.has_request());
}

#[test]
fn get_request_sets_address_headers_and_method() {
    let client = client().request(request(Method::Get, None::<Vec<u8>>)).unwrap();
    let mut expected = url_and_headers(Vec::new());
    expected.push(EngineOption::Flag(Switch::Get, true));
    assert_eq!(client.options(), &expected);
    assert!(client.has_request());
}

#[test]
fn post_request_announces_and_copies_the_body() {
    let body = Some(b"test body".to_vec());
    let client = client().request(request(Method::Post, body)).unwrap();
    let mut expected = url_and_headers(Vec::new());
    expected.push(EngineOption::Flag(Switch::Post, true));
    expected.push(EngineOption::Number(Quantity::PostFieldSize, 9));
    expected.push(EngineOption::Bytes(Blob::PostFieldsCopy, b"test body".to_vec()));
    assert_eq!(client.options(), &expected);
    let plain = self::client().request(request(Method::Post, b"test body".to_vec())).unwrap();
    assert_eq!(plain.options(), &expected);
}

#[test]
fn post_with_empty_body_is_post_without_body() {
    let absent = client().request(request(Method::Post, None::<Vec<u8>>)).unwrap();
    let empty = client().request(request(Method::Post, Vec::<u8>::new())).unwrap();
    let mut expected = url_and_headers(Vec::new());
    expected.push(EngineOption::Flag(Switch::Post, true));
    assert_eq!(absent.options(), &expected);
    assert_eq!(empty.options(), absent.options());
}

#[test]
fn post_with_present_empty_body_announces_size_zero() {
    let client = client().request(request(Method::Post, Some(Vec::<u8>::new()))).unwrap();
    let mut expected = url_and_headers(Vec::new());
    expected.push(EngineOption::Flag(Switch::Post, true));
    expected.push(EngineOption::Number(Quantity::PostFieldSize, 0));
    expected.push(EngineOption::Bytes(Blob::PostFieldsCopy, Vec::new()));
    assert_eq!(client.options(), &expected);
}

#[test]
fn put_request_turns_upload_on_and_sends_no_body_option() {
    let client = client().request(request(Method::Put, Some(b"ignored".to_vec()))).unwrap();
    let mut expected = url_and_headers(Vec::new());
    expected.push(EngineOption::Flag(Switch::Upload, true));
    assert_eq!(client.options(), &expected);
}

#[test]
fn body_bytes_of_vectors_and_options() {
    assert_eq!(Vec::<u8>::new().get_bytes(), None);
    assert_eq!(vec![1u8, 2].get_bytes(), Some(&vec![1u8, 2]));
    assert_eq!(None::<Vec<u8>>.get_bytes(), None);
    assert_eq!(Some(Vec::<u8>::new()).get_bytes(), Some(&Vec::new()));
    assert_eq!(Some(vec![7u8]).get_bytes(), Some(&vec![7u8]));
}

#[test]
fn request_headers_become_lines_in_order() {
    let mut req = request(Method::Get, None::<Vec<u8>>);
    req.headers = vec![header("Accept", b"*/*"), header("X-Tab", b"a\tb"), header("X-Empty", b"")];
    let client = client().request(req).unwrap();
    let lines = vec![b"Accept: */*".to_vec(), b"X-Tab: a\tb".to_vec(), b"X-Empty: ".to_vec()];
    assert_eq!(client.options()[1], EngineOption::HttpHeaders(lines));
    assert_eq!(make_header_line(&header("A", b"b")), b"A: b".to_vec());
}

#[test]
fn first_invalid_header_value_refuses_the_request() {
    let mut req = request(Method::Get, None::<Vec<u8>>);
    req.headers = vec![header("A", b"fine"), header("B", b"caf\xc3\xa9"), header("C", b"\x01")];
    let error = client().request(req).unwrap_err();
    assert_eq!(error, Error::Other(RequestFault::InvalidHeaderValue(1)));
    assert_eq!(
        make_header_lines(&vec![header("A", b"ok"), header("B", b"\x7f")]),
        Err(1)
    );
    assert!(is_visible(b"visible text ~"));
    assert!(is_visible(b""));
    assert!(!is_visible(b"line\nfeed"));
    assert!(!is_visible(&[0x80]));
}

#[test]
fn other_methods_are_not_implemented() {
    for method in [
        Method::Delete,
        Method::Head,
        Method::Options,
        Method::Patch,
        Method::Trace,
        Method::Connect,
    ] {
        let error = client().request(request(method, None::<Vec<u8>>)).unwrap_err();
        assert_eq!(error, Error::Unimplemented(method));
    }
}

#[test]
fn second_request_is_refused() {
    let first = client().request(request(Method::Get, None::<Vec<u8>>)).unwrap();
    let error = first.request(request(Method::Get, None::<Vec<u8>>)).unwrap_err();
    assert_eq!(error, Error::Other(RequestFault::AlreadyRequested));
    let mut bad = request(Method::Delete, None::<Vec<u8>>);
    bad.headers = vec![header("A", b"\x00")];
    let first = client().request(request(Method::Get, None::<Vec<u8>>)).unwrap();
    assert_eq!(first.request(bad).unwrap_err(), Error::Other(RequestFault::AlreadyRequested));
    let mut bad = request(Method::Delete, None::<Vec<u8>>);
    bad.headers = vec![header("A", b"\x00")];
    assert_eq!(
        client().request(bad).unwrap_err(),
        Error::Other(RequestFault::InvalidHeaderValue(0))
    );
}

#[test]
fn transfer_options_are_recorded_in_order() {
    let client = client()
        .resume_from(BytesOffset::from(1000usize))
        .unwrap()
        .download_speed(Bps::from(5_000_000u64))
        .unwrap()
        .upload_file_size(FileSize::from(77usize))
        .unwrap()
        .upload_speed(Bps::from(Mbps::from(2)))
        .unwrap()
        .request(request(Method::Put, None::<Vec<u8>>))
        .unwrap()
        .progress(true)
        .unwrap();
    let options = client.options();
    assert_eq!(options.len(), 8);
    assert_eq!(options[0], EngineOption::Number(Quantity::ResumeFrom, 1000));
    assert_eq!(options[1], EngineOption::Number(Quantity::MaxRecvSpeed, 5_000_000));
    assert_eq!(options[2], EngineOption::Number(Quantity::InFilesize, 77));
    assert_eq!(options[3], EngineOption::Number(Quantity::MaxSendSpeed, 250_000));
    assert_eq!(options[6], EngineOption::Flag(Switch::Upload, true));
    assert_eq!(options[7], EngineOption::Flag(Switch::Progress, true));
}

#[test]
fn plain_options_are_recorded_with_their_values() {
    let client = client()
        .username("user")
        .unwrap()
        .port(8080)
        .unwrap()
        .verbose(false)
        .unwrap()
        .proxy_sslkey_blob(&[1, 2, 3])
        .unwrap()
        .time_value(-5)
        .unwrap()
        .timeout(Duration::from_millis(1500))
        .unwrap()
        .connect_timeout(Duration::from_secs(3))
        .unwrap()
        .url("http://example.org")
        .unwrap();
    let expected = vec![
        EngineOption::Words(Text::Username, "user".to_string()),
        EngineOption::Number(Quantity::Port, 8080),
        EngineOption::Flag(Switch::Verbose, false),
        EngineOption::Bytes(Blob::ProxySslkeyBlob, vec![1, 2, 3]),
        EngineOption::TimeValue(-5),
        EngineOption::Period(Limit::Timeout, Duration::from_millis(1500)),
        EngineOption::Period(Limit::ConnectTimeout, Duration::from_secs(3)),
        EngineOption::Words(Text::Url, "http://example.org".to_string()),
    ];
    assert_eq!(client.options(), &expected);
    assert!(!client.has_request());
}

#[test]
fn reset_forgets_options_and_request() {
    let mut client = client().verbose(true).unwrap().request(request(Method::Get, None::<Vec<u8>>)).unwrap();
    client.reset();
    assert!(client.options().is_empty());
    assert!(!client.has_request());
    let client = client.request(request(Method::Get, None::<Vec<u8>>)).unwrap();
    let (collector, options) = client.into_parts();
    assert_eq!(options.len(), 3);
    assert_eq!(collector.get_response_body(), Some(Vec::new()));
}

#[test]
fn error_messages_name_the_kind_of_error() {
    assert_eq!(Error::Unimplemented(Method::Delete).message(), "request method not implemented");
    assert_eq!(Error::Other(RequestFault::InvalidHeaderValue(0)).message(), "invalid header value");
    assert_eq!(Error::Other(RequestFault::AlreadyRequested).message(), "a request is already attached");
    assert_eq!(Error::Curl(3).message(), "the transfer engine refused an option or a query");
    assert_eq!(Error::Perform(7).message(), "the transfer failed");
}

#[test]
fn mock_responder_keeps_its_kind() {
    let mock = MockResponder::new(ResponderType::Body(b"test body".to_vec()));
    assert_eq!(mock.responder(), &ResponderType::Body(b"test body".to_vec()));
    let mock = MockResponder::new(ResponderType::File);
    assert_eq!(mock.responder(), &ResponderType::File);
}

#[test]
fn mock_responder_answers_a_get_with_its_body() {
    let mock = MockResponder::new(ResponderType::Body(b"test body".to_vec()));
    let reply = mock.respond(Method::Get, None, b"sample", b"").unwrap();
    assert_eq!(reply, MockReply { status: 200, range: None, body: b"test body".to_vec() });
}

#[test]
fn mock_responder_answers_a_get_with_the_file_or_a_part_of_it() {
    let mock = MockResponder::new(ResponderType::File);
    let sample = b"0123456789";
    let whole = mock.respond(Method::Get, None, sample, b"").unwrap();
    assert_eq!(whole, MockReply { status: 200, range: None, body: sample.to_vec() });
    let part = mock.respond(Method::Get, Some(b"bytes=4-"), sample, b"").unwrap();
    let range = ContentRange { first: 4, last: 9, total: 10 };
    assert_eq!(part, MockReply { status: 206, range: Some(range), body: b"456789".to_vec() });
    assert_eq!(range.text(), b"bytes 4-9/10".to_vec());
    let end = mock.respond(Method::Get, Some(b"bytes=10-"), sample, b"").unwrap();
    assert_eq!(end.body, Vec::<u8>::new());
    assert_eq!(
        mock.respond(Method::Get, Some(b"bytes=11-"), sample, b""),
        Err(MockFault::BadRange)
    );
    assert_eq!(
        mock.respond(Method::Get, Some(b"bytes 4"), sample, b""),
        Err(MockFault::BadRange)
    );
    assert_eq!(
        mock.respond(Method::Get, Some(b"bytes=0-"), b"", b""),
        Err(MockFault::BadRange)
    );
}

#[test]
fn mock_responder_checks_what_was_uploaded() {
    let file = MockResponder::new(ResponderType::File);
    let body = MockResponder::new(ResponderType::Body(b"abc".to_vec()));
    let empty = MockReply { status: 200, range: None, body: Vec::new() };
    assert_eq!(file.respond(Method::Post, None, b"sample", b"anything"), Ok(empty.clone()));
    assert_eq!(file.respond(Method::Put, None, b"sample", b"sample"), Ok(empty.clone()));
    assert_eq!(
        file.respond(Method::Put, None, b"sample", b"sampl"),
        Err(MockFault::UnexpectedBody)
    );
    assert_eq!(body.respond(Method::Post, None, b"sample", b"abc"), Ok(empty.clone()));
    assert_eq!(body.respond(Method::Put, None, b"sample", b"abc"), Ok(empty));
    assert_eq!(
        body.respond(Method::Post, None, b"sample", b"abd"),
        Err(MockFault::UnexpectedBody)
    );
    assert_eq!(
        body.respond(Method::Delete, None, b"sample", b"abc"),
        Err(MockFault::UnsupportedMethod)
    );
}

#[test]
fn range_header_gives_the_first_position() {
    assert_eq!(parse_range(b"bytes=0-"), Some(0));
    assert_eq!(parse_range(b"bytes=1234-"), Some(1234));
    assert_eq!(parse_range(b"bytes=12-34"), Some(12));
    assert_eq!(parse_range(b"bytes=1-2-3"), None);
    assert_eq!(parse_range(b"bytes=+7-"), Some(7));
    assert_eq!(parse_range(b"bytes=-"), None);
    assert_eq!(parse_range(b"bytes=12"), None);
    assert_eq!(parse_range(b"bytes-12"), None);
    assert_eq!(parse_range(b"-="), None);
    assert_eq!(parse_range(b"a=b=5-"), None);
    assert_eq!(parse_range(b"=18446744073709551615-"), Some(u64::MAX));
    assert_eq!(parse_range(b"=18446744073709551616-"), None);
    assert_eq!(parse_range(b""), None);
}

#[test]
fn numbers_are_read_from_digits() {
    assert_eq!(read_number(b"0"), Some(0));
    assert_eq!(read_number(b"007"), Some(7));
    assert_eq!(read_number(b"+42"), Some(42));
    assert_eq!(read_number(b""), None);
    assert_eq!(read_number(b"+"), None);
    assert_eq!(read_number(b"-1"), None);
    assert_eq!(read_number(b"1 "), None);
    assert_eq!(read_number(b"99999999999999999999"), None);
    assert_eq!(find_first(b"a=b=c", b'='), Some(1));
    assert_eq!(find_last(b"a=b=c", b'='), Some(3));
    assert_eq!(find_first(b"abc", b'='), None);
    assert_eq!(find_last(b"", b'='), None);
    assert!(same_bytes(b"", b""));
    assert!(same_bytes(b"ab", b"ab"));
    assert!(!same_bytes(b"ab", b"abc"));
    assert!(!same_bytes(b"ab", b"ac"));
}

#[test]
fn options_with_a_choice_are_recorded() {
    let auth = Auth { basic: true, digest: false, digest_ie: false, gssnegotiate: false, ntlm: true, ntlm_wb: false };
    let client = client()
        .http_auth(&auth)
        .unwrap()
        .proxy_auth(&auth)
        .unwrap()
        .proxy_type(ProxyType::Socks5)
        .unwrap()
        .http_version(HttpVersion::V2)
        .unwrap()
        .ssl_version(SslVersion::Tlsv13)
        .unwrap()
        .time_condition(TimeCondition::IfModifiedSince)
        .unwrap();
    let expected = vec![
        EngineOption::HttpAuth(auth),
        EngineOption::ProxyAuth(auth),
        EngineOption::Proxy(ProxyType::Socks5),
        EngineOption::Version(HttpVersion::V2),
        EngineOption::Ssl(SslVersion::Tlsv13),
        EngineOption::Condition(TimeCondition::IfModifiedSince),
    ];
    assert_eq!(client.options(), &expected);
}

#[test]
fn transfer_is_handed_over_only_with_a_request() {
    let error = client().verbose(true).unwrap().blocking().into_transfer().unwrap_err();
    assert_eq!(error, Error::Other(RequestFault::NoRequest));
    assert_eq!(error.message(), "no request is attached");
    let ready = client().request(request(Method::Get, None::<Vec<u8>>)).unwrap().blocking();
    let transfer = ready.into_transfer().unwrap();
    assert_eq!(transfer.options.len(), 3);
    assert_eq!(transfer.collector.get_response_body(), Some(Vec::new()));
    let (actor, result) = client().nonblocking(7u8).into_transfer();
    assert_eq!(actor, 7);
    assert_eq!(result.unwrap_err(), Error::Other(RequestFault::NoRequest));
    let (actor, result) = client()
        .request(request(Method::Put, None::<Vec<u8>>))
        .unwrap()
        .nonblocking("actor")
        .into_transfer();
    assert_eq!(actor, "actor");
    assert_eq!(result.unwrap().options.len(), 3);
}

#[test]
fn invalid_request_header_is_named_with_its_bytes() {
    assert_eq!(
        describe_invalid_header(&header("x-bin", &[1, 255, 10])),
        b"invalid x-bin header value [1, 255, 10]".to_vec()
    );
    assert_eq!(
        describe_invalid_header(&header("x-bin", &[1, 255, 10])),
        format!("invalid {} header value {:?}", "x-bin", [1u8, 255, 10].as_slice()).into_bytes()
    );
    assert_eq!(describe_invalid_header(&header("a", &[])), b"invalid a header value []".to_vec());
    assert_eq!(describe_invalid_header(&header("a", &[0])), b"invalid a header value [0]".to_vec());
    let mut list = b"x".to_vec();
    push_number_list(&mut list, &[7, 80, 200]);
    assert_eq!(list, b"x7, 80, 200".to_vec());
}

#[test]
fn refusal_of_a_header_is_described() {
    let headers = vec![header("A", b"fine"), header("B", b"\x01")];
    let mut req = request(Method::Get, None::<Vec<u8>>);
    req.headers = headers.clone();
    let error = client().request(req).unwrap_err();
    assert_eq!(
        describe_fault(&headers, &error),
        Some(b"invalid B header value [1]".to_vec())
    );
    assert_eq!(describe_fault(&headers, &Error::Other(RequestFault::InvalidHeaderValue(2))), None);
    assert_eq!(describe_fault(&headers, &Error::Other(RequestFault::AlreadyRequested)), None);
    assert_eq!(describe_fault(&headers, &Error::Unimplemented(Method::Delete)), None);
}
