use curl_http_client::collector::Collector;
use curl_http_client::error::{Error, HttpFault};
use curl_http_client::headers::accepts_value;
use curl_http_client::response::{
    assemble_response, content_length_header, content_type_header, decimal, TransferReport,
};

fn report(code: u32, content_type: Option<&[u8]>, length: i64) -> TransferReport {
    TransferReport {
        response_code: Ok(code),
        content_type: Ok(content_type.map(|text| text.to_vec())),
        content_length: Ok(length),
    }
}

#[test]
fn response_without_captured_headers_uses_the_report() {
    let mut collector = Collector::Ram(Vec::new());
    collector.write(b"test body");
    let (body, headers) = collector.get_response_body_and_headers();
    let response = assemble_response(body, headers, &report(200, Some(b"text/plain"), 9)).unwrap();
    assert_eq!(response.status_code, 200);
    assert_eq!(response.body, Some(b"test body".to_vec()));
    assert_eq!(response.headers.len(), 2);
    assert_eq!(response.headers.get("content-type").unwrap().as_bytes(), b"text/plain");
    assert_eq!(response.headers.get("content-length").unwrap().as_bytes(), b"9");
}

#[test]
fn response_without_content_type_has_only_the_length() {
    let response = assemble_response(None, None, &report(204, None, -1)).unwrap();
    assert_eq!(response.status_code, 204);
    assert_eq!(response.body, None);
    assert_eq!(response.headers.len(), 1);
    assert_eq!(response.headers.get("content-length").unwrap().as_bytes(), b"-1");
}

#[test]
fn response_with_captured_headers_ignores_the_report() {
    let mut collector = Collector::RamAndHeaders(Vec::new(), Vec::new());
    collector.header(b"HTTP/1.1 200 OK\r\n");
    collector.header(b"Server: mock\r\n");
    collector.write(b"abc");
    let (body, headers) = collector.get_response_body_and_headers();
    let failing = TransferReport {
        response_code: Ok(200),
        content_type: Err(43),
        content_length: Err(44),
    };
    let response = assemble_response(body, headers, &failing).unwrap();
    assert_eq!(response.status_code, 200);
    assert_eq!(response.body, Some(b"abc".to_vec()));
    assert_eq!(response.headers.len(), 1);
    assert_eq!(response.headers.get("server").unwrap().as_bytes(), b"mock");
}

#[test]
fn status_codes_from_100_to_599_are_accepted() {
    assert_eq!(assemble_response(None, None, &report(100, None, 0)).unwrap().status_code, 100);
    assert_eq!(assemble_response(None, None, &report(599, None, 0)).unwrap().status_code, 599);
    for code in [0u32, 99, 600, 999, 65_736, u32::MAX] {
        let error = assemble_response(None, None, &report(code, None, 0)).unwrap_err();
        assert_eq!(error, Error::Http(HttpFault::InvalidStatusCode));
    }
}

#[test]
fn failed_queries_are_reported_in_order() {
    let mut failing = TransferReport {
        response_code: Err(1),
        content_type: Err(2),
        content_length: Err(3),
    };
    assert_eq!(assemble_response(None, None, &failing).unwrap_err(), Error::Curl(1));
    failing.response_code = Ok(700);
    assert_eq!(assemble_response(None, None, &failing).unwrap_err(), Error::Curl(2));
    failing.content_type = Ok(Some(b"bad\x01type".to_vec()));
    assert_eq!(assemble_response(None, None, &failing).unwrap_err(), Error::Curl(3));
    failing.content_type = Ok(Some(b"text/html".to_vec()));
    assert_eq!(assemble_response(None, None, &failing).unwrap_err(), Error::Curl(3));
    failing.content_length = Ok(12);
    assert_eq!(
        assemble_response(None, None, &failing).unwrap_err(),
        Error::Http(HttpFault::InvalidStatusCode)
    );
    failing.response_code = Ok(404);
    assert_eq!(assemble_response(None, None, &failing).unwrap().status_code, 404);
}

#[test]
fn content_type_must_be_a_header_value() {
    assert!(accepts_value(b"text/plain; charset=utf-8"));
    assert!(accepts_value(b""));
    assert!(accepts_value("caf\u{e9}".as_bytes()));
    assert!(!accepts_value(b"a\nb"));
    assert!(!accepts_value(&[0xff]));
    assert!(!accepts_value(&[0x7f]));
}

#[test]
fn numbers_are_written_in_decimal() {
    assert_eq!(decimal(0), b"0".to_vec());
    assert_eq!(decimal(9), b"9".to_vec());
    assert_eq!(decimal(10), b"10".to_vec());
    assert_eq!(decimal(-1), b"-1".to_vec());
    assert_eq!(decimal(1_234_567_890), b"1234567890".to_vec());
    assert_eq!(decimal(i64::MAX), b"9223372036854775807".to_vec());
    assert_eq!(decimal(i64::MIN), b"-9223372036854775808".to_vec());
}

#[test]
fn content_type_that_is_no_header_value_is_left_out() {
    for bad in [b"bad\x01type".as_slice(), b"bad\nline".as_slice(), &[0xff, 0xfe]] {
        let response = assemble_response(None, None, &report(200, Some(bad), 5)).unwrap();
        assert_eq!(response.status_code, 200);
        assert_eq!(response.headers.len(), 1);
        assert!(response.headers.get("content-type").is_none());
        assert_eq!(response.headers.get("content-length").unwrap().as_bytes(), b"5");
    }
}

#[test]
fn error_messages_of_assembly() {
    assert_eq!(Error::Http(HttpFault::InvalidStatusCode).message(), "invalid status code");
}

#[test]
fn names_of_the_reported_headers() {
    assert_eq!(content_type_header(), b"content-type".to_vec());
    assert_eq!(content_length_header(), b"content-length".to_vec());
    assert_eq!(http::header::CONTENT_TYPE.as_str().as_bytes(), content_type_header().as_slice());
    assert_eq!(http::header::CONTENT_LENGTH.as_str().as_bytes(), content_length_header().as_slice());
}

#[test]
fn equal_reports_give_equal_responses() {
    let first = assemble_response(Some(b"a".to_vec()), None, &report(200, Some(b"text/plain"), 1)).unwrap();
    let second = assemble_response(Some(b"a".to_vec()), None, &report(200, Some(b"text/plain"), 1)).unwrap();
    assert_eq!(first.status_code, second.status_code);
    assert_eq!(first.headers, second.headers);
    assert_eq!(first.body, second.body);
    let names: Vec<&str> = first.headers.keys().map(|name| name.as_str()).collect();
    assert_eq!(names, vec!["content-type", "content-length"]);
}
