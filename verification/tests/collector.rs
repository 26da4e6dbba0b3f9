use curl_http_client::abort::AbortSignal;
use curl_http_client::collector::{
    Collector, ExtendedHandler, FileInfo, ReadOutcome, ReadStep, StreamHandler, WriteOutcome,
    WriteStep,
};
use curl_http_client::speed::TransferSpeed;
use std::path::PathBuf;
use tokio::sync::mpsc::{channel, unbounded_channel};

fn write_all(collector: &mut Collector, chunks: &[&[u8]]) {
    for chunk in chunks {
        let step = collector.write(chunk);
        assert_eq!(step, WriteStep::Done(WriteOutcome::Consumed(chunk.len())));
    }
}

#[test]
fn memory_collector_returns_an_empty_body() {
    let mut collector = Collector::Ram(Vec::new());
    write_all(&mut collector, &[]);
    assert_eq!(collector.get_response_body(), Some(Vec::new()));
    write_all(&mut collector, &[b""]);
    assert_eq!(collector.get_response_body(), Some(Vec::new()));
}

#[test]
fn memory_collector_returns_a_small_body() {
    let mut collector = Collector::Ram(Vec::new());
    write_all(&mut collector, &[b"test body"]);
    assert_eq!(collector.get_response_body(), Some(b"test body".to_vec()));
    let (body, headers) = collector.get_response_body_and_headers();
    assert_eq!(body, Some(b"test body".to_vec()));
    assert!(headers.is_none());
}

#[test]
fn memory_collector_joins_the_chunks_of_a_large_body() {
    let expected: Vec<u8> = (0..100_000u32).map(|i| (i % 251) as u8).collect();
    let mut collector = Collector::Ram(Vec::new());
    for chunk in expected.chunks(16_384) {
        assert_eq!(
            collector.write(chunk),
            WriteStep::Done(WriteOutcome::Consumed(chunk.len()))
        );
    }
    assert_eq!(collector.get_response_body(), Some(expected));
}

#[test]
fn memory_collectors_do_not_share_their_bodies() {
    let mut first = Collector::Ram(Vec::new());
    let mut second = Collector::Ram(Vec::new());
    write_all(&mut first, &[b"aa", b"bb"]);
    write_all(&mut second, &[b"cc"]);
    write_all(&mut first, &[b"dd"]);
    assert_eq!(first.get_response_body(), Some(b"aabbdd".to_vec()));
    assert_eq!(second.get_response_body(), Some(b"cc".to_vec()));
}

#[test]
fn headers_are_captured_and_parsed_after_the_transfer() {
    let mut collector = Collector::RamAndHeaders(Vec::new(), Vec::new());
    assert!(collector.header(b"HTTP/1.1 200 OK\r\n"));
    assert!(collector.header(b"Content-Type: text/plain\r\n"));
    assert!(collector.header(b"X-Foo: bar\r\n"));
    assert!(collector.header(b"\r\n"));
    write_all(&mut collector, &[b"test ", b"body"]);
    assert_eq!(
        collector.raw_headers().unwrap().as_slice(),
        b"HTTP/1.1 200 OK\r\nContent-Type: text/plain\r\nX-Foo: bar\r\n\r\n".as_slice()
    );
    let (body, headers) = collector.get_response_body_and_headers();
    assert_eq!(body, Some(b"test body".to_vec()));
    let headers = headers.unwrap();
    assert_eq!(headers.len(), 2);
    assert_eq!(headers.get("content-type").unwrap().as_bytes(), b"text/plain");
    assert_eq!(headers.get("x-foo").unwrap().as_bytes(), b"bar");
}

#[test]
fn collectors_without_header_capture_drop_header_lines() {
    let mut ram = Collector::Ram(Vec::new());
    assert!(ram.header(b"X-Foo: bar\r\n"));
    assert!(ram.raw_headers().is_none());
    assert_eq!(ram.get_response_body(), Some(Vec::new()));
    let mut file = Collector::File(FileInfo::path(PathBuf::from("out.bin")));
    assert!(file.header(b"X-Foo: bar\r\n"));
    assert!(file.raw_headers().is_none());
    let (body, headers) = file.get_response_body_and_headers();
    assert!(body.is_none());
    assert!(headers.is_none());
}

#[test]
fn file_collector_asks_for_an_append_and_counts_what_was_appended() {
    let mut collector = Collector::File(FileInfo::path(PathBuf::from("out.bin")));
    assert_eq!(collector.file_info().unwrap().file_path(), &PathBuf::from("out.bin"));
    let mut file: Vec<u8> = Vec::new();
    for chunk in [b"abc".as_slice(), b"".as_slice(), b"defgh".as_slice()] {
        assert_eq!(collector.write(chunk), WriteStep::Append);
        file.extend_from_slice(chunk);
        let outcome = collector.complete_write(chunk.len(), true, 1_000_000_000);
        assert_eq!(outcome, WriteOutcome::Consumed(chunk.len()));
    }
    assert_eq!(file, b"abcdefgh".to_vec());
    let info = collector.file_info().unwrap();
    assert_eq!(info.bytes_transferred(), file.len());
    assert_eq!(info.transfer_speed().as_bytes_per_sec(), 8);
    assert_eq!(collector.get_response_body(), None);
}

#[test]
fn failed_append_pauses_and_counts_nothing() {
    let mut collector = Collector::FileAndHeaders(FileInfo::path(PathBuf::from("out.bin")), Vec::new());
    assert_eq!(collector.write(b"abc"), WriteStep::Append);
    assert_eq!(collector.complete_write(3, false, 5), WriteOutcome::Pause);
    assert_eq!(collector.file_info().unwrap().bytes_transferred(), 0);
    assert_eq!(collector.file_info().unwrap().transfer_speed().as_bytes_per_sec(), 0);
}

#[test]
fn file_info_counts_and_measures() {
    let mut info = FileInfo::path(PathBuf::from("a"));
    assert_eq!(info.bytes_transferred(), 0);
    assert_eq!(info.transfer_speed().as_bytes_per_sec(), 0);
    info.update_bytes_transferred(500, 1_000_000_000);
    info.update_bytes_transferred(1500, 2_000_000_000);
    assert_eq!(info.bytes_transferred(), 2000);
    assert_eq!(info.transfer_speed().as_bytes_per_sec(), 1000);
    info.update_bytes_transferred(0, 0);
    assert_eq!(info.bytes_transferred(), 2000);
    assert_eq!(info.transfer_speed().as_bytes_per_sec(), 0);
}

#[test]
fn resumed_download_completes_the_file() {
    let full: Vec<u8> = (0..1000u32).map(|i| (i % 7) as u8).collect();
    for k in [0usize, 1, 499, 1000] {
        let mut file = full[..k].to_vec();
        let mut collector = Collector::File(FileInfo::path(PathBuf::from("out.bin")));
        for chunk in full[k..].chunks(64) {
            assert_eq!(collector.write(chunk), WriteStep::Append);
            file.extend_from_slice(chunk);
            collector.complete_write(chunk.len(), true, 1);
        }
        assert_eq!(file, full);
        assert_eq!(collector.file_info().unwrap().bytes_transferred(), full.len() - k);
    }
}

#[test]
fn abort_signal_stops_writes_and_reads() {
    let mut abort = AbortSignal::new();
    let info = FileInfo::path(PathBuf::from("out.bin")).with_perform_aborter(abort.clone());
    let mut collector = Collector::File(info);
    assert!(!collector.abort_requested());
    assert_eq!(collector.write(b"abc"), WriteStep::Append);
    assert_eq!(collector.complete_write(3, true, 10), WriteOutcome::Consumed(3));
    assert_eq!(collector.read(16), ReadStep::Fetch { offset: 3, limit: 16 });
    abort.signal();
    assert!(abort.is_signaled());
    assert!(collector.abort_requested());
    assert_eq!(collector.write(b"def"), WriteStep::Done(WriteOutcome::Abort));
    assert_eq!(collector.write(b"ghi"), WriteStep::Done(WriteOutcome::Abort));
    assert_eq!(collector.read(16), ReadStep::Done(ReadOutcome::Abort));
    assert_eq!(collector.file_info().unwrap().bytes_transferred(), 3);
}

#[test]
fn abort_signal_starts_clear_and_is_shared_by_clones() {
    let mut abort = AbortSignal::new();
    let mut other = abort.clone();
    assert!(!abort.is_signaled());
    assert!(!other.is_signaled());
    other.signal();
    assert!(abort.is_signaled());
    other.signal();
    assert!(abort.is_signaled());
}

#[test]
fn observed_signal_aborts_any_collector() {
    let mut ram = Collector::Ram(b"kept".to_vec());
    assert_eq!(ram.write_observing(b"abc", true), WriteStep::Done(WriteOutcome::Abort));
    assert_eq!(ram.get_response_body(), Some(b"kept".to_vec()));
    assert_eq!(ram.read_observing(8, true), ReadStep::Done(ReadOutcome::Abort));
    assert_eq!(ram.write_observing(b"abc", false), WriteStep::Done(WriteOutcome::Consumed(3)));
    assert_eq!(ram.get_response_body(), Some(b"keptabc".to_vec()));
}

#[test]
fn upload_reads_follow_the_count() {
    let file: Vec<u8> = (0..100u8).collect();
    let mut collector = Collector::File(FileInfo::path(PathBuf::from("in.bin")));
    let mut sent: Vec<u8> = Vec::new();
    loop {
        let (offset, limit) = match collector.read(32) {
            ReadStep::Fetch { offset, limit } => (offset, limit),
            ReadStep::Done(outcome) => panic!("unexpected {:?}", outcome),
        };
        assert_eq!(offset, sent.len());
        let end = usize::min(file.len(), offset + limit);
        sent.extend_from_slice(&file[offset..end]);
        let outcome = collector.complete_read(Some(end - offset), 1_000);
        assert_eq!(outcome, ReadOutcome::Produced(end - offset));
        if end == offset {
            break;
        }
    }
    assert_eq!(sent, file);
    assert_eq!(collector.file_info().unwrap().bytes_transferred(), 100);
}

#[test]
fn failed_read_aborts_and_counts_nothing() {
    let mut collector = Collector::File(FileInfo::path(PathBuf::from("in.bin")));
    assert_eq!(collector.read(8), ReadStep::Fetch { offset: 0, limit: 8 });
    assert_eq!(collector.complete_read(None, 7), ReadOutcome::Abort);
    assert_eq!(collector.file_info().unwrap().bytes_transferred(), 0);
}

#[test]
fn memory_and_streaming_collectors_have_nothing_to_upload() {
    let mut ram = Collector::Ram(Vec::new());
    assert_eq!(ram.read(64), ReadStep::Done(ReadOutcome::Produced(0)));
    let mut headers = Collector::RamAndHeaders(Vec::new(), Vec::new());
    assert_eq!(headers.read(64), ReadStep::Done(ReadOutcome::Produced(0)));
    let (tx, _rx) = unbounded_channel();
    let mut streaming = Collector::Streaming(StreamHandler { chunk_sender: tx, abort: None }, Vec::new());
    assert_eq!(streaming.read(64), ReadStep::Done(ReadOutcome::Produced(0)));
}

#[test]
fn streaming_collector_forwards_each_chunk() {
    let (tx, mut rx) = unbounded_channel();
    let mut collector =
        Collector::Streaming(StreamHandler { chunk_sender: tx, abort: None }, Vec::new());
    assert!(collector.header(b"X-Foo: bar\r\n"));
    write_all(&mut collector, &[b"one", b"two", b""]);
    assert_eq!(rx.try_recv().unwrap(), b"one".to_vec());
    assert_eq!(rx.try_recv().unwrap(), b"two".to_vec());
    assert_eq!(rx.try_recv().unwrap(), Vec::<u8>::new());
    assert!(rx.try_recv().is_err());
    let (body, headers) = collector.get_response_body_and_headers();
    assert_eq!(body, None);
    assert_eq!(headers.unwrap().get("x-foo").unwrap().as_bytes(), b"bar");
}

#[test]
fn streaming_collector_survives_a_closed_channel() {
    let (tx, rx) = unbounded_channel();
    drop(rx);
    let mut collector =
        Collector::Streaming(StreamHandler { chunk_sender: tx, abort: None }, Vec::new());
    assert_eq!(collector.write(b"abc"), WriteStep::Done(WriteOutcome::Consumed(3)));
    assert_eq!(collector.write(b"de"), WriteStep::Done(WriteOutcome::Consumed(2)));
}

#[test]
fn streaming_collector_watches_its_abort_signal() {
    let abort = AbortSignal::new();
    let (tx, mut rx) = unbounded_channel();
    let handler = StreamHandler { chunk_sender: tx, abort: Some(abort.clone()) };
    let mut collector = Collector::Streaming(handler, Vec::new());
    assert_eq!(collector.write(b"abc"), WriteStep::Done(WriteOutcome::Consumed(3)));
    abort.signal();
    assert_eq!(collector.write(b"def"), WriteStep::Done(WriteOutcome::Abort));
    assert_eq!(rx.try_recv().unwrap(), b"abc".to_vec());
    assert!(rx.try_recv().is_err());
}

#[test]
fn speed_samples_reach_the_channel() {
    let (tx, mut rx) = channel::<TransferSpeed>(4);
    let info = FileInfo::path(PathBuf::from("out.bin")).with_transfer_speed_sender(tx);
    let mut collector = Collector::File(info);
    assert_eq!(collector.write(b"abcd"), WriteStep::Append);
    assert_eq!(collector.complete_write(4, true, 2_000_000_000), WriteOutcome::Consumed(4));
    assert_eq!(rx.try_recv().unwrap().as_bytes_per_sec(), 2);
    assert_eq!(collector.complete_read(Some(6), 1_000_000_000), ReadOutcome::Produced(6));
    assert_eq!(rx.try_recv().unwrap().as_bytes_per_sec(), 10);
    assert_eq!(collector.complete_write(4, false, 1), WriteOutcome::Pause);
    assert!(rx.try_recv().is_err());
}

#[test]
fn full_or_closed_speed_channel_does_not_stop_the_transfer() {
    let (tx, mut rx) = channel::<TransferSpeed>(1);
    let info = FileInfo::path(PathBuf::from("out.bin")).with_transfer_speed_sender(tx);
    let mut collector = Collector::File(info);
    assert_eq!(collector.complete_write(1, true, 1_000_000_000), WriteOutcome::Consumed(1));
    assert_eq!(collector.complete_write(1, true, 1_000_000_000), WriteOutcome::Consumed(1));
    assert_eq!(rx.try_recv().unwrap().as_bytes_per_sec(), 1);
    assert!(rx.try_recv().is_err());
    drop(rx);
    assert_eq!(collector.complete_write(1, true, 1_000_000_000), WriteOutcome::Consumed(1));
    assert_eq!(collector.file_info().unwrap().bytes_transferred(), 3);
}

#[test]
fn signal_once_seen_is_remembered_by_the_handle_that_saw_it() {
    let controller = AbortSignal::new();
    let mut watcher = controller.clone();
    assert!(!watcher.is_signaled());
    controller.signal();
    assert!(watcher.is_signaled());
    assert!(watcher.is_signaled());
    let mut later = watcher.clone();
    assert!(later.is_signaled());
    let mut info = FileInfo::path(PathBuf::from("out.bin"));
    assert!(!info.abort_requested());
    let mut info = info.with_perform_aborter(controller.clone());
    assert!(info.abort_requested());
    assert!(info.abort_requested());
    let (tx, _rx) = unbounded_channel::<Vec<u8>>();
    let mut handler = StreamHandler { chunk_sender: tx, abort: None };
    assert!(!handler.abort_requested());
    handler.abort = Some(AbortSignal::new());
    assert!(!handler.abort_requested());
    handler.abort = Some(controller);
    assert!(handler.abort_requested());
    let mut ram = Collector::Ram(Vec::new());
    assert!(!ram.abort_requested());
}

#[test]
fn collector_answers_through_the_handler_trait() {
    fn body_of<H: ExtendedHandler>(handler: &H) -> Option<Vec<u8>> {
        handler.get_response_body()
    }
    struct Silent;
    impl ExtendedHandler for Silent {}
    assert_eq!(body_of(&Collector::Ram(b"abc".to_vec())), Some(b"abc".to_vec()));
    assert_eq!(body_of(&Silent), None);
    let (body, headers) = Silent.get_response_body_and_headers();
    assert!(body.is_none() && headers.is_none());
}

fn captured(raw: &[u8]) -> Vec<(String, Vec<u8>)> {
    let collector = Collector::RamAndHeaders(Vec::new(), raw.to_vec());
    let (_, headers) = collector.get_response_body_and_headers();
    let mut entries: Vec<(String, Vec<u8>)> = headers
        .unwrap()
        .iter()
        .map(|(name, value)| (name.as_str().to_string(), value.as_bytes().to_vec()))
        .collect();
    entries.sort();
    entries
}

fn entry(name: &str, value: &str) -> (String, Vec<u8>) {
    (name.to_string(), value.as_bytes().to_vec())
}

#[test]
fn captured_headers_are_all_kept() {
    assert_eq!(
        captured(b"Content-Type: text/plain\r\nX-Foo: bar\r\n"),
        vec![entry("content-type", "text/plain"), entry("x-foo", "bar")]
    );
    assert_eq!(
        captured(b"HTTP/1.1 200 OK\r\nX-Foo: bar\r\nno-separator-here\r\n\r\n"),
        vec![entry("x-foo", "bar")]
    );
    assert_eq!(captured(b"X-A: b: c\r\n"), vec![entry("x-a", "b: c")]);
    assert_eq!(captured(b"Bad Name: v\r\nX-Foo: bar\r\n"), vec![entry("x-foo", "bar")]);
    assert_eq!(captured(b"X-A: \xff\r\nX-B: c\r\n"), vec![entry("x-b", "c")]);
}

#[test]
fn two_queries_in_a_row_give_the_same() {
    let mut collector = Collector::FileAndHeaders(FileInfo::path(PathBuf::from("x")), Vec::new());
    collector.header(b"Bad Name: v\r\n");
    collector.header(b"X-Foo: bar\r\n");
    let first = collector.get_response_body_and_headers();
    let second = collector.get_response_body_and_headers();
    assert_eq!(first, second);
    assert_eq!(first.0, None);
    assert_eq!(first.1.unwrap().len(), 1);
    assert_eq!(collector.raw_headers().unwrap().as_slice(), b"Bad Name: v\r\nX-Foo: bar\r\n".as_slice());
}

#[test]
fn failed_append_asks_nothing_of_the_count() {
    let mut collector = Collector::File(FileInfo::path(PathBuf::from("out.bin")));
    assert_eq!(collector.complete_write(10, true, 1), WriteOutcome::Consumed(10));
    assert_eq!(collector.complete_write(usize::MAX, false, 2), WriteOutcome::Pause);
    assert_eq!(collector.file_info().unwrap().bytes_transferred(), 10);
}
