//! Collectors: what receives a response body, supplies a request body and
//! captures headers while the engine runs a transfer.
//!
//! The engine drives a collector through three callbacks. A collector never
//! touches a file itself. Where a callback needs the file, it answers with a
//! step that names the work, and is told afterwards how that work went:
//! `write` and `complete_write` for a download, `read` and `complete_read`
//! for an upload.
use crate::abort::AbortSignal;
use crate::headers::{
    append_bytes, copy_bytes, entries_of, header_fields, header_map_entries, is_accepted_field,
    parse_headers, HEADER_MAP_ROOM,
};
use crate::speed::{average_rate, capped_rate, TransferSpeed};
use http::{HeaderMap, HeaderValue};
use std::path::PathBuf;
use tokio::sync::mpsc::{Sender, UnboundedSender};
use vstd::prelude::*;

verus! {

/// The sending half of a bounded channel of tokio. Nothing inside it is
/// visible here.
#[verifier::external_type_specification]
#[verifier::external_body]
#[verifier::reject_recursive_types(T)]
pub struct ExSender<T>(Sender<T>);

/// The sending half of an unbounded channel of tokio. Nothing inside it is
/// visible here.
#[verifier::external_type_specification]
#[verifier::external_body]
#[verifier::reject_recursive_types(T)]
pub struct ExUnboundedSender<T>(UnboundedSender<T>);

/// The owned file path of std. Nothing inside it is visible here.
#[verifier::external_type_specification]
#[verifier::external_body]
pub struct ExPathBuf(PathBuf);

/// A clone of a `PathBuf` is a path of its own; nothing is stated of it.
pub assume_specification[ <PathBuf as Clone>::clone ](path: &PathBuf) -> PathBuf;

/// A clone of a `Sender` is another handle on the same channel; nothing is
/// stated of it.
pub assume_specification<T>[ <Sender<T> as Clone>::clone ](sender: &Sender<T>) -> Sender<T>;

/// A clone of an `UnboundedSender` is another handle on the same channel;
/// nothing is stated of it.
pub assume_specification<T>[ <UnboundedSender<T> as Clone>::clone ](
    sender: &UnboundedSender<T>,
) -> UnboundedSender<T>;

/// Calls `Sender::try_send`, which hands the sample to the channel without
/// waiting. The answer is whether the channel took it; that depends on the
/// receiving side, so nothing is promised of it.
#[verifier::external_body]
pub(crate) fn offer_speed(sender: &Sender<TransferSpeed>, speed: TransferSpeed) -> (taken: bool) {
    sender.try_send(speed).is_ok()
}

/// Calls `UnboundedSender::send`, which hands the chunk to the channel
/// without waiting. The answer is whether a receiver is still there; that
/// depends on the receiving side, so nothing is promised of it.
#[verifier::external_body]
pub(crate) fn forward_chunk(sender: &UnboundedSender<Vec<u8>>, chunk: Vec<u8>) -> (taken: bool) {
    sender.send(chunk).is_ok()
}

/// What a write callback tells the engine.
#[derive(Clone, Copy, Debug, PartialEq, Eq, Structural)]
pub enum WriteOutcome {
    /// This many bytes were taken: always the whole slice.
    Consumed(usize),
    /// The bytes could not be stored for now; the engine may offer them
    /// again.
    Pause,
    /// The transfer is to end at once.
    Abort,
}

/// What a read callback tells the engine.
#[derive(Clone, Copy, Debug, PartialEq, Eq, Structural)]
pub enum ReadOutcome {
    /// This many bytes were placed in the buffer; zero ends the data.
    Produced(usize),
    /// The transfer is to end at once.
    Abort,
}

/// How a write callback goes on.
#[derive(Clone, Copy, Debug, PartialEq, Eq, Structural)]
pub enum WriteStep {
    /// The callback is over, with this answer for the engine.
    Done(WriteOutcome),
    /// The slice is to be appended to the collector's file, and
    /// `complete_write` told how that went.
    Append,
}

/// How a read callback goes on.
#[derive(Clone, Copy, Debug, PartialEq, Eq, Structural)]
pub enum ReadStep {
    /// The callback is over, with this answer for the engine.
    Done(ReadOutcome),
    /// Up to `limit` bytes are to be read from the collector's file,
    /// starting `offset` bytes into it, and `complete_read` told how that
    /// went.
    Fetch { offset: usize, limit: usize },
}

/// A file that a transfer writes to or reads from, with the progress made
/// on it.
#[derive(Clone, Debug)]
pub struct FileInfo {
    path: PathBuf,
    send_speed_info: Option<Sender<TransferSpeed>>,
    abort: Option<AbortSignal>,
    bytes_transferred: usize,
    transfer_speed: TransferSpeed,
}

impl FileInfo {
    /// Where the file is.
    pub closed spec fn location(&self) -> PathBuf {
        self.path
    }

    /// The channel that speed samples are sent to, if there is one.
    pub closed spec fn speed_sender(&self) -> Option<Sender<TransferSpeed>> {
        self.send_speed_info
    }

    /// The abort signal that is watched, if there is one.
    pub closed spec fn aborter(&self) -> Option<AbortSignal> {
        self.abort
    }

    /// The number of bytes appended to the file, or read from it, so far.
    pub closed spec fn counted(&self) -> usize {
        self.bytes_transferred
    }

    /// The average rate as of the latest callback.
    pub closed spec fn speed(&self) -> TransferSpeed {
        self.transfer_speed
    }

    /// Whether speed samples are sent to a channel.
    pub open spec fn has_sender(&self) -> bool {
        self.speed_sender() is Some
    }

    /// Whether an abort signal is watched.
    pub open spec fn has_aborter(&self) -> bool {
        self.aborter() is Some
    }

    /// Whether the file's handle on the abort signal has seen it set.
    pub open spec fn signal_seen(&self) -> bool {
        self.aborter() matches Some(signal) && signal.seen()
    }

    /// The same file after a look at the abort signal that showed
    /// `signaled`: the handle on the signal, if there is one, remembers
    /// what it saw.
    pub closed spec fn observing(self, signaled: bool) -> FileInfo {
        FileInfo {
            abort: match self.abort {
                Some(signal) => Some(signal.having_seen(signaled)),
                None => None,
            },
            ..self
        }
    }

    /// What `observing` changes and what it keeps.
    pub broadcast proof fn lemma_observing(self, signaled: bool)
        ensures
            (#[trigger] self.observing(signaled)).aborter() == match self.aborter() {
                Some(signal) => Some(signal.having_seen(signaled)),
                None => None,
            },
            self.observing(signaled).counted() == self.counted(),
            self.observing(signaled).speed() == self.speed(),
            self.observing(signaled).location() == self.location(),
            self.observing(signaled).speed_sender() == self.speed_sender(),
            !signaled ==> self.observing(signaled) == self,
    {
        broadcast use AbortSignal::lemma_having_seen;

    }

    /// The same file with this progress instead.
    pub closed spec fn with_progress(self, counted: usize, speed: TransferSpeed) -> FileInfo {
        FileInfo { bytes_transferred: counted, transfer_speed: speed, ..self }
    }

    /// The same file after `moved` more bytes, `elapsed_nanos` nanoseconds
    /// into the transfer.
    pub open spec fn advanced(self, moved: usize, elapsed_nanos: u64) -> FileInfo {
        let counted = (self.counted() + moved) as usize;
        self.with_progress(
            counted,
            TransferSpeed {
                bytes_per_sec: capped_rate(average_rate(counted as nat, elapsed_nanos as nat)),
            },
        )
    }

    /// What `with_progress` changes and what it keeps.
    pub broadcast proof fn lemma_with_progress(self, counted: usize, speed: TransferSpeed)
        ensures
            (#[trigger] self.with_progress(counted, speed)).counted() == counted,
            self.with_progress(counted, speed).speed() == speed,
            self.with_progress(counted, speed).location() == self.location(),
            self.with_progress(counted, speed).speed_sender() == self.speed_sender(),
            self.with_progress(counted, speed).aborter() == self.aborter(),
    {
    }

    /// A file at `path` on which nothing has been transferred yet.
    pub fn path(path: PathBuf) -> (info: Self)
        ensures
            info.location() == path,
            info.counted() == 0,
            info.speed().rate() == 0,
            info.speed_sender() is None,
            info.aborter() is None,
    {
        FileInfo {
            path,
            send_speed_info: None,
            abort: None,
            bytes_transferred: 0,
            transfer_speed: TransferSpeed { bytes_per_sec: 0 },
        }
    }

    /// Has a speed sample sent to `sender` after each callback that moved
    /// bytes.
    pub fn with_transfer_speed_sender(self, sender: Sender<TransferSpeed>) -> (info: Self)
        ensures
            info.location() == self.location(),
            info.counted() == self.counted(),
            info.speed() == self.speed(),
            info.speed_sender() == Some(sender),
            info.aborter() == self.aborter(),
    {
        let mut info = self;
        info.send_speed_info = Some(sender);
        info
    }

    /// Has the transfer stop at the first callback that finds `abort` set.
    pub fn with_perform_aborter(self, abort: AbortSignal) -> (info: Self)
        ensures
            info.location() == self.location(),
            info.counted() == self.counted(),
            info.speed() == self.speed(),
            info.speed_sender() == self.speed_sender(),
            info.aborter() == Some(abort),
    {
        let mut info = self;
        info.abort = Some(abort);
        info
    }

    /// Counts `transferred` more bytes and recomputes the average rate,
    /// `elapsed_nanos` nanoseconds into the transfer.
    pub fn update_bytes_transferred(&mut self, transferred: usize, elapsed_nanos: u64)
        requires
            old(self).counted() + transferred <= usize::MAX,
        ensures
            *final(self) == old(self).advanced(transferred, elapsed_nanos),
            final(self).counted() == old(self).counted() + transferred,
            final(self).speed().rate() == capped_rate(
                average_rate(final(self).counted() as nat, elapsed_nanos as nat),
            ),
    {
        self.bytes_transferred = self.bytes_transferred + transferred;
        self.transfer_speed = TransferSpeed::measure(self.bytes_transferred, elapsed_nanos);
    }

    /// Where the file is.
    pub fn file_path(&self) -> (path: &PathBuf)
        ensures
            *path == self.location(),
    {
        &self.path
    }

    /// The number of bytes appended to the file, or read from it, so far.
    pub fn bytes_transferred(&self) -> (counted: usize)
        ensures
            counted == self.counted(),
    {
        self.bytes_transferred
    }

    /// The average rate as of the latest callback.
    pub fn transfer_speed(&self) -> (speed: TransferSpeed)
        ensures
            speed == self.speed(),
    {
        self.transfer_speed
    }

    /// Whether the transfer has been asked to stop. A file that watches no
    /// signal is never asked. One that watches a signal looks at it, and
    /// once it has seen the signal set it says so at every later look.
    pub fn abort_requested(&mut self) -> (signaled: bool)
        ensures
            signaled ==> old(self).has_aborter(),
            old(self).signal_seen() ==> signaled,
            *final(self) == old(self).observing(signaled),
    {
        match &mut self.abort {
            Some(signal) => signal.is_signaled(),
            None => false,
        }
    }
}

/// Offers the current speed of `info` to its channel, if it has one. The
/// channel may be full or closed: the sample is then dropped, and the
/// transfer goes on.
pub fn send_transfer_info(info: &FileInfo) {
    match &info.send_speed_info {
        Some(sender) => {
            let _ = offer_speed(sender, info.transfer_speed);
        },
        None => {},
    }
}

/// Where a streaming collector sends the chunks of a response body.
#[derive(Clone, Debug)]
pub struct StreamHandler {
    /// The channel that receives each chunk as it arrives.
    pub chunk_sender: UnboundedSender<Vec<u8>>,
    /// A signal that stops the transfer, if any is watched.
    pub abort: Option<AbortSignal>,
}

impl StreamHandler {
    /// Whether the handler's handle on the abort signal has seen it set.
    pub open spec fn signal_seen(&self) -> bool {
        self.abort matches Some(signal) && signal.seen()
    }

    /// The same handler after a look at the abort signal that showed
    /// `signaled`: the handle on the signal, if there is one, remembers
    /// what it saw.
    pub open spec fn observing(self, signaled: bool) -> StreamHandler {
        StreamHandler {
            abort: match self.abort {
                Some(signal) => Some(signal.having_seen(signaled)),
                None => None,
            },
            ..self
        }
    }

    /// Whether the transfer has been asked to stop. A handler that watches
    /// no signal is never asked. One that watches a signal looks at it, and
    /// once it has seen the signal set it says so at every later look.
    pub fn abort_requested(&mut self) -> (signaled: bool)
        ensures
            signaled ==> old(self).abort is Some,
            old(self).signal_seen() ==> signaled,
            *final(self) == old(self).observing(signaled),
    {
        match &mut self.abort {
            Some(signal) => signal.is_signaled(),
            None => false,
        }
    }
}

/// The ways to handle a transfer's data. One is chosen when the collector is
/// made, and it never changes.
#[derive(Clone, Debug)]
pub enum Collector {
    /// The response body goes to a file, a request body comes from it.
    File(FileInfo),
    /// The response body is kept in memory.
    Ram(Vec<u8>),
    /// The response body and the raw header bytes are kept in memory.
    RamAndHeaders(Vec<u8>, Vec<u8>),
    /// As `File`, and the raw header bytes are kept in memory.
    FileAndHeaders(FileInfo, Vec<u8>),
    /// Each chunk of the response body is sent on at once; the raw header
    /// bytes are kept in memory.
    Streaming(StreamHandler, Vec<u8>),
}

/// The way in which a collector handles a transfer's data.
#[derive(Clone, Copy, Debug, PartialEq, Eq, Structural)]
pub enum CollectorKind {
    File,
    Ram,
    RamAndHeaders,
    FileAndHeaders,
    Streaming,
}

/// A collector with its buffers as sequences.
pub enum CollectorView {
    File(FileInfo),
    Ram(Seq<u8>),
    RamAndHeaders(Seq<u8>, Seq<u8>),
    FileAndHeaders(FileInfo, Seq<u8>),
    Streaming(StreamHandler, Seq<u8>),
}

impl View for Collector {
    type V = CollectorView;

    open spec fn view(&self) -> CollectorView {
        match *self {
            Collector::File(info) => CollectorView::File(info),
            Collector::Ram(body) => CollectorView::Ram(body@),
            Collector::RamAndHeaders(body, headers) => CollectorView::RamAndHeaders(
                body@,
                headers@,
            ),
            Collector::FileAndHeaders(info, headers) => CollectorView::FileAndHeaders(
                info,
                headers@,
            ),
            Collector::Streaming(handler, headers) => CollectorView::Streaming(handler, headers@),
        }
    }
}

impl CollectorView {
    /// The way in which the collector handles data.
    pub open spec fn kind(self) -> CollectorKind {
        match self {
            CollectorView::File(_) => CollectorKind::File,
            CollectorView::Ram(_) => CollectorKind::Ram,
            CollectorView::RamAndHeaders(_, _) => CollectorKind::RamAndHeaders,
            CollectorView::FileAndHeaders(_, _) => CollectorKind::FileAndHeaders,
            CollectorView::Streaming(_, _) => CollectorKind::Streaming,
        }
    }

    /// The file of a file-backed collector.
    pub open spec fn file(self) -> Option<FileInfo> {
        match self {
            CollectorView::File(info) => Some(info),
            CollectorView::FileAndHeaders(info, _) => Some(info),
            _ => None,
        }
    }

    /// The response body that a collector holds in memory.
    pub open spec fn body(self) -> Option<Seq<u8>> {
        match self {
            CollectorView::Ram(body) => Some(body),
            CollectorView::RamAndHeaders(body, _) => Some(body),
            _ => None,
        }
    }

    /// The raw header bytes that a collector has captured.
    pub open spec fn raw_headers(self) -> Option<Seq<u8>> {
        match self {
            CollectorView::RamAndHeaders(_, headers) => Some(headers),
            CollectorView::FileAndHeaders(_, headers) => Some(headers),
            CollectorView::Streaming(_, headers) => Some(headers),
            _ => None,
        }
    }

    /// Whether the collector watches an abort signal.
    pub open spec fn watches_signal(self) -> bool {
        match self {
            CollectorView::File(info) => info.has_aborter(),
            CollectorView::FileAndHeaders(info, _) => info.has_aborter(),
            CollectorView::Streaming(handler, _) => handler.abort is Some,
            _ => false,
        }
    }

    /// Whether the collector's handle on the abort signal has seen it set.
    pub open spec fn signal_seen(self) -> bool {
        match self {
            CollectorView::File(info) => info.signal_seen(),
            CollectorView::FileAndHeaders(info, _) => info.signal_seen(),
            CollectorView::Streaming(handler, _) => handler.signal_seen(),
            _ => false,
        }
    }

    /// The collector after a look at the abort signal that showed
    /// `signaled`: its handle on the signal, if it has one, remembers what
    /// it saw.
    pub open spec fn observing(self, signaled: bool) -> CollectorView {
        match self {
            CollectorView::File(info) => CollectorView::File(info.observing(signaled)),
            CollectorView::FileAndHeaders(info, headers) => CollectorView::FileAndHeaders(
                info.observing(signaled),
                headers,
            ),
            CollectorView::Streaming(handler, headers) => CollectorView::Streaming(
                handler.observing(signaled),
                headers,
            ),
            _ => self,
        }
    }

    /// The collector with `data` added to the body it holds in memory, if
    /// it holds one.
    pub open spec fn with_body(self, data: Seq<u8>) -> CollectorView {
        match self {
            CollectorView::Ram(body) => CollectorView::Ram(body + data),
            CollectorView::RamAndHeaders(body, headers) => CollectorView::RamAndHeaders(
                body + data,
                headers,
            ),
            _ => self,
        }
    }

    /// The collector with `data` added to the header bytes it captures, if
    /// it captures any.
    pub open spec fn with_header(self, data: Seq<u8>) -> CollectorView {
        match self {
            CollectorView::RamAndHeaders(body, headers) => CollectorView::RamAndHeaders(
                body,
                headers + data,
            ),
            CollectorView::FileAndHeaders(info, headers) => CollectorView::FileAndHeaders(
                info,
                headers + data,
            ),
            CollectorView::Streaming(handler, headers) => CollectorView::Streaming(
                handler,
                headers + data,
            ),
            _ => self,
        }
    }

    /// The collector with `moved` more bytes counted on its file, if it has
    /// one.
    pub open spec fn with_progress(self, moved: usize, elapsed_nanos: u64) -> CollectorView {
        match self {
            CollectorView::File(info) => CollectorView::File(info.advanced(moved, elapsed_nanos)),
            CollectorView::FileAndHeaders(info, headers) => CollectorView::FileAndHeaders(
                info.advanced(moved, elapsed_nanos),
                headers,
            ),
            _ => self,
        }
    }

    /// How a write callback goes on: it ends the transfer where the abort
    /// signal was seen, asks for the file where there is one, and has
    /// otherwise taken the whole slice.
    pub open spec fn write_step(self, len: usize, signaled: bool) -> WriteStep {
        if signaled {
            WriteStep::Done(WriteOutcome::Abort)
        } else if self.file() is Some {
            WriteStep::Append
        } else {
            WriteStep::Done(WriteOutcome::Consumed(len))
        }
    }

    /// The collector after the first half of a write callback: a body in
    /// memory has grown by the slice, unless the abort signal was seen.
    pub open spec fn after_write(self, data: Seq<u8>, signaled: bool) -> CollectorView {
        if signaled {
            self
        } else {
            self.with_body(data)
        }
    }

    /// What the engine is told once the file has been dealt with: the whole
    /// slice was taken, or, where the file could not be written, a pause.
    pub open spec fn write_outcome(written: usize, appended: bool) -> WriteOutcome {
        if appended {
            WriteOutcome::Consumed(written)
        } else {
            WriteOutcome::Pause
        }
    }

    /// The collector after the second half of a write callback: the bytes
    /// are counted if they reached the file.
    pub open spec fn after_append(self, written: usize, appended: bool, elapsed_nanos: u64)
        -> CollectorView {
        if appended {
            self.with_progress(written, elapsed_nanos)
        } else {
            self
        }
    }

    /// How a read callback goes on: it ends the transfer where the abort
    /// signal was seen, asks for the next bytes of the file where there is
    /// one, and has otherwise no data to give.
    pub open spec fn read_step(self, limit: usize, signaled: bool) -> ReadStep {
        if signaled {
            ReadStep::Done(ReadOutcome::Abort)
        } else {
            match self.file() {
                Some(info) => ReadStep::Fetch { offset: info.counted(), limit },
                None => ReadStep::Done(ReadOutcome::Produced(0)),
            }
        }
    }

    /// What the engine is told once the file has been dealt with: the
    /// number of bytes read, or, where the file could not be read, the end
    /// of the transfer.
    pub open spec fn read_outcome(fetched: Option<usize>) -> ReadOutcome {
        match fetched {
            Some(count) => ReadOutcome::Produced(count),
            None => ReadOutcome::Abort,
        }
    }

    /// The collector after the second half of a read callback: the bytes
    /// are counted if they were read.
    pub open spec fn after_fetch(self, fetched: Option<usize>, elapsed_nanos: u64)
        -> CollectorView {
        match fetched {
            Some(count) => self.with_progress(count, elapsed_nanos),
            None => self,
        }
    }
}

/// What a collector of a caller's own must offer so that a response can be
/// assembled from it. A collector that offers nothing gives a response
/// without a body and with the headers that the engine reports.
pub trait ExtendedHandler {
    /// The response body, if the collector holds it. A collector that does
    /// not say otherwise holds none.
    fn get_response_body(&self) -> (body: Option<Vec<u8>>)
        default_ensures
            body is None,
    {
        None
    }

    /// The response body and the response headers, as far as the collector
    /// holds them. A collector that does not say otherwise holds neither.
    fn get_response_body_and_headers(&self) -> (parts: (
        Option<Vec<u8>>,
        Option<HeaderMap<HeaderValue>>,
    ))
        default_ensures
            parts.0 is None,
            parts.1 is None,
    {
        (None, None)
    }
}

/// No callback changes the way in which a collector handles data, and a
/// collector that writes to a file never holds a body.
pub proof fn lemma_callbacks_keep_the_kind(
    c: CollectorView,
    data: Seq<u8>,
    signaled: bool,
    moved: usize,
    appended: bool,
    fetched: Option<usize>,
    elapsed_nanos: u64,
)
    ensures
        c.after_write(data, signaled).kind() == c.kind(),
        c.after_append(moved, appended, elapsed_nanos).kind() == c.kind(),
        c.after_fetch(fetched, elapsed_nanos).kind() == c.kind(),
        c.with_header(data).kind() == c.kind(),
        c.file() is Some ==> c.body() is None,
{
}

/// A collector that has seen the abort signal set has seen it for good: no
/// look at the signal and no callback makes it forget. A look that shows
/// the signal set is remembered by every collector that watches a signal,
/// and a look that shows it clear changes nothing.
pub proof fn lemma_seen_signal_stays_seen(
    c: CollectorView,
    data: Seq<u8>,
    signaled: bool,
    moved: usize,
    appended: bool,
    fetched: Option<usize>,
    elapsed_nanos: u64,
)
    ensures
        c.observing(signaled).signal_seen() == (c.signal_seen() || (signaled
            && c.watches_signal())),
        !signaled ==> c.observing(signaled) == c,
        c.observing(signaled).watches_signal() == c.watches_signal(),
        c.after_write(data, signaled).signal_seen() == c.signal_seen(),
        c.after_append(moved, appended, elapsed_nanos).signal_seen() == c.signal_seen(),
        c.after_fetch(fetched, elapsed_nanos).signal_seen() == c.signal_seen(),
        c.with_header(data).signal_seen() == c.signal_seen(),
{
    broadcast use
        FileInfo::lemma_with_progress,
        FileInfo::lemma_observing,
        AbortSignal::lemma_having_seen,
    ;

}

/// The count of a file-backed collector never goes down: a callback that
/// moved bytes raises it by their number, any other leaves it as it is.
pub proof fn lemma_count_never_decreases(
    c: CollectorView,
    data: Seq<u8>,
    signaled: bool,
    moved: usize,
    appended: bool,
    elapsed_nanos: u64,
)
    requires
        c.file() is Some,
        c.file()->0.counted() + moved <= usize::MAX,
    ensures
        c.after_write(data, signaled).file() == c.file(),
        c.with_header(data).file() == c.file(),
        c.after_append(moved, appended, elapsed_nanos).file() is Some,
        c.after_append(moved, appended, elapsed_nanos).file()->0.counted() == c.file()->0.counted()
            + if appended {
            moved as int
        } else {
            0
        },
        c.after_fetch(Some(moved), elapsed_nanos).file()->0.counted() == c.file()->0.counted()
            + moved,
        c.after_fetch(None, elapsed_nanos).file() == c.file(),
{
    broadcast use FileInfo::lemma_with_progress;

}

/// Whether `entries` are what a header map holds after it was filled from
/// the raw header bytes `raw`: the entries of all fields, where there are
/// fewer than `HEADER_MAP_ROOM`. Beyond that the map may reach a limit of
/// its own; it then holds the entries of the fields before the one that it
/// refused.
pub open spec fn is_header_map_of(entries: Map<Seq<u8>, Seq<u8>>, raw: Seq<u8>) -> bool {
    if header_fields(raw).len() < HEADER_MAP_ROOM {
        entries == entries_of(header_fields(raw))
    } else {
        exists|stored: int| #[trigger] is_prefix_map_of(entries, raw, stored)
    }
}

/// Whether `entries` are the entries of the first `stored` fields of `raw`,
/// the next field, if there is one, being an accepted one that a map with
/// at least `HEADER_MAP_ROOM` names refused.
pub open spec fn is_prefix_map_of(entries: Map<Seq<u8>, Seq<u8>>, raw: Seq<u8>, stored: int)
    -> bool {
    &&& 0 <= stored <= header_fields(raw).len()
    &&& entries == entries_of(header_fields(raw).take(stored))
    &&& stored < header_fields(raw).len() ==> is_accepted_field(header_fields(raw)[stored])
    &&& stored < header_fields(raw).len() ==> entries.dom().len() >= HEADER_MAP_ROOM
}

impl Collector {
    /// The file behind a file-backed collector.
    pub fn file_info(&self) -> (info: Option<&FileInfo>)
        ensures
            match info {
                Some(i) => self@.file() == Some(*i),
                None => self@.file() is None,
            },
    {
        match self {
            Collector::File(info) => Some(info),
            Collector::FileAndHeaders(info, _) => Some(info),
            _ => None,
        }
    }

    /// Whether the transfer has been asked to stop. Only a collector that
    /// watches a signal is ever asked. Such a collector looks at the
    /// signal, and once it has seen the signal set it says so at every
    /// later look.
    pub fn abort_requested(&mut self) -> (signaled: bool)
        ensures
            signaled ==> old(self)@.watches_signal(),
            old(self)@.signal_seen() ==> signaled,
            final(self)@ == old(self)@.observing(signaled),
    {
        match self {
            Collector::File(info) => info.abort_requested(),
            Collector::FileAndHeaders(info, _) => info.abort_requested(),
            Collector::Streaming(handler, _) => handler.abort_requested(),
            _ => false,
        }
    }

    /// The write callback: looks at the abort signal, then goes on as
    /// `write_observing` does with what it saw. A collector that watches no
    /// signal goes on as if the signal were clear; one that has seen the
    /// signal set goes on as if it were set.
    pub fn write(&mut self, data: &[u8]) -> (step: WriteStep)
        ensures
            exists|signaled: bool|
                {
                    &&& step == #[trigger] old(self)@.write_step(data.len(), signaled)
                    &&& final(self)@ == old(self)@.observing(signaled).after_write(
                        data@,
                        signaled,
                    )
                    &&& signaled ==> old(self)@.watches_signal()
                    &&& old(self)@.signal_seen() ==> signaled
                },
    {
        let signaled = self.abort_requested();
        let step = self.write_observing(data, signaled);
        assert(step == old(self)@.write_step(data.len(), signaled));
        step
    }

    /// The write callback, for a given state of the abort signal. Where the
    /// signal is set nothing is stored and the transfer ends. Otherwise a
    /// collector that holds the body in memory appends the slice, a
    /// streaming collector sends a copy of it on, and both take the whole
    /// slice; a file-backed collector asks for the slice to be appended to
    /// its file.
    pub fn write_observing(&mut self, data: &[u8], signaled: bool) -> (step: WriteStep)
        ensures
            step == old(self)@.write_step(data.len(), signaled),
            final(self)@ == old(self)@.after_write(data@, signaled),
    {
        if signaled {
            return WriteStep::Done(WriteOutcome::Abort);
        }
        match self {
            Collector::File(_) => WriteStep::Append,
            Collector::FileAndHeaders(_, _) => WriteStep::Append,
            Collector::Ram(body) => {
                append_bytes(body, data);
                WriteStep::Done(WriteOutcome::Consumed(data.len()))
            },
            Collector::RamAndHeaders(body, _) => {
                append_bytes(body, data);
                WriteStep::Done(WriteOutcome::Consumed(data.len()))
            },
            Collector::Streaming(handler, _) => {
                let _ = forward_chunk(&handler.chunk_sender, copy_bytes(data));
                WriteStep::Done(WriteOutcome::Consumed(data.len()))
            },
        }
    }

    /// The second half of a write callback on a file-backed collector.
    /// `appended` says whether the `written` bytes reached the file. If they
    /// did, they are counted, the speed is recomputed and offered to the
    /// speed channel, and the engine is told that the slice was taken. If
    /// not, nothing changes and the engine is told to pause.
    pub fn complete_write(&mut self, written: usize, appended: bool, elapsed_nanos: u64) -> (outcome:
        WriteOutcome)
        requires
            appended ==> (old(self)@.file() matches Some(info) ==> info.counted() + written
                <= usize::MAX),
        ensures
            outcome == CollectorView::write_outcome(written, appended),
            final(self)@ == old(self)@.after_append(written, appended, elapsed_nanos),
    {
        if !appended {
            return WriteOutcome::Pause;
        }
        match self {
            Collector::File(info) => {
                info.update_bytes_transferred(written, elapsed_nanos);
                send_transfer_info(info);
            },
            Collector::FileAndHeaders(info, _) => {
                info.update_bytes_transferred(written, elapsed_nanos);
                send_transfer_info(info);
            },
            _ => {},
        }
        WriteOutcome::Consumed(written)
    }

    /// The read callback: looks at the abort signal, then goes on as
    /// `read_observing` does with what it saw. A collector that watches no
    /// signal goes on as if the signal were clear; one that has seen the
    /// signal set goes on as if it were set.
    pub fn read(&mut self, limit: usize) -> (step: ReadStep)
        ensures
            exists|signaled: bool|
                {
                    &&& step == #[trigger] old(self)@.read_step(limit, signaled)
                    &&& final(self)@ == old(self)@.observing(signaled)
                    &&& signaled ==> old(self)@.watches_signal()
                    &&& old(self)@.signal_seen() ==> signaled
                },
    {
        broadcast use FileInfo::lemma_observing;

        let signaled = self.abort_requested();
        let step = self.read_observing(limit, signaled);
        assert(step == old(self)@.read_step(limit, signaled));
        step
    }

    /// The read callback, for a given state of the abort signal and a
    /// buffer of `limit` bytes. Where the signal is set the transfer ends.
    /// Otherwise a file-backed collector asks for the bytes of its file that
    /// follow those already read; any other collector has no data to give.
    pub fn read_observing(&self, limit: usize, signaled: bool) -> (step: ReadStep)
        ensures
            step == self@.read_step(limit, signaled),
    {
        if signaled {
            return ReadStep::Done(ReadOutcome::Abort);
        }
        match self.file_info() {
            Some(info) => ReadStep::Fetch { offset: info.bytes_transferred(), limit },
            None => ReadStep::Done(ReadOutcome::Produced(0)),
        }
    }

    /// The second half of a read callback on a file-backed collector.
    /// `fetched` is the number of bytes read from the file, or `None` where
    /// the file could not be read. Bytes that were read are counted, the
    /// speed is recomputed and offered to the speed channel, and the engine
    /// is told their number. A failure ends the transfer.
    pub fn complete_read(&mut self, fetched: Option<usize>, elapsed_nanos: u64) -> (outcome:
        ReadOutcome)
        requires
            fetched matches Some(count) ==> (old(self)@.file() matches Some(info)
                ==> info.counted() + count <= usize::MAX),
        ensures
            outcome == CollectorView::read_outcome(fetched),
            final(self)@ == old(self)@.after_fetch(fetched, elapsed_nanos),
    {
        match fetched {
            Some(count) => {
                match self {
                    Collector::File(info) => {
                        info.update_bytes_transferred(count, elapsed_nanos);
                        send_transfer_info(info);
                    },
                    Collector::FileAndHeaders(info, _) => {
                        info.update_bytes_transferred(count, elapsed_nanos);
                        send_transfer_info(info);
                    },
                    _ => {},
                }
                ReadOutcome::Produced(count)
            },
            None => ReadOutcome::Abort,
        }
    }

    /// The header callback: a collector that captures headers appends the
    /// line as it came, any other drops it. The answer is always to go on.
    pub fn header(&mut self, data: &[u8]) -> (go_on: bool)
        ensures
            go_on,
            final(self)@ == old(self)@.with_header(data@),
    {
        match self {
            Collector::RamAndHeaders(_, headers) => {
                append_bytes(headers, data);
            },
            Collector::FileAndHeaders(_, headers) => {
                append_bytes(headers, data);
            },
            Collector::Streaming(_, headers) => {
                append_bytes(headers, data);
            },
            _ => {},
        }
        true
    }

    /// The response body, where the collector holds it in memory.
    pub fn get_response_body(&self) -> (body: Option<Vec<u8>>)
        ensures
            match body {
                Some(bytes) => self@.body() == Some(bytes@),
                None => self@.body() is None,
            },
    {
        match self {
            Collector::Ram(body) => Some(body.clone()),
            Collector::RamAndHeaders(body, _) => Some(body.clone()),
            _ => None,
        }
    }

    /// The raw header bytes, where the collector captures them.
    pub fn raw_headers(&self) -> (raw: Option<&Vec<u8>>)
        ensures
            match raw {
                Some(bytes) => self@.raw_headers() == Some(bytes@),
                None => self@.raw_headers() is None,
            },
    {
        match self {
            Collector::RamAndHeaders(_, headers) => Some(headers),
            Collector::FileAndHeaders(_, headers) => Some(headers),
            Collector::Streaming(_, headers) => Some(headers),
            _ => None,
        }
    }

    /// The response body, where the collector holds it in memory, and the
    /// headers parsed from the captured bytes, where it captures them.
    pub fn get_response_body_and_headers(&self) -> (parts: (
        Option<Vec<u8>>,
        Option<HeaderMap<HeaderValue>>,
    ))
        ensures
            match parts.0 {
                Some(bytes) => self@.body() == Some(bytes@),
                None => self@.body() is None,
            },
            match parts.1 {
                Some(headers) => self@.raw_headers() is Some && is_header_map_of(
                    header_map_entries(headers),
                    self@.raw_headers()->0,
                ),
                None => self@.raw_headers() is None,
            },
    {
        let body = self.get_response_body();
        let headers = match self.raw_headers() {
            Some(raw) => {
                let filled = parse_headers(raw.as_slice());
                assert(is_prefix_map_of(header_map_entries(filled.0), raw@, filled.1 as int));
                assert(is_header_map_of(header_map_entries(filled.0), raw@));
                Some(filled.0)
            },
            None => None,
        };
        (body, headers)
    }
}

impl ExtendedHandler for Collector {
    fn get_response_body(&self) -> (body: Option<Vec<u8>>)
        ensures
            match body {
                Some(bytes) => self@.body() == Some(bytes@),
                None => self@.body() is None,
            },
    {
        Collector::get_response_body(self)
    }

    fn get_response_body_and_headers(&self) -> (parts: (
        Option<Vec<u8>>,
        Option<HeaderMap<HeaderValue>>,
    ))
        ensures
            match parts.0 {
                Some(bytes) => self@.body() == Some(bytes@),
                None => self@.body() is None,
            },
            match parts.1 {
                Some(headers) => self@.raw_headers() is Some && is_header_map_of(
                    header_map_entries(headers),
                    self@.raw_headers()->0,
                ),
                None => self@.raw_headers() is None,
            },
    {
        Collector::get_response_body_and_headers(self)
    }
}

} // verus!
