//! What a whole transfer does to a collector and to its file.
//!
//! The engine calls a collector once per chunk. This module folds the
//! single callbacks into whole transfers and states what holds at their
//! end: that a file receives the chunks in order, that a resumed download
//! completes the file, that an abort signal stops all writing, and that a
//! body kept in memory is the concatenation of its chunks.
use crate::collector::{CollectorView, FileInfo, ReadStep, WriteStep};
use crate::error::Method;
use crate::http_client::{request_options, CurlBodyRequest};
use vstd::prelude::*;

verus! {

/// One write callback as the collector meets it.
pub struct WriteEvent {
    /// The chunk that the engine delivers.
    pub data: Seq<u8>,
    /// Whether the abort signal is found set.
    pub signaled: bool,
    /// Whether appending to the file succeeds, where that is asked for.
    pub appended: bool,
    /// The time since the start of the transfer, in nanoseconds.
    pub elapsed_nanos: u64,
}

/// A download in progress: the collector, and the content of the file that
/// a file-backed collector appends to.
pub struct Download {
    pub collector: CollectorView,
    pub file: Seq<u8>,
}

/// The download after one write callback that finds the abort signal as the
/// event says: what `write_observing` does, and `complete_write` where the
/// file is asked for. The chunk reaches the file exactly when the collector
/// asks for it to be appended and appending succeeds. What the collector's
/// handle on the signal remembers is left aside.
pub open spec fn after_event(d: Download, e: WriteEvent) -> Download {
    let first = d.collector.after_write(e.data, e.signaled);
    if d.collector.write_step(e.data.len() as usize, e.signaled) == WriteStep::Append {
        Download {
            collector: first.after_append(e.data.len() as usize, e.appended, e.elapsed_nanos),
            file: if e.appended {
                d.file + e.data
            } else {
                d.file
            },
        }
    } else {
        Download { collector: first, file: d.file }
    }
}

/// The download after a sequence of write callbacks.
pub open spec fn after_events(d: Download, events: Seq<WriteEvent>) -> Download
    decreases events.len(),
{
    if events.len() == 0 {
        d
    } else {
        after_event(after_events(d, events.drop_last()), events.last())
    }
}

/// The chunks of a sequence of write callbacks, one after the other.
pub open spec fn delivered(events: Seq<WriteEvent>) -> Seq<u8>
    decreases events.len(),
{
    if events.len() == 0 {
        Seq::empty()
    } else {
        delivered(events.drop_last()) + events.last().data
    }
}

/// Whether no callback finds the abort signal set and every append
/// succeeds.
pub open spec fn undisturbed(events: Seq<WriteEvent>) -> bool {
    forall|i: int| 0 <= i < events.len() ==> !(#[trigger] events[i]).signaled && events[i].appended
}

/// Whether the abort signal, once a callback has found it set, is found
/// set by every later callback, the first of them being callback `k`.
pub open spec fn signaled_from(events: Seq<WriteEvent>, k: int) -> bool {
    forall|i: int| k <= i < events.len() ==> (#[trigger] events[i]).signaled
}

/// What was delivered up to a point and after it is what was delivered in
/// all.
pub proof fn lemma_delivered_splits(events: Seq<WriteEvent>, k: int)
    requires
        0 <= k <= events.len(),
    ensures
        delivered(events) == delivered(events.take(k)) + delivered(events.skip(k)),
    decreases events.len(),
{
    if k == events.len() {
        assert(events.take(k) == events);
        assert(events.skip(k) == Seq::<WriteEvent>::empty());
        assert(delivered(events) =~= delivered(events) + Seq::<u8>::empty());
    } else {
        let front = events.drop_last();
        lemma_delivered_splits(front, k);
        assert(front.take(k) == events.take(k));
        assert(front.skip(k) == events.skip(k).drop_last());
        assert(events.skip(k).last() == events.last());
        assert(delivered(events) =~= delivered(events.take(k)) + delivered(events.skip(k)));
    }
}

/// Through a file-backed collector, the file ends as what it held followed
/// by all chunks in the order of the callbacks, and the collector has
/// counted exactly the bytes that were appended. Starting with an empty
/// file and a count of zero, the count is the length of the file.
pub proof fn lemma_file_receives_chunks_in_order(d: Download, events: Seq<WriteEvent>)
    requires
        d.collector.file() is Some,
        undisturbed(events),
        d.collector.file()->0.counted() + delivered(events).len() <= usize::MAX,
    ensures
        after_events(d, events).file == d.file + delivered(events),
        after_events(d, events).collector.file() is Some,
        after_events(d, events).collector.file()->0.counted() == d.collector.file()->0.counted()
            + delivered(events).len(),
        d.file.len() == d.collector.file()->0.counted() ==> after_events(d, events).file.len()
            == after_events(d, events).collector.file()->0.counted(),
    decreases events.len(),
{
    broadcast use FileInfo::lemma_with_progress;

    if events.len() == 0 {
        assert(d.file + delivered(events) =~= d.file);
    } else {
        let front = events.drop_last();
        let e = events.last();
        assert(undisturbed(front)) by {
            assert forall|i: int| 0 <= i < front.len() implies !(#[trigger] front[i]).signaled
                && front[i].appended by {
                assert(front[i] == events[i]);
            }
        }
        lemma_file_receives_chunks_in_order(d, front);
        let prev = after_events(d, front);
        assert(!e.signaled && e.appended);
        assert(after_events(d, events).file =~= d.file + delivered(events));
    }
}

/// A download that resumes on the first `k` bytes of a resource and
/// receives the rest ends with the whole resource in the file, as a
/// download from the start does.
pub proof fn lemma_resumed_download_completes(
    full: Seq<u8>,
    k: int,
    resumed: Download,
    rest: Seq<WriteEvent>,
    fresh: Download,
    all: Seq<WriteEvent>,
)
    requires
        0 <= k <= full.len(),
        resumed.collector.file() is Some,
        fresh.collector.file() is Some,
        resumed.file == full.take(k),
        fresh.file == Seq::<u8>::empty(),
        undisturbed(rest),
        undisturbed(all),
        delivered(rest) == full.skip(k),
        delivered(all) == full,
        resumed.collector.file()->0.counted() + full.len() - k <= usize::MAX,
        fresh.collector.file()->0.counted() + full.len() <= usize::MAX,
    ensures
        after_events(resumed, rest).file == full,
        after_events(resumed, rest).file == after_events(fresh, all).file,
{
    lemma_file_receives_chunks_in_order(resumed, rest);
    lemma_file_receives_chunks_in_order(fresh, all);
    assert(full.take(k) + full.skip(k) =~= full);
    assert(Seq::<u8>::empty() + full =~= full);
}

/// A callback that finds the abort signal set changes neither the
/// collector nor the file.
pub proof fn lemma_signal_stops_write(d: Download, e: WriteEvent)
    requires
        e.signaled,
    ensures
        after_event(d, e) == d,
{
}

/// Once the abort signal is found set, nothing more is stored: the
/// download ends as it stood at the first callback that found it set.
pub proof fn lemma_signal_stops_download(d: Download, events: Seq<WriteEvent>, k: int)
    requires
        0 <= k <= events.len(),
        signaled_from(events, k),
    ensures
        after_events(d, events) == after_events(d, events.take(k)),
    decreases events.len(),
{
    if k == events.len() {
        assert(events.take(k) == events);
    } else {
        let front = events.drop_last();
        assert(signaled_from(front, k)) by {
            assert forall|i: int| k <= i < front.len() implies (#[trigger] front[i]).signaled by {
                assert(front[i] == events[i]);
            }
        }
        lemma_signal_stops_download(d, front, k);
        assert(front.take(k) == events.take(k));
        assert(events.last() == events[events.len() - 1]);
        lemma_signal_stops_write(after_events(d, front), events.last());
    }
}

/// A file never grows by more than what was delivered.
pub proof fn lemma_file_grows_by_at_most_delivered(d: Download, events: Seq<WriteEvent>)
    ensures
        after_events(d, events).file.len() <= d.file.len() + delivered(events).len(),
    decreases events.len(),
{
    if events.len() > 0 {
        lemma_file_grows_by_at_most_delivered(d, events.drop_last());
    }
}

/// A download that is stopped by the abort signal while data is still to
/// come leaves a file that is shorter than the one a complete download
/// leaves.
pub proof fn lemma_aborted_download_is_shorter(d: Download, events: Seq<WriteEvent>, k: int)
    requires
        0 <= k <= events.len(),
        signaled_from(events, k),
        delivered(events.skip(k)).len() > 0,
    ensures
        after_events(d, events).file.len() < d.file.len() + delivered(events).len(),
{
    lemma_signal_stops_download(d, events, k);
    lemma_file_grows_by_at_most_delivered(d, events.take(k));
    lemma_delivered_splits(events, k);
}

/// Through a collector that keeps the body in memory, the body ends as
/// what it held followed by all chunks in the order of the callbacks,
/// however the engine cut the body into chunks.
pub proof fn lemma_memory_receives_chunks_in_order(d: Download, events: Seq<WriteEvent>)
    requires
        d.collector.body() is Some,
        forall|i: int| 0 <= i < events.len() ==> !(#[trigger] events[i]).signaled,
    ensures
        after_events(d, events).collector.body() == Some(d.collector.body()->0 + delivered(events)),
        after_events(d, events).collector.raw_headers() == d.collector.raw_headers(),
        after_events(d, events).file == d.file,
    decreases events.len(),
{
    if events.len() == 0 {
        assert(d.collector.body()->0 + delivered(events) =~= d.collector.body()->0);
    } else {
        let front = events.drop_last();
        assert forall|i: int| 0 <= i < front.len() implies !(#[trigger] front[i]).signaled by {
            assert(front[i] == events[i]);
        }
        lemma_memory_receives_chunks_in_order(d, front);
        let prev = after_events(d, front);
        assert(!events.last().signaled);
        assert(prev.collector.body()->0 + events.last().data =~= d.collector.body()->0
            + delivered(events));
    }
}

/// One read callback as the collector meets it.
pub struct ReadEvent {
    /// The size of the buffer that the engine offers.
    pub limit: usize,
    /// The number of bytes that the file is ready to give at this read. A
    /// read may give fewer bytes than are left and than the buffer holds.
    pub ready: usize,
    /// The time since the start of the transfer, in nanoseconds.
    pub elapsed_nanos: u64,
}

/// The number of bytes that a read at `offset` of a file of `len` bytes
/// gives into a buffer of `limit` bytes when the file is ready to give
/// `ready` bytes: no more than are ready, than are left, and than the
/// buffer holds.
pub open spec fn fetched_at(len: nat, offset: usize, limit: usize, ready: usize) -> usize {
    let most: usize = if offset >= len {
        0
    } else if len - offset < limit {
        (len - offset) as usize
    } else {
        limit
    };
    if ready < most {
        ready
    } else {
        most
    }
}

/// An upload in progress: the collector, and what has been handed to the
/// engine so far.
pub struct Upload {
    pub collector: CollectorView,
    pub sent: Seq<u8>,
}

/// The upload after one read callback that finds no abort signal and a
/// readable file: the bytes of `file` that follow those counted so far are
/// handed to the engine and counted.
pub open spec fn after_read(u: Upload, file: Seq<u8>, e: ReadEvent) -> Upload {
    match u.collector.read_step(e.limit, false) {
        ReadStep::Fetch { offset, limit } => {
            let count = fetched_at(file.len(), offset, limit, e.ready);
            Upload {
                collector: u.collector.after_fetch(Some(count), e.elapsed_nanos),
                sent: u.sent + file.subrange(offset as int, offset + count),
            }
        },
        ReadStep::Done(_) => u,
    }
}

/// The upload after a sequence of such read callbacks.
pub open spec fn after_reads(u: Upload, file: Seq<u8>, events: Seq<ReadEvent>) -> Upload
    decreases events.len(),
{
    if events.len() == 0 {
        u
    } else {
        after_read(after_reads(u, file, events.drop_last()), file, events.last())
    }
}

/// An upload from a file hands the engine the bytes of the file in order
/// and without a gap, starting at the count that the collector began with.
/// So an upload that begins `k` bytes into the file sends what an upload
/// from the start sends after its first `k` bytes.
pub proof fn lemma_upload_sends_file_in_order(u: Upload, file: Seq<u8>, events: Seq<ReadEvent>)
    requires
        u.collector.file() is Some,
        u.collector.file()->0.counted() <= file.len() <= usize::MAX,
    ensures
        after_reads(u, file, events).collector.file() is Some,
        u.collector.file()->0.counted() <= after_reads(
            u,
            file,
            events,
        ).collector.file()->0.counted() <= file.len(),
        after_reads(u, file, events).sent == u.sent + file.subrange(
            u.collector.file()->0.counted() as int,
            after_reads(u, file, events).collector.file()->0.counted() as int,
        ),
    decreases events.len(),
{
    broadcast use FileInfo::lemma_with_progress;

    let start = u.collector.file()->0.counted() as int;
    if events.len() == 0 {
        assert(u.sent + file.subrange(start, start) =~= u.sent);
    } else {
        lemma_upload_sends_file_in_order(u, file, events.drop_last());
        let prev = after_reads(u, file, events.drop_last());
        let e = events.last();
        let offset = prev.collector.file()->0.counted();
        let count = fetched_at(file.len(), offset, e.limit, e.ready);
        assert(prev.collector.read_step(e.limit, false) == ReadStep::Fetch {
            offset,
            limit: e.limit,
        });
        let next = after_read(prev, file, e);
        assert(next.collector.file()->0.counted() == offset + count);
        assert(next.sent =~= u.sent + file.subrange(start, offset + count));
    }
}

/// A request whose body is an empty vector of bytes and a request without
/// a body give the engine the same options, whatever the method.
pub proof fn lemma_empty_body_is_no_body(
    url: Seq<char>,
    method: Method,
    headers: Seq<(Seq<u8>, Seq<u8>)>,
    empty: Vec<u8>,
    absent: Option<Vec<u8>>,
)
    requires
        empty@.len() == 0,
        absent is None,
    ensures
        request_options(url, method, headers, empty.body_bytes()) == request_options(
            url,
            method,
            headers,
            absent.body_bytes(),
        ),
{
}

} // verus!
