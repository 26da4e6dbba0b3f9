//! A flag by which a caller asks a running transfer to stop.
use std::sync::atomic::AtomicBool;
use std::sync::atomic::Ordering;
use std::sync::Arc;
use vstd::prelude::*;

verus! {

/// A handle on a flag shared between the caller and the collector of one
/// transfer.
///
/// The flag starts out clear and can only be set: there is no way to clear
/// it again. Clones share the flag, so that a task which holds one clone
/// can stop a transfer whose collector holds another. When another task
/// sets the flag is not known here; what is known is what a handle has
/// seen. A handle remembers that it has seen the flag set, and from then on
/// reports it set without looking again.
#[derive(Clone, Debug)]
pub struct AbortSignal {
    flag: Arc<AtomicBool>,
    seen: bool,
}

impl AbortSignal {
    /// Whether this handle has seen the flag set.
    pub closed spec fn seen(&self) -> bool {
        self.seen
    }

    /// The handle after a look at the flag that showed `signaled`.
    pub closed spec fn having_seen(self, signaled: bool) -> AbortSignal {
        AbortSignal { seen: self.seen || signaled, ..self }
    }

    /// A handle has seen the flag set if it had seen it before or sees it
    /// now; a look that shows the flag clear leaves the handle as it was.
    pub broadcast proof fn lemma_having_seen(self, signaled: bool)
        ensures
            (#[trigger] self.having_seen(signaled)).seen() == (self.seen() || signaled),
            !signaled ==> self.having_seen(signaled) == self,
    {
    }

    /// A handle on a flag of its own, which it has not seen set.
    pub fn new() -> (signal: Self)
        ensures
            !signal.seen(),
    {
        AbortSignal { flag: Arc::new(AtomicBool::new(false)), seen: false }
    }

    /// Asks the transfer to stop at its next callback.
    pub fn signal(&self) {
        self.flag.store(true, Ordering::SeqCst);
    }

    /// Whether the transfer has been asked to stop. A handle that has seen
    /// the flag set says so again; any other looks at the flag, and
    /// remembers if it finds the flag set.
    pub fn is_signaled(&mut self) -> (signaled: bool)
        ensures
            old(self).seen() ==> signaled,
            *final(self) == old(self).having_seen(signaled),
    {
        if self.seen {
            return true;
        }
        let shown = self.flag.load(Ordering::SeqCst);
        if shown {
            self.seen = true;
        }
        shown
    }
}

} // verus!
