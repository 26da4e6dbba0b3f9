//! Transfer speed samples and the average rate they are computed from.
use vstd::prelude::*;
use vstd::std_specs::convert::FromSpecImpl;

verus! {

/// Nanoseconds in one second.
pub const NANOS_PER_SECOND: u64 = 1_000_000_000;

/// An average transfer rate, in whole bytes per second.
#[derive(Clone, Copy, Debug, PartialEq, Eq, Structural)]
pub struct TransferSpeed {
    /// The rate in bytes per second.
    pub bytes_per_sec: u64,
}

/// The average rate of a transfer that moved `bytes` bytes in
/// `elapsed_nanos` nanoseconds, in whole bytes per second. A transfer that
/// has taken no time yet has the rate zero.
pub open spec fn average_rate(bytes: nat, elapsed_nanos: nat) -> nat {
    if elapsed_nanos == 0 {
        0
    } else {
        (bytes * NANOS_PER_SECOND as nat) / elapsed_nanos
    }
}

/// A rate as a 64-bit number: rates beyond its range are held at its
/// maximum.
pub open spec fn capped_rate(rate: nat) -> u64 {
    if rate > u64::MAX {
        u64::MAX
    } else {
        rate as u64
    }
}

impl TransferSpeed {
    /// The rate in bytes per second, as a specification value.
    pub open spec fn rate(&self) -> u64 {
        self.bytes_per_sec
    }

    /// The rate in bytes per second.
    pub fn as_bytes_per_sec(&self) -> (rate: u64)
        ensures
            rate == self.rate(),
    {
        self.bytes_per_sec
    }

    /// The average rate after `bytes` bytes in `elapsed_nanos` nanoseconds.
    pub fn measure(bytes: usize, elapsed_nanos: u64) -> (speed: TransferSpeed)
        ensures
            speed.rate() == capped_rate(average_rate(bytes as nat, elapsed_nanos as nat)),
    {
        if elapsed_nanos == 0 {
            return TransferSpeed { bytes_per_sec: 0 };
        }
        assert(bytes * NANOS_PER_SECOND <= u128::MAX) by (nonlinear_arith)
            requires
                bytes <= u64::MAX,
                NANOS_PER_SECOND == 1_000_000_000,
        ;
        let scaled: u128 = bytes as u128 * NANOS_PER_SECOND as u128;
        let rate: u128 = scaled / elapsed_nanos as u128;
        if rate > u64::MAX as u128 {
            TransferSpeed { bytes_per_sec: u64::MAX }
        } else {
            TransferSpeed { bytes_per_sec: rate as u64 }
        }
    }
}

impl From<u64> for TransferSpeed {
    fn from(value: u64) -> (r: Self) {
        TransferSpeed { bytes_per_sec: value }
    }
}

impl FromSpecImpl<u64> for TransferSpeed {
    open spec fn obeys_from_spec() -> bool {
        true
    }

    open spec fn from_spec(v: u64) -> Self {
        TransferSpeed { bytes_per_sec: v }
    }
}

impl From<usize> for TransferSpeed {
    fn from(value: usize) -> (r: Self) {
        TransferSpeed { bytes_per_sec: value as u64 }
    }
}

impl FromSpecImpl<usize> for TransferSpeed {
    open spec fn obeys_from_spec() -> bool {
        true
    }

    open spec fn from_spec(v: usize) -> Self {
        TransferSpeed { bytes_per_sec: v as u64 }
    }
}

/// A negative rate counts as no transfer at all.
impl From<i32> for TransferSpeed {
    fn from(value: i32) -> (r: Self) {
        if value < 0 {
            TransferSpeed { bytes_per_sec: 0 }
        } else {
            TransferSpeed { bytes_per_sec: value as u64 }
        }
    }
}

impl FromSpecImpl<i32> for TransferSpeed {
    open spec fn obeys_from_spec() -> bool {
        true
    }

    open spec fn from_spec(v: i32) -> Self {
        if v < 0 {
            TransferSpeed { bytes_per_sec: 0 }
        } else {
            TransferSpeed { bytes_per_sec: v as u64 }
        }
    }
}

/// A negative rate counts as no transfer at all.
impl From<i64> for TransferSpeed {
    fn from(value: i64) -> (r: Self) {
        if value < 0 {
            TransferSpeed { bytes_per_sec: 0 }
        } else {
            TransferSpeed { bytes_per_sec: value as u64 }
        }
    }
}

impl FromSpecImpl<i64> for TransferSpeed {
    open spec fn obeys_from_spec() -> bool {
        true
    }

    open spec fn from_spec(v: i64) -> Self {
        if v < 0 {
            TransferSpeed { bytes_per_sec: 0 }
        } else {
            TransferSpeed { bytes_per_sec: v as u64 }
        }
    }
}

} // verus!
