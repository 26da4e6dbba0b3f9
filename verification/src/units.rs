//! Strongly typed quantities for transfer configuration.
use vstd::prelude::*;
use vstd::std_specs::convert::FromSpecImpl;

verus! {

/// Number of bytes per second in one megabit per second.
pub const BYTES_PER_MEGABIT: u64 = 125_000;

/// A transfer rate in megabits per second.
#[derive(Clone, Copy, Debug, PartialEq, Eq, Structural)]
pub struct Mbps(pub u32);

/// A transfer rate in bytes per second.
#[derive(Clone, Copy, Debug, PartialEq, Eq, Structural)]
pub struct Bps(pub u64);

/// A byte position from which a transfer is resumed.
#[derive(Clone, Copy, Debug, PartialEq, Eq, Structural)]
pub struct BytesOffset(pub usize);

/// The size of a file in bytes.
#[derive(Clone, Copy, Debug, PartialEq, Eq, Structural)]
pub struct FileSize(pub usize);

impl Mbps {
    /// The rate in megabits per second.
    pub fn value(&self) -> (v: u32)
        ensures
            v == self.0,
    {
        self.0
    }
}

impl Bps {
    /// The rate in bytes per second.
    pub fn value(&self) -> (v: u64)
        ensures
            v == self.0,
    {
        self.0
    }
}

impl BytesOffset {
    /// The offset in bytes.
    pub fn value(&self) -> (v: usize)
        ensures
            v == self.0,
    {
        self.0
    }
}

impl FileSize {
    /// The size in bytes.
    pub fn value(&self) -> (v: usize)
        ensures
            v == self.0,
    {
        self.0
    }
}

impl From<u32> for Mbps {
    fn from(value: u32) -> (r: Self) {
        Mbps(value)
    }
}

impl FromSpecImpl<u32> for Mbps {
    open spec fn obeys_from_spec() -> bool {
        true
    }

    open spec fn from_spec(v: u32) -> Self {
        Mbps(v)
    }
}

impl From<u64> for Bps {
    fn from(value: u64) -> (r: Self) {
        Bps(value)
    }
}

impl FromSpecImpl<u64> for Bps {
    open spec fn obeys_from_spec() -> bool {
        true
    }

    open spec fn from_spec(v: u64) -> Self {
        Bps(v)
    }
}

/// One megabit per second is 125 000 bytes per second; the product of a
/// 32-bit rate with that factor always fits in 64 bits.
impl From<Mbps> for Bps {
    fn from(value: Mbps) -> (r: Self) {
        assert(value.0 * BYTES_PER_MEGABIT <= u64::MAX) by (nonlinear_arith)
            requires
                value.0 <= u32::MAX,
                BYTES_PER_MEGABIT == 125_000,
        ;
        Bps(value.0 as u64 * BYTES_PER_MEGABIT)
    }
}

impl FromSpecImpl<Mbps> for Bps {
    open spec fn obeys_from_spec() -> bool {
        true
    }

    open spec fn from_spec(v: Mbps) -> Self {
        Bps((v.0 * BYTES_PER_MEGABIT) as u64)
    }
}

impl From<usize> for BytesOffset {
    fn from(value: usize) -> (r: Self) {
        BytesOffset(value)
    }
}

impl FromSpecImpl<usize> for BytesOffset {
    open spec fn obeys_from_spec() -> bool {
        true
    }

    open spec fn from_spec(v: usize) -> Self {
        BytesOffset(v)
    }
}

impl From<usize> for FileSize {
    fn from(value: usize) -> (r: Self) {
        FileSize(value)
    }
}

impl FromSpecImpl<usize> for FileSize {
    open spec fn obeys_from_spec() -> bool {
        true
    }

    open spec fn from_spec(v: usize) -> Self {
        FileSize(v)
    }
}

} // verus!
