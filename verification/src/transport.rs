use vstd::prelude::*;

verus! {

/// The capability the driver needs from a two-wire bus implementation.
///
/// An implementation performs one bus transaction per call, against the
/// device selected by the 7-bit bus address `addr`. The two ghost
/// histories record, oldest first, the transactions the implementation
/// has reported successful: `reads()` holds each completed `write_read`
/// as its start register paired with the bytes it returned, `writes()`
/// holds each completed `write` as its register paired with the value
/// written. A call that returns an error reported no completed
/// transaction, so it appends to neither history. The driver's
/// contracts state bus traffic — how many transactions an operation
/// costs and what a read-modify-write puts back — through these
/// histories.
pub trait Transport: Sized {
    /// The bus implementation's own error type, surfaced unchanged.
    type BusError;

    /// History of successful reads: (start register, bytes returned).
    /// Ghost state only; an implementation outside the verifier leaves
    /// the default in place.
    open spec fn reads(&self) -> Seq<(u8, Seq<u8>)> {
        Seq::empty()
    }

    /// History of successful writes: (register, value written).
    /// Ghost state only; an implementation outside the verifier leaves
    /// the default in place.
    open spec fn writes(&self) -> Seq<(u8, u8)> {
        Seq::empty()
    }

    /// Write the one-byte register address `reg`, then read `len` bytes
    /// starting there (the device auto-increments its register pointer
    /// across consecutive reads).
    fn write_read(&mut self, addr: u8, reg: u8, len: usize) -> (r: Result<Vec<u8>, Self::BusError>)
        ensures
            final(self).writes() == old(self).writes(),
            match r {
                Ok(data) => {
                    &&& data@.len() == len
                    &&& final(self).reads() == old(self).reads().push((reg, data@))
                },
                Err(_) => final(self).reads() == old(self).reads(),
            },
    ;

    /// Write the register address byte `reg` followed by `value` in one
    /// transaction.
    fn write(&mut self, addr: u8, reg: u8, value: u8) -> (r: Result<(), Self::BusError>)
        ensures
            final(self).reads() == old(self).reads(),
            match r {
                Ok(()) => final(self).writes() == old(self).writes().push((reg, value)),
                Err(_) => final(self).writes() == old(self).writes(),
            },
    ;
}

/// One burst read of `len` bytes from `reg`, and nothing else, stands
/// between the read histories `reads0` (before) and `reads1` (after).
pub open spec fn spec_read_appended(
    reads0: Seq<(u8, Seq<u8>)>,
    reads1: Seq<(u8, Seq<u8>)>,
    reg: u8,
    len: int,
) -> bool {
    &&& reads1.len() == reads0.len() + 1
    &&& reads1.drop_last() == reads0
    &&& reads1.last().0 == reg
    &&& reads1.last().1.len() == len
}

} // verus!
