//! The operations that every storage backend offers, and what each of them
//! owes its caller.

use crate::bounds::{offset_checked, range_checked};
use crate::error::RandomAccessError;
use crate::semantics::{deleted, range_of, reaches_end, truncated, written};
use vstd::prelude::*;

verus! {

/// What a write may answer and leave behind. A write that would pass the
/// capacity is refused and changes nothing; any other write succeeds, unless
/// input/output fails.
pub open spec fn write_outcome(
    before: Seq<u8>,
    capacity: u64,
    offset: u64,
    data: Seq<u8>,
    result: Result<(), RandomAccessError>,
    after: Seq<u8>,
) -> bool {
    match range_checked(offset, data.len(), capacity) {
        Ok(()) => match result {
            Ok(()) => after == written(before, offset as nat, data),
            Err(error) => error is IO,
        },
        Err(error) => result == Err::<(), RandomAccessError>(error) && after == before,
    }
}

/// What a read may answer. A range that passes the end is refused; any other
/// read hands out exactly the bytes of the range, unless input/output fails.
pub open spec fn read_outcome(
    contents: Seq<u8>,
    offset: u64,
    length: u64,
    result: Result<Vec<u8>, RandomAccessError>,
) -> bool {
    match range_checked(offset, length as nat, contents.len() as u64) {
        Ok(()) => match result {
            Ok(bytes) => bytes@ == range_of(contents, offset as nat, length as nat),
            Err(error) => error is IO,
        },
        Err(error) => result == Err::<Vec<u8>, RandomAccessError>(error),
    }
}

/// What setting the length may answer and leave behind. A length beyond the
/// capacity is refused and changes nothing; any other succeeds, unless
/// input/output fails.
pub open spec fn truncate_outcome(
    before: Seq<u8>,
    capacity: u64,
    length: u64,
    result: Result<(), RandomAccessError>,
    after: Seq<u8>,
) -> bool {
    match offset_checked(length, capacity) {
        Ok(()) => match result {
            Ok(()) => after == truncated(before, length as nat),
            Err(error) => error is IO,
        },
        Err(error) => result == Err::<(), RandomAccessError>(error) && after == before,
    }
}

/// What a deletion may answer and leave behind. A range that touches or
/// passes the end is handled as setting the length to `offset` is, refusal
/// included; any other range is set to zero, unless input/output fails.
pub open spec fn del_outcome(
    before: Seq<u8>,
    capacity: u64,
    offset: u64,
    length: u64,
    result: Result<(), RandomAccessError>,
    after: Seq<u8>,
) -> bool {
    if reaches_end(before.len(), offset as nat, length as nat) {
        truncate_outcome(before, capacity, offset, result, after)
    } else {
        match result {
            Ok(()) => after == deleted(before, offset as nat, length as nat),
            Err(error) => error is IO,
        }
    }
}

/// Whether `contents` is no longer than `capacity`. Every operation asks
/// this of the storage and leaves it so.
pub open spec fn fits(contents: Seq<u8>, capacity: u64) -> bool {
    contents.len() <= capacity
}

/// A storage of bytes that can be read, written, cleared and resized at any
/// offset.
///
/// An implementation says what it stands for through `contents`, `capacity`,
/// `durable` and `wf`. One that leaves `wf` as it is here is never taken to
/// be well-formed, and nothing is then claimed of it.
pub trait RandomAccess: Sized {
    /// The bytes that the storage holds.
    open spec fn contents(&self) -> Seq<u8> {
        Seq::empty()
    }

    /// The greatest length that the storage can reach: `u64::MAX` where the
    /// backend sets no limit of its own.
    open spec fn capacity(&self) -> u64 {
        0
    }

    /// The bytes that a crash would leave behind.
    open spec fn durable(&self) -> Seq<u8> {
        Seq::empty()
    }

    /// Whether the storage is in a state that its operations can work from.
    open spec fn wf(&self) -> bool {
        false
    }

    /// Writes `data` at `offset`. The storage grows as far as the write
    /// reaches, and a gap between the old end and `offset` is filled with
    /// zeros.
    fn write(&mut self, offset: u64, data: &[u8]) -> (result: Result<(), RandomAccessError>)
        requires
            old(self).wf(),
            fits(old(self).contents(), old(self).capacity()),
        ensures
            final(self).wf(),
            fits(final(self).contents(), final(self).capacity()),
            final(self).capacity() == old(self).capacity(),
            write_outcome(
                old(self).contents(),
                old(self).capacity(),
                offset,
                data@,
                result,
                final(self).contents(),
            ),
    ;

    /// Reads exactly `length` bytes at `offset`. The storage is left as it
    /// was.
    fn read(&mut self, offset: u64, length: u64) -> (result: Result<Vec<u8>, RandomAccessError>)
        requires
            old(self).wf(),
            fits(old(self).contents(), old(self).capacity()),
        ensures
            final(self).wf(),
            fits(final(self).contents(), final(self).capacity()),
            final(self).capacity() == old(self).capacity(),
            final(self).contents() == old(self).contents(),
            read_outcome(old(self).contents(), offset, length, result),
    ;

    /// Deletes `length` bytes at `offset`. A range that touches or passes the
    /// end cuts the storage at `offset`, exactly as setting the length to
    /// `offset` does; any other range is set to zero and the length stays.
    fn del(&mut self, offset: u64, length: u64) -> (result: Result<(), RandomAccessError>)
        requires
            old(self).wf(),
            fits(old(self).contents(), old(self).capacity()),
        ensures
            final(self).wf(),
            fits(final(self).contents(), final(self).capacity()),
            final(self).capacity() == old(self).capacity(),
            del_outcome(
                old(self).contents(),
                old(self).capacity(),
                offset,
                length,
                result,
                final(self).contents(),
            ),
    ;

    /// Sets the length to `length`. Bytes beyond the new length are dropped,
    /// and new bytes are zero.
    fn truncate(&mut self, length: u64) -> (result: Result<(), RandomAccessError>)
        requires
            old(self).wf(),
            fits(old(self).contents(), old(self).capacity()),
        ensures
            final(self).wf(),
            fits(final(self).contents(), final(self).capacity()),
            final(self).capacity() == old(self).capacity(),
            truncate_outcome(
                old(self).contents(),
                old(self).capacity(),
                length,
                result,
                final(self).contents(),
            ),
    ;

    /// The length of the storage in bytes.
    fn len(&mut self) -> (result: Result<u64, RandomAccessError>)
        requires
            old(self).wf(),
            fits(old(self).contents(), old(self).capacity()),
        ensures
            final(self).wf(),
            fits(final(self).contents(), final(self).capacity()),
            final(self).capacity() == old(self).capacity(),
            final(self).contents() == old(self).contents(),
            match result {
                Ok(length) => length == old(self).contents().len(),
                Err(error) => error is IO,
            },
    ;

    /// Whether the storage holds no byte. A backend may have a cheaper way
    /// to tell than to measure its length.
    fn is_empty(&mut self) -> (result: Result<bool, RandomAccessError>)
        requires
            old(self).wf(),
            fits(old(self).contents(), old(self).capacity()),
        ensures
            final(self).wf(),
            fits(final(self).contents(), final(self).capacity()),
            final(self).capacity() == old(self).capacity(),
            final(self).contents() == old(self).contents(),
            match result {
                Ok(empty) => empty == (old(self).contents().len() == 0),
                Err(error) => error is IO,
            },
    ;

    /// Makes every change so far durable.
    fn sync_all(&mut self) -> (result: Result<(), RandomAccessError>)
        requires
            old(self).wf(),
            fits(old(self).contents(), old(self).capacity()),
        ensures
            final(self).wf(),
            fits(final(self).contents(), final(self).capacity()),
            final(self).capacity() == old(self).capacity(),
            final(self).contents() == old(self).contents(),
            match result {
                Ok(()) => final(self).durable() == final(self).contents(),
                Err(error) => error is IO,
            },
    ;

    /// Reads exactly `length` bytes at `offset` and hands them to `sink`,
    /// behind what it holds already. A range that passes the end is refused
    /// as by a read, and the sink is then left as it was.
    fn read_to_writer(&mut self, offset: u64, length: u64, sink: &mut Vec<u8>) -> (result: Result<
        (),
        RandomAccessError,
    >)
        requires
            old(self).wf(),
            fits(old(self).contents(), old(self).capacity()),
        ensures
            final(self).wf(),
            fits(final(self).contents(), final(self).capacity()),
            final(self).capacity() == old(self).capacity(),
            final(self).contents() == old(self).contents(),
            match range_checked(offset, length as nat, old(self).contents().len() as u64) {
                Ok(()) => match result {
                    Ok(()) => final(sink)@ == old(sink)@ + range_of(
                        old(self).contents(),
                        offset as nat,
                        length as nat,
                    ),
                    Err(error) => error is IO && final(sink)@ == old(sink)@,
                },
                Err(error) => result == Err::<(), RandomAccessError>(error) && final(sink)@ == old(
                    sink,
                )@,
            },
    {
        match self.read(offset, length) {
            Ok(bytes) => {
                let mut bytes = bytes;
                sink.append(&mut bytes);
                Ok(())
            },
            Err(error) => Err(error),
        }
    }
}

} // verus!
