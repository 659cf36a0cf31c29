//! A storage that keeps its bytes in one vector in memory.

use crate::bounds::{check_offset, check_range, offset_checked, range_checked};
use crate::error::RandomAccessError;
use crate::semantics::{in_bounds, range_of, reaches_end, truncated, written, zeroed};
use crate::storage::RandomAccess;
use vstd::prelude::*;
use vstd::slice::{slice_subrange, slice_to_vec};

verus! {

/// Appends zeros to `bytes` until it is `length` long.
fn pad_with_zeros(bytes: &mut Vec<u8>, length: usize)
    requires
        old(bytes)@.len() <= length,
    ensures
        final(bytes)@ == truncated(old(bytes)@, length as nat),
{
    while bytes.len() < length
        invariant
            old(bytes)@.len() <= bytes@.len() <= length,
            bytes@ == truncated(old(bytes)@, bytes@.len()),
        decreases length - bytes@.len(),
    {
        bytes.push(0u8);
    }
}

/// Puts `data` into `bytes` from position `start` on, over what is there and
/// beyond the end.
fn overwrite(bytes: &mut Vec<u8>, start: usize, data: &[u8])
    requires
        start <= old(bytes)@.len(),
        start + data@.len() <= usize::MAX,
    ensures
        final(bytes)@ == written(old(bytes)@, start as nat, data@),
{
    let mut i: usize = 0;
    while i < data.len()
        invariant
            i <= data@.len(),
            start <= old(bytes)@.len(),
            start + data@.len() <= usize::MAX,
            bytes@ == written(old(bytes)@, start as nat, data@.take(i as int)),
        decreases data@.len() - i,
    {
        let position: usize = start + i;
        if position < bytes.len() {
            bytes.set(position, data[i]);
        } else {
            bytes.push(data[i]);
        }
        i += 1;
    }
    assert(data@.take(i as int) =~= data@);
}

/// Sets `length` bytes of `bytes` to zero, from position `start` on.
fn zero_range(bytes: &mut Vec<u8>, start: usize, length: usize)
    requires
        start + length <= old(bytes)@.len(),
    ensures
        final(bytes)@ == zeroed(old(bytes)@, start as nat, length as nat),
{
    let total: usize = bytes.len();
    let mut i: usize = 0;
    while i < length
        invariant
            i <= length,
            start + length <= total,
            bytes@.len() == total == old(bytes)@.len(),
            bytes@ == zeroed(old(bytes)@, start as nat, i as nat),
        decreases length - i,
    {
        bytes.set(start + i, 0u8);
        i += 1;
    }
}

/// A storage in memory: one vector of bytes, and a limit that its length
/// never passes. The limit is never more than a vector can hold.
#[derive(Debug)]
pub struct VecStorage {
    bytes: Vec<u8>,
    limit: usize,
}

/// The greatest length of a vector of bytes.
pub open spec fn greatest_len() -> u64 {
    isize::MAX as u64
}

impl VecStorage {
    /// An empty storage that can grow as far as a vector can.
    pub fn new() -> (storage: Self)
        ensures
            storage.wf(),
            storage.contents() == Seq::<u8>::empty(),
            storage.capacity() == greatest_len(),
    {
        VecStorage { bytes: Vec::new(), limit: isize::MAX as usize }
    }

    /// An empty storage that refuses to grow beyond `limit` bytes, and beyond
    /// what a vector can hold where `limit` is more than that.
    pub fn with_limit(limit: usize) -> (storage: Self)
        ensures
            storage.wf(),
            storage.contents() == Seq::<u8>::empty(),
            storage.capacity() == if limit <= greatest_len() {
                limit as u64
            } else {
                greatest_len()
            },
    {
        let most: usize = isize::MAX as usize;
        VecStorage {
            bytes: Vec::new(),
            limit: if limit <= most {
                limit
            } else {
                most
            },
        }
    }
}

impl RandomAccess for VecStorage {
    closed spec fn contents(&self) -> Seq<u8> {
        self.bytes@
    }

    closed spec fn capacity(&self) -> u64 {
        self.limit as u64
    }

    /// Memory has nothing behind it to flush to: what it holds is all there
    /// is.
    closed spec fn durable(&self) -> Seq<u8> {
        self.bytes@
    }

    closed spec fn wf(&self) -> bool {
        self.bytes@.len() <= self.limit <= isize::MAX
    }

    /// Memory does not fail: the write is refused where it would pass the
    /// limit, and succeeds everywhere else.
    fn write(&mut self, offset: u64, data: &[u8]) -> (result: Result<(), RandomAccessError>)
        ensures
            result == range_checked(offset, data@.len(), old(self).capacity()),
    {
        match check_range(offset, data.len() as u64, self.limit as u64) {
            Ok(()) => {
                let start: usize = offset as usize;
                if self.bytes.len() < start {
                    pad_with_zeros(&mut self.bytes, start);
                }
                overwrite(&mut self.bytes, start, data);
                assert(self.bytes@ =~= written(old(self).bytes@, offset as nat, data@));
                Ok(())
            },
            Err(error) => Err(error),
        }
    }

    /// Memory does not fail: the read is refused where it would pass the
    /// end, and succeeds everywhere else.
    fn read(&mut self, offset: u64, length: u64) -> (result: Result<Vec<u8>, RandomAccessError>)
        ensures
            result is Ok <==> in_bounds(old(self).contents().len(), offset as nat, length as nat),
    {
        match check_range(offset, length, self.bytes.len() as u64) {
            Ok(()) => {
                let start: usize = offset as usize;
                let end: usize = start + length as usize;
                Ok(slice_to_vec(slice_subrange(self.bytes.as_slice(), start, end)))
            },
            Err(error) => Err(error),
        }
    }

    /// Memory does not fail: the read is refused where it would pass the
    /// end, and succeeds everywhere else. The bytes go from the storage to
    /// the sink with no buffer in between.
    fn read_to_writer(&mut self, offset: u64, length: u64, sink: &mut Vec<u8>) -> (result: Result<
        (),
        RandomAccessError,
    >)
        ensures
            result is Ok <==> in_bounds(old(self).contents().len(), offset as nat, length as nat),
    {
        match check_range(offset, length, self.bytes.len() as u64) {
            Ok(()) => {
                let start: usize = offset as usize;
                let end: usize = start + length as usize;
                sink.extend_from_slice(slice_subrange(self.bytes.as_slice(), start, end));
                assert(sink@ =~= old(sink)@ + range_of(
                    self.bytes@,
                    offset as nat,
                    length as nat,
                ));
                Ok(())
            },
            Err(error) => Err(error),
        }
    }

    /// Memory does not fail: the deletion is refused where it would cut the
    /// storage at an offset beyond the limit, and succeeds everywhere else.
    fn del(&mut self, offset: u64, length: u64) -> (result: Result<(), RandomAccessError>)
        ensures
            result == if reaches_end(old(self).contents().len(), offset as nat, length as nat) {
                offset_checked(offset, old(self).capacity())
            } else {
                Ok(())
            },
    {
        let len: u64 = self.bytes.len() as u64;
        if offset >= len || length >= len - offset {
            self.truncate(offset)
        } else {
            zero_range(&mut self.bytes, offset as usize, length as usize);
            Ok(())
        }
    }

    /// Memory does not fail: the new length is refused where it lies beyond
    /// the limit, and taken everywhere else.
    fn truncate(&mut self, length: u64) -> (result: Result<(), RandomAccessError>)
        ensures
            result == offset_checked(length, old(self).capacity()),
    {
        match check_offset(length, self.limit as u64) {
            Ok(()) => {
                let length: usize = length as usize;
                if length <= self.bytes.len() {
                    self.bytes.truncate(length);
                    assert(self.bytes@ =~= truncated(old(self).bytes@, length as nat));
                } else {
                    pad_with_zeros(&mut self.bytes, length);
                }
                Ok(())
            },
            Err(error) => Err(error),
        }
    }

    /// Memory does not fail.
    fn len(&mut self) -> (result: Result<u64, RandomAccessError>)
        ensures
            result is Ok,
    {
        Ok(self.bytes.len() as u64)
    }

    /// Memory does not fail.
    fn is_empty(&mut self) -> (result: Result<bool, RandomAccessError>)
        ensures
            result is Ok,
    {
        Ok(self.bytes.len() == 0)
    }

    /// Memory does not fail, and has nothing to flush.
    fn sync_all(&mut self) -> (result: Result<(), RandomAccessError>)
        ensures
            result is Ok,
    {
        Ok(())
    }
}

} // verus!
