//! What follows for a caller from the contract of a storage: laws over one
//! call and over two calls in a row, whatever backend answers them.

use crate::bounds::range_end;
use crate::error::RandomAccessError;
use crate::semantics::{
    lemma_delete_inside_zeroes, lemma_truncate_extends_with_zeros, lemma_truncate_idempotent,
    lemma_write_beyond_end_zero_fills, lemma_write_reads_back, range_of, zeros,
};
use crate::storage::{del_outcome, fits, read_outcome, truncate_outcome, write_outcome};
use vstd::prelude::*;

verus! {

/// After a successful write that starts beyond the end, the storage ends
/// where the write ends, and every read between the old end and the offset
/// answers with zeros, if it answers.
pub proof fn lemma_write_zero_fills_on_extend(
    before: Seq<u8>,
    capacity: u64,
    offset: u64,
    data: Seq<u8>,
    result: Result<(), RandomAccessError>,
    after: Seq<u8>,
    start: u64,
    length: u64,
    read: Result<Vec<u8>, RandomAccessError>,
)
    requires
        offset > before.len(),
        write_outcome(before, capacity, offset, data, result, after),
        result is Ok,
        before.len() <= start,
        start + length <= offset,
        read_outcome(after, start, length, read),
    ensures
        after.len() == offset + data.len(),
        read matches Ok(bytes) ==> bytes@ == zeros(length as nat),
        read matches Err(error) ==> error is IO,
{
    lemma_write_beyond_end_zero_fills(before, offset as nat, data);
    assert(range_of(after, start as nat, length as nat) =~= zeros(length as nat));
}

/// A successful write reads back: a read of the range that it covered
/// answers with the data, if it answers.
pub proof fn lemma_write_then_read(
    before: Seq<u8>,
    capacity: u64,
    offset: u64,
    data: Seq<u8>,
    result: Result<(), RandomAccessError>,
    after: Seq<u8>,
    read: Result<Vec<u8>, RandomAccessError>,
)
    requires
        fits(before, capacity),
        write_outcome(before, capacity, offset, data, result, after),
        result is Ok,
        read_outcome(after, offset, data.len() as u64, read),
    ensures
        read matches Ok(bytes) ==> bytes@ == data,
        read matches Err(error) ==> error is IO,
{
    lemma_write_reads_back(before, offset as nat, data);
}

/// Setting the length to the value that it was just set to leaves that
/// length and changes no byte.
pub proof fn lemma_truncate_twice(
    before: Seq<u8>,
    capacity: u64,
    length: u64,
    first: Result<(), RandomAccessError>,
    between: Seq<u8>,
    second: Result<(), RandomAccessError>,
    after: Seq<u8>,
)
    requires
        truncate_outcome(before, capacity, length, first, between),
        first is Ok,
        truncate_outcome(between, capacity, length, second, after),
        second is Ok,
    ensures
        between.len() == length,
        after == between,
{
    lemma_truncate_idempotent(before, length as nat);
}

/// A successful new length beyond the end keeps every byte, and every read
/// between the old end and the new one answers with zeros, if it answers.
pub proof fn lemma_truncate_extends(
    before: Seq<u8>,
    capacity: u64,
    length: u64,
    result: Result<(), RandomAccessError>,
    after: Seq<u8>,
    start: u64,
    count: u64,
    read: Result<Vec<u8>, RandomAccessError>,
)
    requires
        length > before.len(),
        truncate_outcome(before, capacity, length, result, after),
        result is Ok,
        before.len() <= start,
        start + count <= length,
        read_outcome(after, start, count, read),
    ensures
        after.len() == length,
        range_of(after, 0, before.len()) == before,
        read matches Ok(bytes) ==> bytes@ == zeros(count as nat),
        read matches Err(error) ==> error is IO,
{
    lemma_truncate_extends_with_zeros(before, (length - before.len()) as nat);
    assert(range_of(after, start as nat, count as nat) =~= zeros(count as nat));
}

/// A deletion whose range touches or passes the end may answer and leave
/// behind exactly what setting the length to its offset may.
pub proof fn lemma_del_reaching_end_is_truncate(
    before: Seq<u8>,
    capacity: u64,
    offset: u64,
    length: u64,
    result: Result<(), RandomAccessError>,
    after: Seq<u8>,
)
    requires
        offset + length >= before.len(),
    ensures
        del_outcome(before, capacity, offset, length, result, after) == truncate_outcome(
            before,
            capacity,
            offset,
            result,
            after,
        ),
{
}

/// A successful deletion whose range ends in front of the end keeps the
/// length, and a read of its range then answers with zeros, if it answers.
pub proof fn lemma_del_inside_zeroes(
    before: Seq<u8>,
    capacity: u64,
    offset: u64,
    length: u64,
    result: Result<(), RandomAccessError>,
    after: Seq<u8>,
    read: Result<Vec<u8>, RandomAccessError>,
)
    requires
        offset + length < before.len(),
        fits(before, capacity),
        del_outcome(before, capacity, offset, length, result, after),
        result is Ok,
        read_outcome(after, offset, length, read),
    ensures
        after.len() == before.len(),
        read matches Ok(bytes) ==> bytes@ == zeros(length as nat),
        read matches Err(error) ==> error is IO,
{
    lemma_delete_inside_zeroes(before, offset as nat, length as nat);
}

/// A read whose range passes the end is answered with the out-of-bounds
/// error that names the offset, the end of the range and the length of the
/// storage, and with nothing else.
pub proof fn lemma_read_beyond_end_refused(
    contents: Seq<u8>,
    offset: u64,
    length: u64,
    result: Result<Vec<u8>, RandomAccessError>,
)
    requires
        contents.len() <= u64::MAX,
        offset + length > contents.len(),
        read_outcome(contents, offset, length, result),
    ensures
        result == Err::<Vec<u8>, RandomAccessError>(
            RandomAccessError::OutOfBounds {
                offset,
                end: Some(range_end(offset, length as nat)),
                length: contents.len() as u64,
            },
        ),
{
}

} // verus!
