//! The range checks that decide, from numbers alone, whether an operation is
//! out of bounds.

use crate::error::RandomAccessError;
use crate::semantics::in_bounds;
use vstd::prelude::*;

verus! {

/// Where the range of `length` bytes at `offset` ends, held at `u64::MAX`
/// where the true end is greater.
pub open spec fn range_end(offset: u64, length: nat) -> u64 {
    if offset + length > u64::MAX {
        u64::MAX
    } else {
        (offset + length) as u64
    }
}

/// The error for a range of `length` bytes at `offset` that does not fit in
/// `limit` bytes.
pub open spec fn range_error(offset: u64, length: nat, limit: u64) -> RandomAccessError {
    RandomAccessError::OutOfBounds {
        offset,
        end: Some(range_end(offset, length)),
        length: limit,
    }
}

/// The error for an offset that lies beyond `limit`.
pub open spec fn offset_error(offset: u64, limit: u64) -> RandomAccessError {
    RandomAccessError::OutOfBounds { offset, end: None, length: limit }
}

/// What the check of a range against `limit` answers.
pub open spec fn range_checked(offset: u64, length: nat, limit: u64) -> Result<
    (),
    RandomAccessError,
> {
    if in_bounds(limit as nat, offset as nat, length) {
        Ok(())
    } else {
        Err(range_error(offset, length, limit))
    }
}

/// What the check of an offset against `limit` answers.
pub open spec fn offset_checked(offset: u64, limit: u64) -> Result<(), RandomAccessError> {
    if offset <= limit {
        Ok(())
    } else {
        Err(offset_error(offset, limit))
    }
}

/// Checks that the range of `length` bytes at `offset` lies within `limit`
/// bytes: the length of the storage for a read, its capacity for a write.
pub fn check_range(offset: u64, length: u64, limit: u64) -> (result: Result<(), RandomAccessError>)
    ensures
        result == range_checked(offset, length as nat, limit),
{
    if offset <= limit && length <= limit - offset {
        Ok(())
    } else {
        Err(
            RandomAccessError::OutOfBounds {
                offset,
                end: Some(offset.saturating_add(length)),
                length: limit,
            },
        )
    }
}

/// Checks that `offset` does not lie beyond `limit`: the capacity of the
/// storage for a new length.
pub fn check_offset(offset: u64, limit: u64) -> (result: Result<(), RandomAccessError>)
    ensures
        result == offset_checked(offset, limit),
{
    if offset <= limit {
        Ok(())
    } else {
        Err(RandomAccessError::OutOfBounds { offset, end: None, length: limit })
    }
}

} // verus!
