//! What each operation does to the bytes of a storage, stated on sequences,
//! and the laws that follow.

use vstd::prelude::*;

verus! {

/// The bytes of `contents` after its length is set to `length`: what lies
/// beyond the new length is dropped, and what is new is zero.
pub open spec fn truncated(contents: Seq<u8>, length: nat) -> Seq<u8> {
    Seq::new(
        length,
        |i: int|
            if i < contents.len() {
                contents[i]
            } else {
                0u8
            },
    )
}

/// The bytes of `contents` after `data` is written at `offset`: the storage
/// grows as far as the write reaches, and a gap between the old end and
/// `offset` is zero.
pub open spec fn written(contents: Seq<u8>, offset: nat, data: Seq<u8>) -> Seq<u8> {
    Seq::new(
        if offset + data.len() > contents.len() {
            offset + data.len()
        } else {
            contents.len()
        },
        |i: int|
            if offset <= i < offset + data.len() {
                data[i - offset]
            } else if i < contents.len() {
                contents[i]
            } else {
                0u8
            },
    )
}

/// The bytes of `contents` with the range of `length` bytes at `offset` set
/// to zero, the length unchanged.
pub open spec fn zeroed(contents: Seq<u8>, offset: nat, length: nat) -> Seq<u8> {
    Seq::new(
        contents.len(),
        |i: int|
            if offset <= i < offset + length {
                0u8
            } else {
                contents[i]
            },
    )
}

/// Whether a deletion of `length` bytes at `offset` touches or passes the end
/// of a storage of `len` bytes.
pub open spec fn reaches_end(len: nat, offset: nat, length: nat) -> bool {
    offset + length >= len
}

/// The bytes of `contents` after `length` bytes at `offset` are deleted. A
/// range that touches or passes the end cuts the storage at `offset`, as
/// setting the length to `offset` does; any other range is set to zero.
pub open spec fn deleted(contents: Seq<u8>, offset: nat, length: nat) -> Seq<u8> {
    if reaches_end(contents.len(), offset, length) {
        truncated(contents, offset)
    } else {
        zeroed(contents, offset, length)
    }
}

/// Whether the range of `length` bytes at `offset` lies within a storage of
/// `len` bytes.
pub open spec fn in_bounds(len: nat, offset: nat, length: nat) -> bool {
    offset + length <= len
}

/// The `length` bytes of `contents` that start at `offset`.
pub open spec fn range_of(contents: Seq<u8>, offset: nat, length: nat) -> Seq<u8>
    recommends
        in_bounds(contents.len(), offset, length),
{
    contents.subrange(offset as int, (offset + length) as int)
}

/// `length` zero bytes.
pub open spec fn zeros(length: nat) -> Seq<u8> {
    Seq::new(length, |i: int| 0u8)
}

/// A write reads back: the range it covered holds the data, and every byte
/// that it did not cover and that was there before is as it was.
pub proof fn lemma_write_reads_back(contents: Seq<u8>, offset: nat, data: Seq<u8>)
    ensures
        in_bounds(written(contents, offset, data).len(), offset, data.len()),
        range_of(written(contents, offset, data), offset, data.len()) == data,
        forall|i: int|
            0 <= i < contents.len() && !(offset <= i < offset + data.len()) ==> written(
                contents,
                offset,
                data,
            )[i] == contents[i],
{
    assert(range_of(written(contents, offset, data), offset, data.len()) =~= data);
}

/// A write that starts beyond the end fills the gap between the old end and
/// its offset with zeros, and the storage then ends where the write ends.
pub proof fn lemma_write_beyond_end_zero_fills(contents: Seq<u8>, offset: nat, data: Seq<u8>)
    requires
        offset > contents.len(),
    ensures
        written(contents, offset, data).len() == offset + data.len(),
        range_of(
            written(contents, offset, data),
            contents.len(),
            (offset - contents.len()) as nat,
        ) == zeros((offset - contents.len()) as nat),
        forall|i: int| contents.len() <= i < offset ==> written(contents, offset, data)[i] == 0,
{
    assert(range_of(
        written(contents, offset, data),
        contents.len(),
        (offset - contents.len()) as nat,
    ) =~= zeros((offset - contents.len()) as nat));
}

/// Setting the length twice to the same value is setting it once.
pub proof fn lemma_truncate_idempotent(contents: Seq<u8>, length: nat)
    ensures
        truncated(contents, length).len() == length,
        truncated(truncated(contents, length), length) == truncated(contents, length),
{
    assert(truncated(truncated(contents, length), length) =~= truncated(contents, length));
}

/// Setting the length to `extra` bytes more than it is keeps every byte and
/// adds `extra` zeros.
pub proof fn lemma_truncate_extends_with_zeros(contents: Seq<u8>, extra: nat)
    ensures
        truncated(contents, contents.len() + extra).len() == contents.len() + extra,
        truncated(contents, contents.len() + extra) == contents + zeros(extra),
        range_of(truncated(contents, contents.len() + extra), 0, contents.len()) == contents,
        range_of(truncated(contents, contents.len() + extra), contents.len(), extra) == zeros(
            extra,
        ),
{
    let after = truncated(contents, contents.len() + extra);
    assert(after =~= contents + zeros(extra));
    assert(range_of(after, 0, contents.len()) =~= contents);
    assert(range_of(after, contents.len(), extra) =~= zeros(extra));
}

/// Setting the length to less than it is keeps the bytes in front of the new
/// end.
pub proof fn lemma_truncate_shortens(contents: Seq<u8>, length: nat)
    requires
        length <= contents.len(),
    ensures
        truncated(contents, length) == range_of(contents, 0, length),
{
    assert(truncated(contents, length) =~= range_of(contents, 0, length));
}

/// A deletion that touches or passes the end leaves what setting the length
/// to its offset leaves.
pub proof fn lemma_delete_reaching_end_truncates(contents: Seq<u8>, offset: nat, length: nat)
    requires
        offset + length >= contents.len(),
    ensures
        deleted(contents, offset, length) == truncated(contents, offset),
        deleted(contents, offset, length).len() == offset,
{
}

/// A deletion that ends in front of the end keeps the length, leaves zeros
/// in its range and every other byte as it was.
pub proof fn lemma_delete_inside_zeroes(contents: Seq<u8>, offset: nat, length: nat)
    requires
        offset + length < contents.len(),
    ensures
        deleted(contents, offset, length).len() == contents.len(),
        in_bounds(deleted(contents, offset, length).len(), offset, length),
        range_of(deleted(contents, offset, length), offset, length) == zeros(length),
        forall|i: int|
            0 <= i < contents.len() && !(offset <= i < offset + length) ==> deleted(
                contents,
                offset,
                length,
            )[i] == contents[i],
{
    assert(range_of(deleted(contents, offset, length), offset, length) =~= zeros(length));
}

} // verus!
