//! A full storage in the place of a minimal backend.

use crate::adapter::Handler;
use crate::error::RandomAccessError;
use crate::storage::{del_outcome, fits, read_outcome, write_outcome, RandomAccess};
use vstd::prelude::*;

verus! {

/// A storage that needs no initialization, as a minimal backend: to open it
/// is to do nothing, and its primitives are the storage's own operations.
pub struct Ready<S: RandomAccess> {
    storage: S,
}

impl<S: RandomAccess> Ready<S> {
    /// The storage inside.
    pub closed spec fn inner(&self) -> S {
        self.storage
    }

    /// Puts `storage` in the place of a minimal backend.
    pub fn new(storage: S) -> (ready: Self)
        ensures
            ready.inner() == storage,
    {
        Ready { storage }
    }

    /// Takes the storage out again.
    pub fn into_storage(self) -> (storage: S)
        ensures
            storage == self.inner(),
    {
        self.storage
    }
}

impl<S: RandomAccess> Handler for Ready<S> {
    type Error = RandomAccessError;

    open spec fn wf(&self) -> bool {
        &&& self.inner().wf()
        &&& fits(self.inner().contents(), self.inner().capacity())
    }

    open spec fn open_spec(&self, after: &Self, result: Result<(), RandomAccessError>) -> bool {
        &&& result is Ok
        &&& *after == *self
    }

    open spec fn write_spec(
        &self,
        offset: u64,
        data: Seq<u8>,
        after: &Self,
        result: Result<(), RandomAccessError>,
    ) -> bool {
        &&& after.inner().capacity() == self.inner().capacity()
        &&& write_outcome(
            self.inner().contents(),
            self.inner().capacity(),
            offset,
            data,
            result,
            after.inner().contents(),
        )
    }

    open spec fn read_spec(
        &self,
        offset: u64,
        length: u64,
        after: &Self,
        result: Result<Vec<u8>, RandomAccessError>,
    ) -> bool {
        &&& after.inner().capacity() == self.inner().capacity()
        &&& after.inner().contents() == self.inner().contents()
        &&& read_outcome(self.inner().contents(), offset, length, result)
    }

    open spec fn del_spec(
        &self,
        offset: u64,
        length: u64,
        after: &Self,
        result: Result<(), RandomAccessError>,
    ) -> bool {
        &&& after.inner().capacity() == self.inner().capacity()
        &&& del_outcome(
            self.inner().contents(),
            self.inner().capacity(),
            offset,
            length,
            result,
            after.inner().contents(),
        )
    }

    fn open(&mut self) -> (result: Result<(), RandomAccessError>) {
        Ok(())
    }

    fn write(&mut self, offset: u64, data: &[u8]) -> (result: Result<(), RandomAccessError>) {
        self.storage.write(offset, data)
    }

    fn read(&mut self, offset: u64, length: u64) -> (result: Result<Vec<u8>, RandomAccessError>) {
        self.storage.read(offset, length)
    }

    fn del(&mut self, offset: u64, length: u64) -> (result: Result<(), RandomAccessError>) {
        self.storage.del(offset, length)
    }
}

} // verus!
