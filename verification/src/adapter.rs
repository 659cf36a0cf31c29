//! An adapter that opens a minimal backend on first use, and then hands
//! every operation through to it.

use crate::open_state::OpenState;
use vstd::prelude::*;

verus! {

/// A minimal backend: it can be initialized, written, read and deleted from,
/// and reports failures in a type of its own.
///
/// An implementation says what each primitive may do through the matching
/// `.._spec`: whether the primitive, started in `self`, can end in `after`
/// with `result`. One that leaves them as they are here promises nothing,
/// and is then always taken to be well-formed.
pub trait Handler: Sized {
    /// What the backend reports when a primitive fails.
    type Error;

    /// Whether the backend is in a state that its primitives can work from.
    open spec fn wf(&self) -> bool {
        true
    }

    /// What initialization may do.
    open spec fn open_spec(&self, after: &Self, result: Result<(), Self::Error>) -> bool {
        true
    }

    /// What a write of `data` at `offset` may do.
    open spec fn write_spec(
        &self,
        offset: u64,
        data: Seq<u8>,
        after: &Self,
        result: Result<(), Self::Error>,
    ) -> bool {
        true
    }

    /// What a read of `length` bytes at `offset` may do.
    open spec fn read_spec(
        &self,
        offset: u64,
        length: u64,
        after: &Self,
        result: Result<Vec<u8>, Self::Error>,
    ) -> bool {
        true
    }

    /// What a deletion of `length` bytes at `offset` may do.
    open spec fn del_spec(
        &self,
        offset: u64,
        length: u64,
        after: &Self,
        result: Result<(), Self::Error>,
    ) -> bool {
        true
    }

    /// Initializes the backend. The adapter calls this before the first
    /// operation, and again before the next one for as long as it fails.
    fn open(&mut self) -> (result: Result<(), Self::Error>)
        requires
            old(self).wf(),
        ensures
            final(self).wf(),
            old(self).open_spec(final(self), result),
    ;

    /// Writes `data` at `offset`.
    fn write(&mut self, offset: u64, data: &[u8]) -> (result: Result<(), Self::Error>)
        requires
            old(self).wf(),
        ensures
            final(self).wf(),
            old(self).write_spec(offset, data@, final(self), result),
    ;

    /// Reads `length` bytes at `offset`.
    fn read(&mut self, offset: u64, length: u64) -> (result: Result<Vec<u8>, Self::Error>)
        requires
            old(self).wf(),
        ensures
            final(self).wf(),
            old(self).read_spec(offset, length, final(self), result),
    ;

    /// Deletes `length` bytes at `offset`.
    fn del(&mut self, offset: u64, length: u64) -> (result: Result<(), Self::Error>)
        requires
            old(self).wf(),
        ensures
            final(self).wf(),
            old(self).del_spec(offset, length, final(self), result),
    ;

    /// Reads `length` bytes at `offset` and hands them to `sink`, behind what
    /// it holds already: the sink gets what a read would have returned, and
    /// is left as it was where a read would have failed.
    fn read_to_writer(&mut self, offset: u64, length: u64, sink: &mut Vec<u8>) -> (result: Result<
        (),
        Self::Error,
    >)
        requires
            old(self).wf(),
        ensures
            final(self).wf(),
            match result {
                Ok(()) => exists|bytes: Vec<u8>|
                    {
                        &&& #[trigger] old(self).read_spec(offset, length, final(self), Ok(bytes))
                        &&& final(sink)@ == old(sink)@ + bytes@
                    },
                Err(error) => {
                    &&& old(self).read_spec(offset, length, final(self), Err(error))
                    &&& final(sink)@ == old(sink)@
                },
            },
    {
        match self.read(offset, length) {
            Ok(bytes) => {
                let mut bytes = bytes;
                sink.append(&mut bytes);
                Ok(())
            },
            Err(error) => Err(error),
        }
    }
}

/// What a read into a sink may do: what a read may do, with the bytes behind
/// what the sink held instead of in the result. This is what
/// `Handler::read_to_writer` promises, under a name.
pub open spec fn streamed<H: Handler>(
    before: &H,
    offset: u64,
    length: u64,
    after: &H,
    result: Result<(), H::Error>,
    sink_before: Seq<u8>,
    sink_after: Seq<u8>,
) -> bool {
    match result {
        Ok(()) => exists|bytes: Vec<u8>|
            {
                &&& #[trigger] before.read_spec(offset, length, after, Ok(bytes))
                &&& sink_after == sink_before + bytes@
            },
        Err(error) => {
            &&& before.read_spec(offset, length, after, Err(error))
            &&& sink_after == sink_before
        },
    }
}

/// A minimal backend behind a guard that initializes it on first use.
///
/// The adapter starts unopened. Every operation first runs the guard: while
/// the adapter is unopened the guard initializes the backend, and the
/// adapter is opened from the first success on. The operation then goes to
/// the backend as it came, and the backend's answer comes back as it is.
pub struct Adapter<H: Handler> {
    handler: H,
    state: OpenState,
    attempts: Ghost<nat>,
}

impl<H: Handler> Adapter<H> {
    /// The backend as it stands.
    pub closed spec fn backend(&self) -> H {
        self.handler
    }

    /// Whether the backend has been initialized.
    pub closed spec fn state(&self) -> OpenState {
        self.state
    }

    /// How often this adapter has asked the backend to initialize.
    pub closed spec fn attempts(&self) -> nat {
        self.attempts@
    }

    /// Whether the adapter can work: its backend can.
    pub open spec fn wf(&self) -> bool {
        self.backend().wf()
    }

    /// What the guard does: started in `self`, it ends in `mid` and answers
    /// `opened`. An opened adapter passes untouched. An unopened one asks
    /// the backend to initialize, once, and is opened if that succeeds.
    pub open spec fn guard_spec(&self, mid: &Self, opened: Result<(), H::Error>) -> bool {
        if self.state().must_open() {
            &&& self.backend().open_spec(&mid.backend(), opened)
            &&& mid.state() == self.state().next(opened is Ok)
            &&& mid.attempts() == self.attempts() + 1
        } else {
            &&& opened is Ok
            &&& *mid == *self
        }
    }

    /// Whether `after` differs from `mid` in nothing but the backend: what
    /// an operation behind the guard leaves of the adapter.
    pub open spec fn passed_on(mid: &Self, after: &Self) -> bool {
        &&& after.state() == mid.state()
        &&& after.attempts() == mid.attempts()
    }

    /// What one operation does to the adapter's own state, whatever the
    /// backend answers: it asks the backend to initialize once if the adapter
    /// was unopened and not at all if it was opened, and it never leads back
    /// from opened to unopened.
    pub open spec fn step(&self, after: &Self) -> bool {
        &&& after.attempts() == self.attempts() + if self.state().must_open() {
            1nat
        } else {
            0nat
        }
        &&& self.state() is Opened ==> after.state() is Opened
    }

    /// Wraps `handler`, which is not touched before the first operation.
    pub fn new(handler: H) -> (adapter: Self)
        requires
            handler.wf(),
        ensures
            adapter.wf(),
            adapter.backend() == handler,
            adapter.state() is Unopened,
            adapter.attempts() == 0,
    {
        Adapter { handler, state: OpenState::Unopened, attempts: Ghost(0) }
    }

    /// Whether the backend has been initialized.
    pub fn is_open(&self) -> (open: bool)
        ensures
            open == (self.state() is Opened),
    {
        !self.state.needs_open()
    }

    /// The backend.
    pub fn handler(&self) -> (handler: &H)
        ensures
            *handler == self.backend(),
    {
        &self.handler
    }

    /// Takes the backend out again, as the operations so far have left it.
    pub fn into_handler(self) -> (handler: H)
        ensures
            handler == self.backend(),
    {
        self.handler
    }

    /// The guard in front of every operation.
    fn ensure_open(&mut self) -> (opened: Result<(), H::Error>)
        requires
            old(self).wf(),
        ensures
            final(self).wf(),
            old(self).guard_spec(final(self), opened),
    {
        if self.state.needs_open() {
            let opened = self.handler.open();
            self.state = self.state.after_attempt(opened.is_ok());
            proof {
                self.attempts@ = self.attempts@ + 1;
            }
            opened
        } else {
            Ok(())
        }
    }

    /// Writes `data` at `offset`, behind the guard.
    pub fn write(&mut self, offset: u64, data: &[u8]) -> (result: Result<(), H::Error>)
        requires
            old(self).wf(),
        ensures
            final(self).wf(),
            old(self).step(final(self)),
            final(self).state() is Unopened ==> result is Err,
            exists|mid: Self, opened: Result<(), H::Error>|
                {
                    &&& #[trigger] old(self).guard_spec(&mid, opened)
                    &&& match opened {
                        Ok(()) => {
                            &&& Self::passed_on(&mid, final(self))
                            &&& mid.backend().write_spec(
                                offset,
                                data@,
                                &final(self).backend(),
                                result,
                            )
                        },
                        Err(error) => *final(self) == mid && result == Err::<(), H::Error>(error),
                    }
                },
    {
        let opened = self.ensure_open();
        let ghost mid = *self;
        assert(old(self).guard_spec(&mid, opened));
        match opened {
            Ok(()) => self.handler.write(offset, data),
            Err(error) => Err(error),
        }
    }

    /// Reads `length` bytes at `offset`, behind the guard.
    pub fn read(&mut self, offset: u64, length: u64) -> (result: Result<Vec<u8>, H::Error>)
        requires
            old(self).wf(),
        ensures
            final(self).wf(),
            old(self).step(final(self)),
            final(self).state() is Unopened ==> result is Err,
            exists|mid: Self, opened: Result<(), H::Error>|
                {
                    &&& #[trigger] old(self).guard_spec(&mid, opened)
                    &&& match opened {
                        Ok(()) => {
                            &&& Self::passed_on(&mid, final(self))
                            &&& mid.backend().read_spec(
                                offset,
                                length,
                                &final(self).backend(),
                                result,
                            )
                        },
                        Err(error) => *final(self) == mid && result == Err::<Vec<u8>, H::Error>(error),
                    }
                },
    {
        let opened = self.ensure_open();
        let ghost mid = *self;
        assert(old(self).guard_spec(&mid, opened));
        match opened {
            Ok(()) => self.handler.read(offset, length),
            Err(error) => Err(error),
        }
    }

    /// Deletes `length` bytes at `offset`, behind the guard.
    pub fn del(&mut self, offset: u64, length: u64) -> (result: Result<(), H::Error>)
        requires
            old(self).wf(),
        ensures
            final(self).wf(),
            old(self).step(final(self)),
            final(self).state() is Unopened ==> result is Err,
            exists|mid: Self, opened: Result<(), H::Error>|
                {
                    &&& #[trigger] old(self).guard_spec(&mid, opened)
                    &&& match opened {
                        Ok(()) => {
                            &&& Self::passed_on(&mid, final(self))
                            &&& mid.backend().del_spec(
                                offset,
                                length,
                                &final(self).backend(),
                                result,
                            )
                        },
                        Err(error) => *final(self) == mid && result == Err::<(), H::Error>(error),
                    }
                },
    {
        let opened = self.ensure_open();
        let ghost mid = *self;
        assert(old(self).guard_spec(&mid, opened));
        match opened {
            Ok(()) => self.handler.del(offset, length),
            Err(error) => Err(error),
        }
    }

    /// Reads `length` bytes at `offset` into `sink`, behind the guard. Where
    /// the guard fails the sink is left as it was.
    pub fn read_to_writer(&mut self, offset: u64, length: u64, sink: &mut Vec<u8>) -> (result:
        Result<(), H::Error>)
        requires
            old(self).wf(),
        ensures
            final(self).wf(),
            old(self).step(final(self)),
            final(self).state() is Unopened ==> result is Err,
            exists|mid: Self, opened: Result<(), H::Error>|
                {
                    &&& #[trigger] old(self).guard_spec(&mid, opened)
                    &&& match opened {
                        Ok(()) => {
                            &&& Self::passed_on(&mid, final(self))
                            &&& streamed(
                                &mid.backend(),
                                offset,
                                length,
                                &final(self).backend(),
                                result,
                                old(sink)@,
                                final(sink)@,
                            )
                        },
                        Err(error) => {
                            &&& *final(self) == mid
                            &&& result == Err::<(), H::Error>(error)
                            &&& final(sink)@ == old(sink)@
                        },
                    }
                },
    {
        let opened = self.ensure_open();
        let ghost mid = *self;
        assert(old(self).guard_spec(&mid, opened));
        match opened {
            Ok(()) => self.handler.read_to_writer(offset, length, sink),
            Err(error) => Err(error),
        }
    }
}

/// Whether the adapter at `index` of `run` and the one behind it are one
/// operation apart.
pub open spec fn step_at<H: Handler>(run: Seq<Adapter<H>>, index: int) -> bool {
    run[index].step(&run[index + 1])
}

/// Whether `run` shows one adapter through a row of operations: as it stood
/// before the first, and after each.
pub open spec fn is_run<H: Handler>(run: Seq<Adapter<H>>) -> bool {
    &&& run.len() >= 1
    &&& forall|index: int| 0 <= index < run.len() - 1 ==> #[trigger] step_at(run, index)
}

/// Once opened, always opened: from the first operation that leaves the
/// adapter opened, every later one finds and leaves it opened, and the
/// count of initializations stands still.
pub proof fn lemma_run_stays_opened<H: Handler>(run: Seq<Adapter<H>>, from: int, to: int)
    requires
        is_run(run),
        0 <= from <= to < run.len(),
        run[from].state() is Opened,
    ensures
        run[to].state() is Opened,
        run[to].attempts() == run[from].attempts(),
    decreases to - from,
{
    if from < to {
        lemma_run_stays_opened(run, from, to - 1);
        assert(step_at(run, to - 1));
    }
}

/// Where the first operation on a new adapter opens the backend, the backend
/// has been initialized exactly once after any number of operations.
pub proof fn lemma_run_opens_exactly_once<H: Handler>(run: Seq<Adapter<H>>, operations: int)
    requires
        is_run(run),
        1 <= operations < run.len(),
        run[0].state() is Unopened,
        run[0].attempts() == 0,
        run[1].state() is Opened,
    ensures
        run[operations].state() is Opened,
        run[operations].attempts() == 1,
{
    assert(step_at(run, 0));
    lemma_run_stays_opened(run, 1, operations);
}

/// A failed initialization is tried again: as long as the adapter is still
/// unopened, every operation has asked the backend to initialize, and the
/// next one asks again.
pub proof fn lemma_run_retries_while_unopened<H: Handler>(run: Seq<Adapter<H>>, operations: int)
    requires
        is_run(run),
        0 <= operations < run.len(),
        run[operations].state() is Unopened,
    ensures
        forall|index: int| 0 <= index <= operations ==> (#[trigger] run[index]).state() is Unopened,
        run[operations].attempts() == run[0].attempts() + operations,
        operations + 1 < run.len() ==> run[operations + 1].attempts() == run[0].attempts()
            + operations + 1,
    decreases operations,
{
    if operations > 0 {
        assert(step_at(run, operations - 1));
        lemma_run_retries_while_unopened(run, operations - 1);
    }
    if operations + 1 < run.len() {
        assert(step_at(run, operations));
    }
}

} // verus!
