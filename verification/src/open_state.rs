//! The two states of a backend that is opened on first use, and the one way
//! between them.

use vstd::prelude::*;

verus! {

/// Whether the backend has been initialized.
#[derive(Clone, Copy, Debug, PartialEq, Eq, Structural)]
pub enum OpenState {
    /// Not yet: the next operation has to initialize the backend first.
    Unopened,
    /// Initialized, once and for good.
    Opened,
}

impl OpenState {
    /// Whether an operation in this state initializes the backend before it
    /// does anything else.
    pub open spec fn must_open(self) -> bool {
        self is Unopened
    }

    /// The state that an operation leaves, where `succeeded` tells how the
    /// initialization went that it attempted, if it attempted one.
    pub open spec fn next(self, succeeded: bool) -> OpenState {
        if self.must_open() && !succeeded {
            OpenState::Unopened
        } else {
            OpenState::Opened
        }
    }

    /// Whether an operation in this state has to initialize the backend
    /// first.
    pub fn needs_open(&self) -> (needed: bool)
        ensures
            needed == self.must_open(),
    {
        match self {
            OpenState::Unopened => true,
            OpenState::Opened => false,
        }
    }

    /// The state after an initialization that was attempted in this state and
    /// went as `succeeded` tells.
    pub fn after_attempt(&self, succeeded: bool) -> (next: OpenState)
        ensures
            next == self.next(succeeded),
    {
        match self {
            OpenState::Unopened => if succeeded {
                OpenState::Opened
            } else {
                OpenState::Unopened
            },
            OpenState::Opened => OpenState::Opened,
        }
    }
}

} // verus!
