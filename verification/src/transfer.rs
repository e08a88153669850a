//! The course of one exact transfer: a read or a write that has to move a
//! given number of bytes.
//!
//! A transfer has one of two modes. A gathering transfer takes the bytes in
//! as many system calls as it takes: it is for reads, where the bytes of a
//! frame may arrive in pieces. A transfer in one call has to move every
//! byte with its first call: it is for writes, where a frame must never be
//! split over two calls. A first call that moves only part of the bytes
//! fails such a transfer as short, and no second call is asked for.
//!
//! The caller asks what to do next, makes the call, and records what the
//! call gave. The transfer ends complete, with every byte moved, or failed.
//! Nothing is tried again after a failure.

use vstd::prelude::*;
use crate::transport::TransportError;

verus! {

/// How the bytes of a transfer may move.
#[derive(Clone, Copy, Debug, PartialEq, Eq, Structural)]
pub enum TransferMode {
    /// In as many calls as it takes.
    Gather,
    /// All in one call.
    OneCall,
}

/// What the caller has to do next.
#[derive(Clone, Copy, Debug, PartialEq, Eq, Structural)]
pub enum TransferStep {
    /// Move up to `len` bytes, starting at `offset` of the buffer.
    Move { offset: usize, len: usize },
    /// Every byte has moved.
    Complete,
    /// The transfer has failed.
    Failed(TransportError),
}

/// The progress of one exact transfer.
#[derive(Clone, Copy, Debug)]
pub struct ExactTransfer {
    mode: TransferMode,
    expected: usize,
    moved: usize,
    failure: Option<TransportError>,
}

/// The progress of an exact transfer, as numbers.
pub struct TransferModel {
    pub mode: TransferMode,
    pub expected: usize,
    pub moved: usize,
    pub failure: Option<TransportError>,
}

impl TransferModel {
    /// A transfer of `expected` bytes in the given mode, none of which has
    /// moved.
    pub open spec fn fresh(mode: TransferMode, expected: usize) -> TransferModel {
        TransferModel { mode, expected, moved: 0, failure: None }
    }

    /// No more bytes have moved than were to move.
    pub open spec fn well_formed(self) -> bool {
        self.moved <= self.expected
    }

    /// The transfer is over: complete or failed.
    pub open spec fn is_over(self) -> bool {
        self.failure is Some || self.moved == self.expected
    }

    /// What is to do next.
    pub open spec fn step(self) -> TransferStep {
        match self.failure {
            Some(error) => TransferStep::Failed(error),
            None => if self.moved == self.expected {
                TransferStep::Complete
            } else {
                TransferStep::Move {
                    offset: self.moved,
                    len: (self.expected - self.moved) as usize,
                }
            },
        }
    }

    /// The progress after a system call that moved `n` bytes (`Ok(n)`) or
    /// failed with an error code. A transfer that is over stays as it is. A
    /// call that failed fails the transfer with its code. A call that moved
    /// nothing, or more than was asked for, fails it as a short transfer.
    /// A call that moved part of what was asked for goes on in a gathering
    /// transfer; in a transfer in one call the bytes count as moved and the
    /// transfer fails as short.
    pub open spec fn record(self, event: Result<usize, i32>) -> TransferModel {
        if self.is_over() {
            self
        } else {
            match event {
                Err(code) => TransferModel { failure: Some(TransportError::Io(code)), ..self },
                Ok(n) => if n == 0 || n > self.expected - self.moved {
                    TransferModel {
                        failure: Some(
                            TransportError::ShortTransfer {
                                expected: self.expected,
                                actual: self.moved,
                            },
                        ),
                        ..self
                    }
                } else if self.mode == TransferMode::OneCall && n < self.expected - self.moved {
                    TransferModel {
                        moved: (self.moved + n) as usize,
                        failure: Some(
                            TransportError::ShortTransfer {
                                expected: self.expected,
                                actual: (self.moved + n) as usize,
                            },
                        ),
                        ..self
                    }
                } else {
                    TransferModel { moved: (self.moved + n) as usize, ..self }
                },
            }
        }
    }
}

impl View for ExactTransfer {
    type V = TransferModel;

    closed spec fn view(&self) -> TransferModel {
        TransferModel {
            mode: self.mode,
            expected: self.expected,
            moved: self.moved,
            failure: self.failure,
        }
    }
}

impl ExactTransfer {
    #[verifier::type_invariant]
    spec fn within_bounds(self) -> bool {
        self.moved <= self.expected
    }

    /// A gathering transfer of `expected` bytes, none of which has moved.
    pub fn new(expected: usize) -> (t: ExactTransfer)
        ensures
            t@ == TransferModel::fresh(TransferMode::Gather, expected),
    {
        ExactTransfer { mode: TransferMode::Gather, expected, moved: 0, failure: None }
    }

    /// A transfer of `expected` bytes in one call, none of which has moved.
    pub fn in_one_call(expected: usize) -> (t: ExactTransfer)
        ensures
            t@ == TransferModel::fresh(TransferMode::OneCall, expected),
    {
        ExactTransfer { mode: TransferMode::OneCall, expected, moved: 0, failure: None }
    }

    /// How the bytes may move.
    pub fn mode(&self) -> (m: TransferMode)
        ensures
            m == self@.mode,
    {
        self.mode
    }

    /// The number of bytes that have to move.
    pub fn expected(&self) -> (n: usize)
        ensures
            n == self@.expected,
    {
        self.expected
    }

    /// The number of bytes that have moved.
    pub fn moved(&self) -> (n: usize)
        ensures
            n == self@.moved,
            self@.well_formed(),
    {
        proof {
            use_type_invariant(self);
        }
        self.moved
    }

    /// What the caller has to do next.
    pub fn step(&self) -> (s: TransferStep)
        ensures
            s == self@.step(),
            self@.well_formed(),
    {
        proof {
            use_type_invariant(self);
        }
        match self.failure {
            Some(error) => TransferStep::Failed(error),
            None => if self.moved == self.expected {
                TransferStep::Complete
            } else {
                TransferStep::Move { offset: self.moved, len: self.expected - self.moved }
            },
        }
    }

    /// Records what a system call gave: the number of bytes it moved, or
    /// its error code.
    pub fn record(&mut self, event: Result<usize, i32>)
        ensures
            final(self)@ == old(self)@.record(event),
            final(self)@.well_formed(),
    {
        proof {
            use_type_invariant(&*self);
        }
        if self.failure.is_some() || self.moved == self.expected {
            return ;
        }
        match event {
            Err(code) => {
                self.failure = Some(TransportError::Io(code));
            },
            Ok(n) => {
                if n == 0 || n > self.expected - self.moved {
                    self.failure = Some(
                        TransportError::ShortTransfer {
                            expected: self.expected,
                            actual: self.moved,
                        },
                    );
                } else if self.mode == TransferMode::OneCall && n < self.expected - self.moved {
                    self.moved = self.moved + n;
                    self.failure = Some(
                        TransportError::ShortTransfer {
                            expected: self.expected,
                            actual: self.moved,
                        },
                    );
                } else {
                    self.moved = self.moved + n;
                }
            },
        }
    }
}

/// A transfer is complete only when every byte has moved, and a step never
/// asks for more bytes than are left, nor for none.
pub proof fn lemma_transfer_step(t: TransferModel)
    requires
        t.well_formed(),
    ensures
        t.step() == TransferStep::Complete <==> t.failure is None && t.moved == t.expected,
        t.step() is Move ==> t.step()->offset == t.moved && t.step()->len >= 1
            && t.step()->offset + t.step()->len == t.expected,
{
}

/// Recording an outcome keeps what has moved within what was to move, never
/// takes bytes back, and leaves a failed transfer failed with the same
/// error.
pub proof fn lemma_transfer_record(t: TransferModel, event: Result<usize, i32>)
    requires
        t.well_formed(),
    ensures
        t.record(event).well_formed(),
        t.record(event).expected == t.expected,
        t.record(event).mode == t.mode,
        t.record(event).moved >= t.moved,
        t.failure is Some ==> t.record(event) == t,
        event is Err && !t.is_over() ==> t.record(event).step() == TransferStep::Failed(
            TransportError::Io(event->Err_0),
        ),
        event == Ok::<usize, i32>(0) && !t.is_over() ==> t.record(event).step()
            == TransferStep::Failed(
            TransportError::ShortTransfer { expected: t.expected, actual: t.moved },
        ),
{
}

/// A transfer in one call is over after its first call, and complete only
/// where that call moved every byte. A call that moved part of the bytes
/// fails it as short, with the number of bytes that moved.
pub proof fn lemma_one_call_transfer(expected: usize, event: Result<usize, i32>)
    requires
        expected > 0,
    ensures
        TransferModel::fresh(TransferMode::OneCall, expected).step() == (TransferStep::Move {
            offset: 0,
            len: expected,
        }),
        TransferModel::fresh(TransferMode::OneCall, expected).record(event).is_over(),
        TransferModel::fresh(TransferMode::OneCall, expected).record(event).step()
            == TransferStep::Complete <==> event == Ok::<usize, i32>(expected),
        event is Ok && 0 < event->Ok_0 < expected ==> TransferModel::fresh(
            TransferMode::OneCall,
            expected,
        ).record(event).step() == TransferStep::Failed(
            TransportError::ShortTransfer { expected, actual: event->Ok_0 },
        ),
{
}

} // verus!
