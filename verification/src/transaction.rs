//! The handoff between a driver and the kernel's completion callback: a
//! guard that admits one outstanding operation, and a one-shot slot that
//! carries its result from the callback to the waiting task.

use crate::atomic::{flag_fetch_or, flag_load, flag_new, flag_store, flag_value};
use crate::error::ErrorCode;
use core::task::Waker;
use embassy_sync::waitqueue::AtomicWaker;
use portable_atomic::AtomicBool;
use vstd::prelude::*;

verus! {

/// `embassy_sync::waitqueue::AtomicWaker`, carried as an opaque value.
#[verifier::external_type_specification]
#[verifier::external_body]
pub struct ExAtomicWaker(AtomicWaker);

/// `embassy_sync::waitqueue::AtomicWaker::new`: a cell with no waker
/// registered. Nothing is stated of it.
#[verifier::external_body]
pub(crate) fn waiter_new() -> AtomicWaker {
    AtomicWaker::new()
}

/// `embassy_sync::waitqueue::AtomicWaker::register`: puts `waker` in the
/// place of the waker registered before. Nothing is stated of it.
#[verifier::external_body]
pub(crate) fn waiter_register(waiter: &AtomicWaker, waker: &Waker) {
    waiter.register(waker)
}

/// `embassy_sync::waitqueue::AtomicWaker::wake`: wakes the waker
/// registered, if one is. Nothing is stated of it.
#[verifier::external_body]
pub(crate) fn waiter_wake(waiter: &AtomicWaker) {
    waiter.wake()
}

/// Admits at most one operation in flight, by a busy flag that is set with
/// an exchange and so tested and taken in one step.
pub struct TransactionGuard {
    busy: AtomicBool,
}

impl TransactionGuard {
    /// Whether an operation is in flight.
    pub closed spec fn is_busy(&self) -> bool {
        flag_value(self.busy)
    }

    /// A guard with no operation in flight.
    pub fn new() -> (guard: TransactionGuard)
        ensures
            !guard.is_busy(),
    {
        TransactionGuard { busy: flag_new(false) }
    }

    /// Whether an operation is in flight.
    pub fn busy(&self) -> (b: bool)
        ensures
            b == self.is_busy(),
    {
        flag_load(&self.busy)
    }

    /// Claims the guard for a new operation. Fails with `Busy`, at once and
    /// without effect, while an earlier operation is in flight.
    pub fn begin(&mut self) -> (r: Result<(), ErrorCode>)
        ensures
            final(self).is_busy(),
            r == (if old(self).is_busy() {
                Err::<(), ErrorCode>(ErrorCode::Busy)
            } else {
                Ok::<(), ErrorCode>(())
            }),
    {
        if flag_fetch_or(&mut self.busy, true) {
            Err(ErrorCode::Busy)
        } else {
            Ok(())
        }
    }

    /// Frees the guard: after the result was consumed, or after a failure
    /// that will produce no completion.
    pub fn end(&mut self)
        ensures
            !final(self).is_busy(),
    {
        flag_store(&mut self.busy, false)
    }
}

/// The result of one asynchronous call, on its way from the kernel's
/// callback to the task that waits for it, with the waker of that task.
pub struct UpcallSlot<T> {
    result: Option<T>,
    waiter: AtomicWaker,
}

impl<T> UpcallSlot<T> {
    /// The result that waits in the slot.
    pub closed spec fn completion(&self) -> Option<T> {
        self.result
    }

    /// An empty slot.
    pub fn new() -> (slot: UpcallSlot<T>)
        ensures
            slot.completion().is_none(),
    {
        UpcallSlot { result: None, waiter: waiter_new() }
    }

    /// Empties the slot for a new operation.
    pub fn reset(&mut self)
        ensures
            final(self).completion().is_none(),
    {
        self.result = None;
    }

    /// Stores the result that the callback delivers, and wakes the task
    /// that waits for it.
    pub fn complete(&mut self, record: T)
        ensures
            final(self).completion() == Some(record),
    {
        self.result = Some(record);
        waiter_wake(&self.waiter);
    }

    /// Registers `waker` to be woken by the completion, and drains the
    /// slot: the result if it has arrived, and the slot is empty
    /// afterwards, so that a result is consumed once.
    pub fn poll(&mut self, waker: &Waker) -> (r: Option<T>)
        ensures
            r == old(self).completion(),
            final(self).completion().is_none(),
    {
        waiter_register(&self.waiter, waker);
        self.result.take()
    }
}

} // verus!
