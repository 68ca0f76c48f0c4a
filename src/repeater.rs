//! The owner's side of a repeater: the handle that keeps the background
//! unit, the cancellation request and the teardown.
//!
//! A `Repeater` is generic over the handle of its background unit. Whoever
//! starts the unit hands its handle in; `shutdown` records the cancellation
//! and gives the handle back exactly once, so that the unit is waited on at
//! most once however often shutdown is called.
use vstd::prelude::*;

verus! {

/// What can go wrong around a repeater's background unit.
#[derive(PartialEq, Eq, Structural, Debug, Clone, Copy)]
pub enum RepeaterError {
    /// The background unit could not be created; nothing was left behind.
    SchedulingFailure,
    /// The background unit could not be waited on during shutdown. This is
    /// reported, never raised: the handle counts as reclaimed all the same.
    JoinFailure,
}

/// The abstract state of a repeater's owner.
pub ghost struct RepeaterModel<H> {
    /// The background unit's handle, while the owner still holds it.
    pub worker: Option<H>,
    /// Whether cancellation has been requested.
    pub cancelled: bool,
    /// The interval, fixed at construction.
    pub interval_ms: u64,
}

impl<H> RepeaterModel<H> {
    /// The state after a shutdown: cancellation requested, handle given up.
    pub open spec fn shut(self) -> RepeaterModel<H> {
        RepeaterModel { worker: None, cancelled: true, ..self }
    }
}

/// Shutting down twice is the same as shutting down once, and the second
/// shutdown finds no handle left: the background unit is waited on, and its
/// resources released, at most once. The cancellation request, once made,
/// stays made.
pub proof fn lemma_shutdown_idempotent<H>(m: RepeaterModel<H>)
    ensures
        m.shut().shut() == m.shut(),
        m.shut().worker is None,
        m.shut().cancelled,
        m.shut().interval_ms == m.interval_ms,
{
}

/// A periodic-task runner's owning handle.
pub struct Repeater<H> {
    handle: Option<H>,
    cancelled: bool,
    interval_ms: u64,
}

impl<H> View for Repeater<H> {
    type V = RepeaterModel<H>;

    closed spec fn view(&self) -> RepeaterModel<H> {
        RepeaterModel { worker: self.handle, cancelled: self.cancelled, interval_ms: self.interval_ms }
    }
}

impl<H> Repeater<H> {
    /// Takes ownership of a background unit, just started, that invokes a
    /// callback every `how_often` milliseconds. No cancellation is
    /// requested yet.
    pub fn new(worker: H, how_often: u64) -> (r: Repeater<H>)
        ensures
            r@ == (RepeaterModel { worker: Some(worker), cancelled: false, interval_ms: how_often }),
    {
        Repeater { handle: Some(worker), cancelled: false, interval_ms: how_often }
    }

    /// Requests cancellation and gives up the background unit's handle, for
    /// the caller to set the shared flag and wait on it. A later call finds
    /// no handle and changes nothing.
    pub fn shutdown(&mut self) -> (r: Option<H>)
        ensures
            r == old(self)@.worker,
            final(self)@ == old(self)@.shut(),
    {
        self.cancelled = true;
        self.handle.take()
    }

    /// Whether cancellation has been requested.
    pub fn is_cancelled(&self) -> (r: bool)
        ensures
            r == self@.cancelled,
    {
        self.cancelled
    }

    /// Whether the owner still holds the background unit's handle.
    pub fn is_running(&self) -> (r: bool)
        ensures
            r == self@.worker is Some,
    {
        self.handle.is_some()
    }

    /// The interval fixed at construction, in milliseconds.
    pub fn interval_ms(&self) -> (r: u64)
        ensures
            r == self@.interval_ms,
    {
        self.interval_ms
    }
}

/// What waiting on the background unit amounts to: `joined` tells whether
/// the wait succeeded.
pub fn join_outcome(joined: bool) -> (r: Result<(), RepeaterError>)
    ensures
        r == (if joined { Ok(()) } else { Err(RepeaterError::JoinFailure) }),
{
    if joined {
        Ok(())
    } else {
        Err(RepeaterError::JoinFailure)
    }
}

} // verus!
