use vstd::prelude::*;

use crate::error::ShutdownError;
use crate::registry::{count_taken, take_once, takes, HandleSlot};

verus! {

/// A notification that the window or the application is about to close. Each
/// may arrive any number of times, in any order, on any thread.
#[derive(Debug, Clone, Copy, PartialEq, Eq, Structural)]
pub enum LifecycleEvent {
    WindowCloseRequested,
    ApplicationExitRequested,
}

/// The next thing the shutdown sequence asks the caller to do.
#[derive(Debug, Clone, Copy, PartialEq, Eq, Structural)]
pub enum ShutdownStep {
    /// Write `SHUTDOWN_NOTICE` to the child's input stream.
    WriteNotice,
    /// Kill the child process.
    Kill,
    /// Terminate the hosting application at once with the given status.
    Exit(i32),
}

/// The line written to the child before it is killed; informational only.
pub const SHUTDOWN_NOTICE: &'static str = "Exit message from Rust\n";

/// Status the hosting application exits with, whatever happened on the way.
pub const EXIT_STATUS: i32 = 0;

/// The step that follows `done` finished steps.
pub open spec fn step_at(done: nat) -> ShutdownStep {
    if done == 0 {
        ShutdownStep::WriteNotice
    } else if done == 1 {
        ShutdownStep::Kill
    } else {
        ShutdownStep::Exit(EXIT_STATUS)
    }
}

/// The number of finished steps after one more step, whatever its outcome.
pub open spec fn after_step(done: nat, succeeded: bool) -> nat {
    done + 1
}

/// The error reported for a failed step, of the ones that can fail.
pub open spec fn failure_of(done: nat) -> ShutdownError {
    if done == 0 {
        ShutdownError::ShutdownNoticeFailed
    } else {
        ShutdownError::ShutdownKillFailed
    }
}

/// One run of the shutdown sequence: notice, then kill, then exit. Failures of
/// the first two steps are reported and skipped over; the exit always comes.
pub struct ShutdownSequence {
    done: u8,
}

impl View for ShutdownSequence {
    type V = nat;

    /// The number of finished steps.
    closed spec fn view(&self) -> nat {
        self.done as nat
    }
}

impl ShutdownSequence {
    pub closed spec fn wf(&self) -> bool {
        self.done <= 2
    }

    /// A sequence with no step done yet.
    pub fn begin() -> (s: Self)
        ensures
            s.wf(),
            s@ == 0,
    {
        ShutdownSequence { done: 0 }
    }

    /// The step to perform now.
    pub fn current(&self) -> (r: ShutdownStep)
        requires
            self.wf(),
        ensures
            r == step_at(self@),
    {
        if self.done == 0 {
            ShutdownStep::WriteNotice
        } else if self.done == 1 {
            ShutdownStep::Kill
        } else {
            ShutdownStep::Exit(EXIT_STATUS)
        }
    }

    /// Records the outcome of the notice or kill step and moves on to the next
    /// step in either case. Returns the error to log when the step failed.
    pub fn record(&mut self, succeeded: bool) -> (r: Option<ShutdownError>)
        requires
            old(self).wf(),
            old(self)@ < 2,
        ensures
            final(self).wf(),
            final(self)@ == after_step(old(self)@, succeeded),
            succeeded ==> r is None,
            !succeeded ==> r == Some(failure_of(old(self)@)),
    {
        let failed = if self.done == 0 {
            ShutdownError::ShutdownNoticeFailed
        } else {
            ShutdownError::ShutdownKillFailed
        };
        self.done = self.done + 1;
        if succeeded {
            None
        } else {
            Some(failed)
        }
    }
}

/// The shutdown listener. It takes the child out of the shared slot; the one
/// caller that gets it receives it with a fresh shutdown sequence, and every
/// other call, earlier or later, concurrent or not, does nothing.
pub fn on_lifecycle_event<T>(slot: &mut HandleSlot<T>, event: LifecycleEvent) -> (r: Option<
    (T, ShutdownSequence),
>)
    ensures
        final(slot)@ is None,
        r is Some <==> old(slot)@ is Some,
        r is Some ==> r->Some_0.0 == old(slot)@->Some_0,
        r is Some ==> r->Some_0.1.wf() && r->Some_0.1@ == 0,
{
    match slot.take() {
        Some(child) => Some((child, ShutdownSequence::begin())),
        None => None,
    }
}

/// For each of `events`, delivered in order to listeners sharing a slot whose
/// content is `slot`, whether it started a shutdown sequence.
pub open spec fn shutdowns_started<T>(slot: Option<T>, events: Seq<LifecycleEvent>) -> Seq<bool> {
    Seq::new(events.len(), |i: int| takes(slot, events.len())[i] is Some)
}

/// Whatever mix of window-close and application-exit requests arrives, in any
/// order and any number `>= 1`, a shutdown sequence starts exactly once: on
/// the first event, with the child that was launched.
pub proof fn shutdown_starts_once<T>(child: T, events: Seq<LifecycleEvent>)
    requires
        events.len() >= 1,
    ensures
        shutdowns_started(Some(child), events)[0],
        forall|i: int| 1 <= i < events.len() ==> !shutdowns_started(Some(child), events)[i],
        count_taken(takes(Some(child), events.len())) == 1,
{
    take_once(child, events.len());
}

/// The sequence performs notice, kill and exit in this order, and reaches the
/// exit with status 0 whether or not the notice and the kill succeeded.
pub proof fn shutdown_always_exits(notice_ok: bool, kill_ok: bool)
    ensures
        step_at(0) == ShutdownStep::WriteNotice,
        step_at(after_step(0, notice_ok)) == ShutdownStep::Kill,
        step_at(after_step(after_step(0, notice_ok), kill_ok)) == ShutdownStep::Exit(0),
{
}

} // verus!
