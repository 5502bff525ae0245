//! The ambient session state machine.
//!
//! Exactly one sampling run may exist at a time. `start` and `stop` are
//! rejected when called in the wrong state and leave the session
//! untouched; `is_active` is a pure read. The worker itself (a thread in
//! the surrounding application) is owned by the caller: this state
//! machine decides when one may be spawned and when one must be joined,
//! and records a worker's self-termination so a run that died on a fatal
//! capture error is not reported as still active.

use vstd::prelude::*;

verus! {

/// The error kinds the engine surfaces.
#[derive(Clone, Copy, PartialEq, Eq, Structural, Debug)]
pub enum ErrorKind {
    /// `start` was called while a run was already active.
    AlreadyRunning,
    /// `stop` was called with no run active.
    NotRunning,
    /// The hardware sink could not be written: device missing,
    /// unwritable, or a partial write. Logged per cycle, never fatal.
    SinkWriteFailed,
    /// The capture source had no frame ready yet; transient, retried
    /// after a short wait and never surfaced to callers.
    CaptureUnavailable,
    /// The capture source failed unrecoverably; the run terminates.
    CaptureFatal,
}

/// Lifecycle state of the ambient sampling session.
#[derive(Clone, Copy, PartialEq, Eq, Structural, Debug)]
pub enum SessionState {
    Idle,
    Running,
}

/// The `start` transition: an idle session starts a run; a running one
/// rejects the call and is left untouched.
pub open spec fn spec_start(s: SessionState) -> (SessionState, Result<(), ErrorKind>) {
    match s {
        SessionState::Idle => (SessionState::Running, Ok(())),
        SessionState::Running => (SessionState::Running, Err(ErrorKind::AlreadyRunning)),
    }
}

/// The `stop` transition: a running session becomes idle; an idle one
/// rejects the call.
pub open spec fn spec_stop(s: SessionState) -> (SessionState, Result<(), ErrorKind>) {
    match s {
        SessionState::Running => (SessionState::Idle, Ok(())),
        SessionState::Idle => (SessionState::Idle, Err(ErrorKind::NotRunning)),
    }
}

/// Bookkeeping for the single ambient sampling run.
pub struct AmbientSession {
    pub state: SessionState,
}

impl AmbientSession {
    /// A fresh session is idle.
    pub fn new() -> (s: AmbientSession)
        ensures
            s.state == SessionState::Idle,
    {
        AmbientSession { state: SessionState::Idle }
    }

    /// Requests the start of a run. `Ok` means the session transitioned
    /// from idle to running and the caller must now spawn exactly one
    /// worker; on `Err(AlreadyRunning)` nothing changed and no worker may
    /// be spawned.
    pub fn start(&mut self) -> (r: Result<(), ErrorKind>)
        ensures
            final(self).state == spec_start(old(self).state).0,
            r == spec_start(old(self).state).1,
    {
        match self.state {
            SessionState::Idle => {
                self.state = SessionState::Running;
                Ok(())
            },
            SessionState::Running => Err(ErrorKind::AlreadyRunning),
        }
    }

    /// Requests the stop of the run. `Ok` means the session transitioned
    /// from running to idle and the caller must notify the cancellation
    /// signal and join the worker before treating the stop as complete;
    /// on `Err(NotRunning)` there was no run.
    pub fn stop(&mut self) -> (r: Result<(), ErrorKind>)
        ensures
            final(self).state == spec_stop(old(self).state).0,
            r == spec_stop(old(self).state).1,
    {
        match self.state {
            SessionState::Running => {
                self.state = SessionState::Idle;
                Ok(())
            },
            SessionState::Idle => Err(ErrorKind::NotRunning),
        }
    }

    /// Pure read of the current state; never blocks, never mutates.
    pub fn is_active(&self) -> (r: bool)
        ensures
            r == (self.state is Running),
    {
        match self.state {
            SessionState::Running => true,
            SessionState::Idle => false,
        }
    }

    /// Records that the worker exited on its own (fatal capture
    /// failure), so `is_active` and `stop` observe an idle session
    /// instead of a run that no longer exists.
    pub fn note_worker_exit(&mut self)
        ensures
            final(self).state == SessionState::Idle,
    {
        self.state = SessionState::Idle;
    }
}

/// Once a start succeeds, a second start is rejected with
/// `AlreadyRunning` and changes nothing — so at most one worker is ever
/// spawned.
pub proof fn lemma_start_exclusive(s: SessionState)
    ensures
        spec_start(s).1 is Ok ==> spec_start(spec_start(s).0).1 == Err::<(), ErrorKind>(
            ErrorKind::AlreadyRunning,
        ),
        spec_start(s).1 is Ok ==> spec_start(spec_start(s).0).0 == spec_start(s).0,
{
}

/// Stopping with no active run is rejected with `NotRunning` and leaves
/// the session idle.
pub proof fn lemma_stop_without_run_rejected()
    ensures
        spec_stop(SessionState::Idle).1 == Err::<(), ErrorKind>(ErrorKind::NotRunning),
        spec_stop(SessionState::Idle).0 == SessionState::Idle,
{
}

/// A successful start followed by a stop succeeds and leaves the session
/// idle.
pub proof fn lemma_start_then_stop_idle(s: SessionState)
    ensures
        spec_start(s).1 is Ok ==> spec_stop(spec_start(s).0).0 == SessionState::Idle,
        spec_start(s).1 is Ok ==> spec_stop(spec_start(s).0).1 == Ok::<(), ErrorKind>(()),
{
}

} // verus!
