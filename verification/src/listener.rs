//! The listener lifecycle: the entry decision that admits at most one
//! session, the per-session phase machine, and the error taxonomy a caller
//! can observe.
//!
//! The blocking hook installation itself is an outside primitive; the loop
//! driver that owns it advances a [`Session`] through its phases and maps
//! the platform diagnostic of a failed installation into
//! [`ListenError::HookInstallError`]. Both caller-visible failures arise
//! before the blocking phase begins; once the hook runs, nothing more is
//! observable through the return channel.

use vstd::prelude::*;
use vstd::string::StringExecFns;
use crate::guard::ListenerGuard;

verus! {

/// The two failures a caller of the entry operation can observe: a second
/// concurrent session was requested, or the platform refused to install the
/// hook (with its diagnostic text).
#[derive(Debug, PartialEq, Eq)]
pub enum ListenError {
    AlreadyListening,
    HookInstallError(String),
}

impl ListenError {
    /// The caller-facing description of the failure.
    pub fn message(&self) -> (m: String)
        ensures
            (*self) is AlreadyListening ==> m@ == "Device is already listening"@,
            (*self) matches ListenError::HookInstallError(d) ==> m@ == "Failed to listen device: "@
                + d@,
    {
        match self {
            ListenError::AlreadyListening => String::from_str("Device is already listening"),
            ListenError::HookInstallError(d) => String::from_str(
                "Failed to listen device: ",
            ).concat(d.as_str()),
        }
    }
}

/// The phases one session passes through: it may only move forward, and
/// only a session that acquired the guard reaches `Installing`.
#[derive(Debug, Clone, Copy, PartialEq, Eq, Structural)]
pub enum SessionPhase {
    NotInstalled,
    Installing,
    Running,
    Terminated,
}

/// One run of the listener, from the start request to hook termination.
pub struct Session {
    phase: SessionPhase,
}

impl Session {
    /// The phase the session is in.
    pub closed spec fn current_phase(&self) -> SessionPhase {
        self.phase
    }

    /// Reads the phase the session is in.
    pub fn phase(&self) -> (p: SessionPhase)
        ensures
            p == self.current_phase(),
    {
        self.phase
    }

    /// A session that has not requested anything yet.
    pub fn new() -> (s: Session)
        ensures
            s.current_phase() == SessionPhase::NotInstalled,
    {
        Session { phase: SessionPhase::NotInstalled }
    }

    /// The entry decision of the listener: attempt to become the one active
    /// session. When another session already holds the guard this fails with
    /// `AlreadyListening` and changes nothing — neither the guard nor the
    /// session phase; otherwise the guard is taken and the session proceeds
    /// to hook installation.
    pub fn request_start(&mut self, guard: &mut ListenerGuard) -> (r: Result<(), ListenError>)
        requires
            old(self).current_phase() == SessionPhase::NotInstalled,
        ensures
            old(guard).is_active() ==> (r matches Err(e) && e is AlreadyListening && *final(guard)
                == *old(guard) && *final(self) == *old(self)),
            !old(guard).is_active() ==> r is Ok && final(guard).is_active()
                && final(self).current_phase() == SessionPhase::Installing,
    {
        let acquired = guard.try_acquire();
        if !acquired {
            Err(ListenError::AlreadyListening)
        } else {
            self.phase = SessionPhase::Installing;
            Ok(())
        }
    }

    /// The hook is installed and the blocking event loop has begun.
    pub fn install_succeeded(&mut self)
        requires
            old(self).current_phase() == SessionPhase::Installing,
        ensures
            final(self).current_phase() == SessionPhase::Running,
    {
        self.phase = SessionPhase::Running;
    }

    /// The platform refused to install the hook: the session terminates and
    /// the caller receives the install error carrying the platform
    /// diagnostic unchanged.
    pub fn install_failed(&mut self, details: String) -> (e: ListenError)
        requires
            old(self).current_phase() == SessionPhase::Installing,
        ensures
            final(self).current_phase() == SessionPhase::Terminated,
            e matches ListenError::HookInstallError(d) && d@ == details@,
    {
        self.phase = SessionPhase::Terminated;
        ListenError::HookInstallError(details)
    }

    /// The hook itself terminated; the session is over.
    pub fn hook_terminated(&mut self)
        requires
            old(self).current_phase() == SessionPhase::Running,
        ensures
            final(self).current_phase() == SessionPhase::Terminated,
    {
        self.phase = SessionPhase::Terminated;
    }
}

} // verus!
