//! Interactive terminal sessions: which ones run, and what follows from a
//! write, a kill and the end of a session's process.

use crate::events::{event_views, UiEvent, UiEventView};
use crate::registry::Registry;
use crate::sessions::{exit_code_or_unknown, MonitorStep, ProcessStatus};
use crate::text::{owned, texts};
use vstd::prelude::*;

verus! {

/// The milliseconds between two polls of a terminal session's process.
pub const PTY_POLL_MILLIS: u64 = 120;

/// Why an operation on a terminal session failed.
#[derive(Debug, Clone, Copy, PartialEq, Eq, Structural)]
pub enum PtyError {
    /// No session has the identifier.
    NotFound,
    /// The session's input could not be written to.
    WriteFailed,
    /// The session's process could not be ended.
    KillFailed,
}

/// What the user reads of an error.
pub open spec fn pty_error_text(error: PtyError) -> Seq<char> {
    match error {
        PtyError::NotFound => "Terminal not found"@,
        PtyError::WriteFailed => "Failed to write to terminal"@,
        PtyError::KillFailed => "Failed to stop terminal"@,
    }
}

impl PtyError {
    /// What the user reads of this error.
    pub fn message(&self) -> (r: String)
        ensures
            r@ == pty_error_text(*self),
    {
        match self {
            PtyError::NotFound => owned("Terminal not found"),
            PtyError::WriteFailed => owned("Failed to write to terminal"),
            PtyError::KillFailed => owned("Failed to stop terminal"),
        }
    }
}

/// The terminal sessions that run, by their identifier. Many can run at a
/// time.
pub struct PtySessionRegistry<H> {
    sessions: Registry<H>,
}

impl<H> View for PtySessionRegistry<H> {
    type V = Map<Seq<char>, H>;

    closed spec fn view(&self) -> Map<Seq<char>, H> {
        self.sessions@
    }
}

/// The event that tells of the end of the terminal session `id`.
pub open spec fn pty_exit_event(id: Seq<char>, code: Option<i32>) -> UiEventView {
    UiEventView::PtyExit { id, exit_code: exit_code_or_unknown(code) }
}

/// Whether `step` is what the monitor of the session `id` does next, having
/// learnt `status`: it stops where the session is gone, waits where its
/// process runs, and else hands out the process and the one event that tells
/// of its end.
pub open spec fn pty_monitor_next<H>(
    sessions: Map<Seq<char>, H>,
    id: Seq<char>,
    status: ProcessStatus,
    step: MonitorStep<H>,
) -> bool {
    if !sessions.contains_key(id) {
        step is Stop
    } else {
        match status {
            ProcessStatus::Running => step is Wait,
            ProcessStatus::Exited(code) => step is Finished && step->process == sessions[id]
                && event_views(step->events@) == seq![pty_exit_event(id, code)],
        }
    }
}

/// The shell that a new session runs: the one asked for, or the platform's.
pub fn shell_or_default(shell: Option<String>, platform_shell: &str) -> (r: String)
    ensures
        r@ == match shell {
            Some(s) => s@,
            None => platform_shell@,
        },
{
    match shell {
        Some(s) => s,
        None => owned(platform_shell),
    }
}

/// How a write to a session ended: well, or with a failed write.
pub fn finish_write(written: bool) -> (r: Result<(), PtyError>)
    ensures
        r == if written {
            Ok::<(), PtyError>(())
        } else {
            Err::<(), PtyError>(PtyError::WriteFailed)
        },
{
    if written {
        Ok(())
    } else {
        Err(PtyError::WriteFailed)
    }
}

/// How a kill of a session ended: well, or with a process that could not be
/// ended.
pub fn finish_kill(killed: bool) -> (r: Result<(), PtyError>)
    ensures
        r == if killed {
            Ok::<(), PtyError>(())
        } else {
            Err::<(), PtyError>(PtyError::KillFailed)
        },
{
    if killed {
        Ok(())
    } else {
        Err(PtyError::KillFailed)
    }
}

impl<H> PtySessionRegistry<H> {
    /// A registry without sessions.
    pub fn new() -> (r: Self)
        ensures
            r@ == Map::<Seq<char>, H>::empty(),
    {
        PtySessionRegistry { sessions: Registry::new() }
    }

    /// Registers the process of the new session `id`, and hands back the
    /// process of a session that had the identifier before.
    pub fn create(&mut self, id: &str, process: H) -> (r: Option<H>)
        ensures
            final(self)@ == old(self)@.insert(id@, process),
            r == if old(self)@.contains_key(id@) {
                Some(old(self)@[id@])
            } else {
                None
            },
    {
        self.sessions.insert(id, process)
    }

    /// The process of the session `id`, to write to or to ask whether it has
    /// ended.
    pub fn lookup(&self, id: &str) -> (r: Result<&H, PtyError>)
        ensures
            match r {
                Ok(p) => self@.contains_key(id@) && self@[id@] == *p,
                Err(e) => !self@.contains_key(id@) && e == PtyError::NotFound,
            },
    {
        match self.sessions.get(id) {
            Some(p) => Ok(p),
            None => Err(PtyError::NotFound),
        }
    }

    /// Takes the session `id` out and hands its process to the caller, who
    /// ends it.
    pub fn kill(&mut self, id: &str) -> (r: Result<H, PtyError>)
        ensures
            final(self)@ == old(self)@.remove(id@),
            match r {
                Ok(p) => old(self)@.contains_key(id@) && old(self)@[id@] == p,
                Err(e) => !old(self)@.contains_key(id@) && e == PtyError::NotFound,
            },
    {
        match self.sessions.remove(id) {
            Some(p) => Ok(p),
            None => Err(PtyError::NotFound),
        }
    }

    /// The identifiers of the sessions that run.
    pub fn list(&self) -> (r: Vec<String>)
        ensures
            texts(r@).no_duplicates(),
            forall|id: Seq<char>| texts(r@).contains(id) <==> self@.contains_key(id),
    {
        proof {
            self.sessions.lemma_keys();
        }
        self.sessions.list()
    }

    /// One step of the monitor of the session `id`, which has just learnt
    /// `status` of the session's process. Where the session is gone, the
    /// monitor stops and tells nothing. Where the process has exited, the
    /// session is taken out and the user is told once.
    pub fn monitor_step(&mut self, id: &str, status: ProcessStatus) -> (r: MonitorStep<H>)
        ensures
            pty_monitor_next(old(self)@, id@, status, r),
            final(self)@ == if status is Exited {
                old(self)@.remove(id@)
            } else {
                old(self)@
            },
    {
        if !self.sessions.contains_key(id) {
            assert(self@.remove(id@) =~= self@);
            return MonitorStep::Stop;
        }
        match status {
            ProcessStatus::Running => MonitorStep::Wait,
            ProcessStatus::Exited(code) => {
                match self.sessions.remove(id) {
                    Some(process) => {
                        let exit_code: i32 = match code {
                            Some(c) => c,
                            None => -1,
                        };
                        let mut events: Vec<UiEvent> = Vec::new();
                        events.push(UiEvent::PtyExit { id: owned(id), exit_code });
                        assert(event_views(events@) =~= seq![pty_exit_event(id@, code)]);
                        MonitorStep::Finished { process, events }
                    },
                    None => MonitorStep::Stop,
                }
            },
        }
    }
}

} // verus!
