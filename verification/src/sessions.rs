//! The agent processes that run, one per conversation, the approvals that
//! they wait for, and what follows from a launch, a cancellation, an answer
//! to an approval and the end of a process.

use crate::events::{event_views, UiEvent, UiEventView};
use crate::json::{compact_json_text, encode, needs_no_escape, quoted, Json, JsonValue};
use crate::models::PendingApproval;
use crate::registry::Registry;
use crate::text::{owned, push_signed_decimal, push_text, signed_decimal_text};
use vstd::prelude::*;

verus! {

/// A running agent process, as the caller holds it, and whether its input
/// stream can be written to.
pub struct ProcessSlot<H> {
    pub process: H,
    pub has_input: bool,
}

/// The agent processes that run, by conversation. A conversation has at most
/// one.
pub struct ConversationProcessRegistry<H> {
    running: Registry<ProcessSlot<H>>,
}

impl<H> View for ConversationProcessRegistry<H> {
    type V = Map<Seq<char>, ProcessSlot<H>>;

    closed spec fn view(&self) -> Map<Seq<char>, ProcessSlot<H>> {
        self.running@
    }
}

/// The process that a conversation has in `processes`, if it has one.
pub open spec fn process_of<H>(processes: Map<Seq<char>, ProcessSlot<H>>, cid: Seq<char>) -> Option<
    H,
> {
    if processes.contains_key(cid) {
        Some(processes[cid].process)
    } else {
        None
    }
}

impl<H> ConversationProcessRegistry<H> {
    /// A registry in which nothing runs.
    pub fn new() -> (r: Self)
        ensures
            r@ == Map::<Seq<char>, ProcessSlot<H>>::empty(),
    {
        ConversationProcessRegistry { running: Registry::new() }
    }

    /// Whether the conversation `cid` has a process.
    pub fn is_running(&self, cid: &str) -> (r: bool)
        ensures
            r == self@.contains_key(cid@),
    {
        self.running.contains_key(cid)
    }

    /// Takes the process of the conversation `cid` out, so that the caller
    /// can end it.
    pub fn remove(&mut self, cid: &str) -> (r: Option<H>)
        ensures
            final(self)@ == old(self)@.remove(cid@),
            r == process_of(old(self)@, cid@),
    {
        match self.running.remove(cid) {
            Some(slot) => Some(slot.process),
            None => None,
        }
    }

    /// Installs `process` as the process of the conversation `cid`, and hands
    /// back the one that it displaces, so that the caller can end it.
    pub fn install(&mut self, cid: &str, process: H, has_input: bool) -> (r: Option<H>)
        ensures
            final(self)@ == old(self)@.insert(cid@, ProcessSlot { process, has_input }),
            r == process_of(old(self)@, cid@),
    {
        match self.running.insert(cid, ProcessSlot { process, has_input }) {
            Some(slot) => Some(slot.process),
            None => None,
        }
    }

    /// The process of the conversation `cid`, for the monitor to ask whether
    /// it has ended.
    pub fn take_for_monitor(&self, cid: &str) -> (r: Option<&H>)
        ensures
            match r {
                Some(p) => process_of(self@, cid@) == Some(*p),
                None => !self@.contains_key(cid@),
            },
    {
        match self.running.get(cid) {
            Some(slot) => Some(&slot.process),
            None => None,
        }
    }

    /// The process of the conversation `cid` whose input stream takes an
    /// answer, or why there is none.
    pub fn lookup_input(&self, cid: &str) -> (r: Result<&H, ApprovalError>)
        ensures
            match r {
                Ok(p) => self@.contains_key(cid@) && self@[cid@].has_input && self@[cid@].process
                    == *p,
                Err(e) => e == input_refusal(self@, cid@) && e != ApprovalError::NotFound,
            },
            r is Ok <==> self@.contains_key(cid@) && self@[cid@].has_input,
    {
        match self.running.get(cid) {
            Some(slot) => {
                if slot.has_input {
                    Ok(&slot.process)
                } else {
                    Err(ApprovalError::StdinUnavailable)
                }
            },
            None => Err(ApprovalError::ProcessNotRunning),
        }
    }
}

/// Why an answer to an approval request did not reach the agent.
#[derive(Debug, Clone, Copy, PartialEq, Eq, Structural)]
pub enum ApprovalError {
    /// No such request is pending: it was answered, or it has expired.
    NotFound,
    /// The conversation that asked has no process any more.
    ProcessNotRunning,
    /// The process takes no input.
    StdinUnavailable,
    /// Writing to the process failed.
    IoFailure,
}

/// Why the conversation `cid` cannot be written to, where it cannot.
pub open spec fn input_refusal<H>(processes: Map<Seq<char>, ProcessSlot<H>>, cid: Seq<char>) -> ApprovalError {
    if !processes.contains_key(cid) {
        ApprovalError::ProcessNotRunning
    } else {
        ApprovalError::StdinUnavailable
    }
}

/// The approvals that agents wait for: for each request, the conversation
/// that asked.
pub struct ApprovalBroker {
    pending: Registry<String>,
}

impl View for ApprovalBroker {
    type V = Map<Seq<char>, Seq<char>>;

    closed spec fn view(&self) -> Map<Seq<char>, Seq<char>> {
        self.pending@.map_values(|cid: String| cid@)
    }
}

/// The approvals `approvals` without those of the conversation `cid`.
pub open spec fn without_conversation(approvals: Map<Seq<char>, Seq<char>>, cid: Seq<char>) -> Map<
    Seq<char>,
    Seq<char>,
> {
    Map::new(
        |request: Seq<char>| approvals.contains_key(request) && approvals[request] != cid,
        |request: Seq<char>| approvals[request],
    )
}

/// The view of an optional string.
pub open spec fn opt_string_view(s: Option<String>) -> Option<Seq<char>> {
    match s {
        Some(s) => Some(s@),
        None => None,
    }
}

/// The conversation that waits for the request `request_id`, if one does.
pub open spec fn asking_conversation(approvals: Map<Seq<char>, Seq<char>>, request_id: Seq<char>) -> Option<
    Seq<char>,
> {
    if approvals.contains_key(request_id) {
        Some(approvals[request_id])
    } else {
        None
    }
}

impl ApprovalBroker {
    /// A broker with no approval pending.
    pub fn new() -> (r: Self)
        ensures
            r@ == Map::<Seq<char>, Seq<char>>::empty(),
    {
        let r = ApprovalBroker { pending: Registry::new() };
        assert(r@ =~= Map::<Seq<char>, Seq<char>>::empty());
        r
    }

    /// Records that the conversation `conversation_id` waits for an answer to
    /// the request `request_id`.
    pub fn register(&mut self, request_id: &str, conversation_id: &str)
        ensures
            final(self)@ == old(self)@.insert(request_id@, conversation_id@),
    {
        self.pending.insert(request_id, owned(conversation_id));
        assert(self@ =~= old(self)@.insert(request_id@, conversation_id@));
    }

    /// Takes the request `request_id` out and names the conversation that
    /// asked.
    pub fn take(&mut self, request_id: &str) -> (r: Option<String>)
        ensures
            final(self)@ == old(self)@.remove(request_id@),
            opt_string_view(r) == asking_conversation(old(self)@, request_id@),
    {
        let r = self.pending.remove(request_id);
        assert(self@ =~= old(self)@.remove(request_id@));
        r
    }

    /// Forgets every request of the conversation `conversation_id`.
    pub fn purge(&mut self, conversation_id: &str)
        ensures
            final(self)@ == without_conversation(old(self)@, conversation_id@),
    {
        self.pending.remove_value(conversation_id);
        assert(self@ =~= without_conversation(old(self)@, conversation_id@));
    }

    /// The pending approval for the request `request_id`, if there is one.
    pub fn pending(&self, request_id: &str) -> (r: Option<PendingApproval>)
        ensures
            match r {
                Some(p) => asking_conversation(self@, request_id@) == Some(p.conversation_id@),
                None => !self@.contains_key(request_id@),
            },
    {
        match self.pending.get(request_id) {
            Some(cid) => Some(PendingApproval { conversation_id: cid.clone() }),
            None => None,
        }
    }

    /// The requests that are pending.
    pub fn requests(&self) -> (r: Vec<String>)
        ensures
            crate::text::texts(r@).no_duplicates(),
            forall|request: Seq<char>|
                crate::text::texts(r@).contains(request) <==> self@.contains_key(request),
    {
        proof {
            self.pending.lemma_keys();
        }
        self.pending.list()
    }
}

/// What to write to a process to answer an approval request.
#[derive(Debug, Clone, PartialEq, Eq)]
pub struct ApprovalWrite {
    /// The conversation whose process is written to.
    pub conversation_id: String,
    /// The line to write, with its line end.
    pub line: String,
}

/// The mathematical value of an [`ApprovalWrite`].
pub struct ApprovalWriteView {
    pub conversation_id: Seq<char>,
    pub line: Seq<char>,
}

impl View for ApprovalWrite {
    type V = ApprovalWriteView;

    open spec fn view(&self) -> ApprovalWriteView {
        ApprovalWriteView { conversation_id: self.conversation_id@, line: self.line@ }
    }
}

/// The line that carries a decision on the request whose identifier, as a
/// JSON string, is `quoted_id`: the object of identifier and decision, and a
/// line end.
pub open spec fn framed_line(quoted_id: Seq<char>, approved: bool) -> Seq<char> {
    "{\"request_id\":"@ + quoted_id + ",\"approved\":"@ + (if approved {
        "true"@
    } else {
        "false"@
    }) + "}\n"@
}

/// The line that answers the request `request_id`: a JSON object of the
/// request's identifier and the decision, and a line end.
pub open spec fn approval_line(request_id: Seq<char>, approved: bool) -> Seq<char> {
    framed_line(compact_json_text(JsonValue::Text(request_id)), approved)
}

/// What an answer to the request `request_id` leads to: the write that
/// carries it, or why there is none.
pub open spec fn approval_outcome<H>(
    processes: Map<Seq<char>, ProcessSlot<H>>,
    approvals: Map<Seq<char>, Seq<char>>,
    request_id: Seq<char>,
    approved: bool,
) -> Result<ApprovalWriteView, ApprovalError> {
    if !approvals.contains_key(request_id) {
        Err(ApprovalError::NotFound)
    } else if !processes.contains_key(approvals[request_id]) {
        Err(ApprovalError::ProcessNotRunning)
    } else if !processes[approvals[request_id]].has_input {
        Err(ApprovalError::StdinUnavailable)
    } else {
        Ok(
            ApprovalWriteView {
                conversation_id: approvals[request_id],
                line: approval_line(request_id, approved),
            },
        )
    }
}

/// The view of what an answer leads to.
pub open spec fn outcome_view(r: Result<ApprovalWrite, ApprovalError>) -> Result<
    ApprovalWriteView,
    ApprovalError,
> {
    match r {
        Ok(w) => Ok(w@),
        Err(e) => Err(e),
    }
}

/// The line that carries the decision `approved` on the request whose
/// identifier, as a JSON string, is `quoted_id`.
pub fn frame_approval_line(quoted_id: &str, approved: bool) -> (r: String)
    ensures
        r@ == framed_line(quoted_id@, approved),
{
    let mut r = owned("{\"request_id\":");
    push_text(&mut r, quoted_id);
    push_text(&mut r, ",\"approved\":");
    if approved {
        push_text(&mut r, "true");
    } else {
        push_text(&mut r, "false");
    }
    push_text(&mut r, "}\n");
    r
}

/// The line that answers the request `request_id`. An identifier that holds
/// nothing that JSON escapes stands in it as it is, between double quotes.
pub fn approval_response_line(request_id: &str, approved: bool) -> (r: String)
    ensures
        r@ == approval_line(request_id@, approved),
        needs_no_escape(request_id@) ==> r@ == framed_line(quoted(request_id@), approved),
{
    let id = encode(&Json::text(request_id));
    frame_approval_line(id.as_str(), approved)
}

/// What the user reads where an answer did not reach the agent; for a
/// failed write, what the system said of it.
pub open spec fn refusal_text(error: ApprovalError, detail: Seq<char>) -> Seq<char> {
    match error {
        ApprovalError::NotFound => "Approval request not found"@,
        ApprovalError::ProcessNotRunning => "Conversation process not running"@,
        ApprovalError::StdinUnavailable => "Process stdin is not available"@,
        ApprovalError::IoFailure => detail,
    }
}

impl ApprovalError {
    /// What the user reads of this error; `detail` is what the system said of
    /// a failed write.
    pub fn message(&self, detail: &str) -> (r: String)
        ensures
            r@ == refusal_text(*self, detail@),
    {
        match self {
            ApprovalError::NotFound => owned("Approval request not found"),
            ApprovalError::ProcessNotRunning => owned("Conversation process not running"),
            ApprovalError::StdinUnavailable => owned("Process stdin is not available"),
            ApprovalError::IoFailure => owned(detail),
        }
    }
}

/// How an answer ended once its line was handed to the process: well, or
/// with a failed write.
pub fn finish_approval(write_failed: bool) -> (r: Result<(), ApprovalError>)
    ensures
        r == if write_failed {
            Err::<(), ApprovalError>(ApprovalError::IoFailure)
        } else {
            Ok::<(), ApprovalError>(())
        },
{
    if write_failed {
        Err(ApprovalError::IoFailure)
    } else {
        Ok(())
    }
}

/// What the monitor of a process learns when it asks whether the process has
/// ended.
#[derive(Debug, Clone, Copy, PartialEq, Eq, Structural)]
pub enum ProcessStatus {
    /// It has not, or the question failed.
    Running,
    /// It has, with this exit code if it has one.
    Exited(Option<i32>),
}

/// What the monitor of a process does next.
pub enum MonitorStep<H> {
    /// Nothing more: the process is no longer registered, and whoever took it
    /// out tells the user.
    Stop,
    /// Wait for the polling interval and ask again.
    Wait,
    /// Tell the user that the process has ended, and stop. The process has
    /// been taken out of the registry.
    Finished { process: H, events: Vec<UiEvent> },
}

/// The milliseconds between two polls of an agent process.
pub const AGENT_POLL_MILLIS: u64 = 100;

/// The exit code that stands for a process: its own, or -1 where it has none.
pub open spec fn exit_code_or_unknown(code: Option<i32>) -> i32 {
    match code {
        Some(c) => c,
        None => -1i32,
    }
}

/// The event that ends a conversation's stream when its process has exited:
/// the end of the stream for exit code zero, else an error that names the
/// code.
pub open spec fn exit_event(cid: Seq<char>, code: Option<i32>) -> UiEventView {
    if exit_code_or_unknown(code) == 0 {
        UiEventView::StreamEnd { cid, cancelled: false }
    } else {
        UiEventView::StreamError {
            cid,
            data: "Codex exited with code "@ + signed_decimal_text(exit_code_or_unknown(code) as int),
        }
    }
}

/// The event that ends the stream of the conversation `cid` whose process has
/// exited with `code`.
pub fn exit_event_of(cid: &str, code: Option<i32>) -> (r: UiEvent)
    ensures
        r@ == exit_event(cid@, code),
{
    let exit_code: i32 = match code {
        Some(c) => c,
        None => -1,
    };
    if exit_code == 0 {
        UiEvent::StreamEnd { cid: owned(cid), cancelled: false }
    } else {
        let mut data = owned("Codex exited with code ");
        push_signed_decimal(&mut data, exit_code as i64);
        UiEvent::StreamError { cid: owned(cid), data }
    }
}

/// What a cancellation gives: the process to end, if the conversation had
/// one, and what to tell the user.
pub struct CancelOutcome<H> {
    pub process: Option<H>,
    pub events: Vec<UiEvent>,
}

/// What the user is told of a cancellation: that the stream has ended, if
/// there was a process to cancel.
pub open spec fn cancel_events(cid: Seq<char>, had_process: bool) -> Seq<UiEventView> {
    if had_process {
        seq![UiEventView::StreamEnd { cid, cancelled: true }]
    } else {
        Seq::empty()
    }
}

/// A process could not be started: what the system said of it.
#[derive(Debug, Clone, PartialEq, Eq)]
pub struct SpawnFailure {
    pub message: String,
}

/// The processes that run and the approvals that are pending.
pub struct SessionStore<H> {
    pub registry: ConversationProcessRegistry<H>,
    pub broker: ApprovalBroker,
}

/// Whether `step` is what the monitor of the conversation `cid` does next,
/// having learnt `status`: it stops where the conversation has no process,
/// waits where the process runs, and else hands out the process and the one
/// event that tells of its end.
pub open spec fn monitor_next<H>(
    processes: Map<Seq<char>, ProcessSlot<H>>,
    cid: Seq<char>,
    status: ProcessStatus,
    step: MonitorStep<H>,
) -> bool {
    if !processes.contains_key(cid) {
        step is Stop
    } else {
        match status {
            ProcessStatus::Running => step is Wait,
            ProcessStatus::Exited(code) => step is Finished && step->process
                == processes[cid].process && event_views(step->events@) == seq![
                exit_event(cid, code),
            ],
        }
    }
}

impl<H> SessionStore<H> {
    /// A store in which nothing runs and nothing is pending.
    pub fn new() -> (r: Self)
        ensures
            r.registry@ == Map::<Seq<char>, ProcessSlot<H>>::empty(),
            r.broker@ == Map::<Seq<char>, Seq<char>>::empty(),
    {
        SessionStore { registry: ConversationProcessRegistry::new(), broker: ApprovalBroker::new() }
    }

    /// The first half of a launch for the conversation `cid`: takes the
    /// process that the conversation has out, so that the caller can end it
    /// before it starts the new one, and forgets the conversation's pending
    /// approvals.
    pub fn begin_launch(&mut self, cid: &str) -> (r: Option<H>)
        ensures
            final(self).registry@ == old(self).registry@.remove(cid@),
            final(self).broker@ == without_conversation(old(self).broker@, cid@),
            r == process_of(old(self).registry@, cid@),
    {
        let r = self.registry.remove(cid);
        self.broker.purge(cid);
        r
    }

    /// The second half of a launch: installs the process that was started
    /// for the conversation `cid`, and hands back the one that it displaces,
    /// so that the caller can end it.
    pub fn complete_launch(&mut self, cid: &str, process: H, has_input: bool) -> (r: Option<H>)
        ensures
            final(self).registry@ == old(self).registry@.insert(
                cid@,
                ProcessSlot { process, has_input },
            ),
            final(self).broker@ == old(self).broker@,
            r == process_of(old(self).registry@, cid@),
    {
        self.registry.install(cid, process, has_input)
    }

    /// The second half of a launch, for whatever came of starting the new
    /// process. A process that was started is installed, and the launch has
    /// succeeded: the conversation then has a process. A process that could
    /// not be started leaves the conversation without one, and the launch
    /// fails with what the system said.
    pub fn finish_launch(&mut self, cid: &str, started: Result<ProcessSlot<H>, String>) -> (r: Result<
        Option<H>,
        SpawnFailure,
    >)
        ensures
            final(self).broker@ == old(self).broker@,
            match started {
                Ok(slot) => r == Ok::<Option<H>, SpawnFailure>(process_of(old(self).registry@, cid@))
                    && final(self).registry@ == old(self).registry@.insert(cid@, slot),
                Err(message) => r is Err && r->Err_0.message@ == message@ && final(self).registry@
                    == old(self).registry@,
            },
            r is Ok ==> final(self).registry@.contains_key(cid@),
    {
        match started {
            Ok(slot) => Ok(self.registry.install(cid, slot.process, slot.has_input)),
            Err(message) => Err(SpawnFailure { message }),
        }
    }

    /// Cancels the conversation `cid`: takes its process out, so that the
    /// caller can end it, and forgets its pending approvals.
    pub fn cancel(&mut self, cid: &str) -> (r: CancelOutcome<H>)
        ensures
            final(self).registry@ == old(self).registry@.remove(cid@),
            final(self).broker@ == without_conversation(old(self).broker@, cid@),
            r.process == process_of(old(self).registry@, cid@),
            event_views(r.events@) == cancel_events(cid@, old(self).registry@.contains_key(cid@)),
    {
        let process = self.registry.remove(cid);
        self.broker.purge(cid);
        let mut events: Vec<UiEvent> = Vec::new();
        if process.is_some() {
            events.push(UiEvent::StreamEnd { cid: owned(cid), cancelled: true });
        }
        assert(event_views(events@) =~= cancel_events(
            cid@,
            old(self).registry@.contains_key(cid@),
        ));
        CancelOutcome { process, events }
    }

    /// Records that the conversation `cid` waits for an answer to the request
    /// `request_id`.
    pub fn register_approval(&mut self, request_id: &str, cid: &str)
        ensures
            final(self).registry@ == old(self).registry@,
            final(self).broker@ == old(self).broker@.insert(request_id@, cid@),
    {
        self.broker.register(request_id, cid);
    }

    /// Answers the request `request_id`. The request is pending no more. The
    /// answer succeeds exactly where the request was pending and the
    /// conversation that asked has a process that takes input: the result
    /// then says what to write to it.
    pub fn respond_to_approval(&mut self, request_id: &str, approved: bool) -> (r: Result<
        ApprovalWrite,
        ApprovalError,
    >)
        ensures
            outcome_view(r) == approval_outcome(
                old(self).registry@,
                old(self).broker@,
                request_id@,
                approved,
            ),
            final(self).registry@ == old(self).registry@,
            final(self).broker@ == old(self).broker@.remove(request_id@),
            r matches Ok(answer) ==> (needs_no_escape(request_id@) ==> answer.line@ == framed_line(
                quoted(request_id@),
                approved,
            )),
    {
        let cid = match self.broker.take(request_id) {
            Some(cid) => cid,
            None => {
                return Err(ApprovalError::NotFound);
            },
        };
        match self.registry.lookup_input(cid.as_str()) {
            Ok(_) => Ok(
                ApprovalWrite {
                    conversation_id: cid,
                    line: approval_response_line(request_id, approved),
                },
            ),
            Err(e) => Err(e),
        }
    }

    /// One step of the monitor of the conversation `cid`, which has just
    /// learnt `status` of the conversation's process. Where the conversation
    /// has no process any more, the monitor stops and tells nothing. Where
    /// the process has exited, it is taken out, the conversation's pending
    /// approvals are forgotten, and the user is told once.
    pub fn monitor_step(&mut self, cid: &str, status: ProcessStatus) -> (r: MonitorStep<H>)
        ensures
            monitor_next(old(self).registry@, cid@, status, r),
            final(self).registry@ == if status is Exited {
                old(self).registry@.remove(cid@)
            } else {
                old(self).registry@
            },
            final(self).broker@ == if status is Exited && old(self).registry@.contains_key(cid@) {
                without_conversation(old(self).broker@, cid@)
            } else {
                old(self).broker@
            },
    {
        if !self.registry.is_running(cid) {
            assert(self.registry@.remove(cid@) =~= self.registry@);
            return MonitorStep::Stop;
        }
        match status {
            ProcessStatus::Running => MonitorStep::Wait,
            ProcessStatus::Exited(code) => {
                match self.registry.remove(cid) {
                    Some(process) => {

                        self.broker.purge(cid);
                        let mut events: Vec<UiEvent> = Vec::new();
                        events.push(exit_event_of(cid, code));
                        assert(event_views(events@) =~= seq![exit_event(cid@, code)]);
                        MonitorStep::Finished { process, events }
                    },
                    None => MonitorStep::Stop,
                }
            },
        }
    }
}

/// After a launch for a conversation its process is registered: a
/// cancellation that follows finds it, ends the stream, and leaves the
/// conversation without a process.
pub proof fn lemma_launch_then_cancel<H>(
    processes: Map<Seq<char>, ProcessSlot<H>>,
    cid: Seq<char>,
    slot: ProcessSlot<H>,
)
    ensures
        ({
            let launched = processes.remove(cid).insert(cid, slot);
            &&& launched.contains_key(cid)
            &&& process_of(launched, cid) == Some(slot.process)
            &&& cancel_events(cid, launched.contains_key(cid)) == seq![
                UiEventView::StreamEnd { cid, cancelled: true },
            ]
            &&& !launched.remove(cid).contains_key(cid)
        }),
{
}

/// Two launches for one conversation leave it with exactly one process, the
/// second; the first is handed to the caller of the second launch to be
/// ended, and no other conversation's process is touched.
pub proof fn lemma_launch_twice<H>(
    processes: Map<Seq<char>, ProcessSlot<H>>,
    cid: Seq<char>,
    first: ProcessSlot<H>,
    second: ProcessSlot<H>,
)
    ensures
        ({
            let once = processes.remove(cid).insert(cid, first);
            let twice = once.remove(cid).insert(cid, second);
            &&& process_of(once, cid) == Some(first.process)
            &&& process_of(once.remove(cid), cid) == None::<H>
            &&& twice.contains_key(cid)
            &&& twice[cid] == second
            &&& forall|other: Seq<char>|
                other != cid ==> twice.contains_key(other) == processes.contains_key(other) && (
                processes.contains_key(other) ==> twice[other] == processes[other])
        }),
{
}

/// An answer to a request that is not pending is refused as not found:
/// nothing is written, and nothing changes.
pub proof fn lemma_unknown_request<H>(
    processes: Map<Seq<char>, ProcessSlot<H>>,
    approvals: Map<Seq<char>, Seq<char>>,
    request_id: Seq<char>,
    approved: bool,
)
    requires
        !approvals.contains_key(request_id),
    ensures
        approval_outcome(processes, approvals, request_id, approved) == Err::<
            ApprovalWriteView,
            ApprovalError,
        >(ApprovalError::NotFound),
        approvals.remove(request_id) == approvals,
{
    assert(approvals.remove(request_id) =~= approvals);
}

/// An answer to a pending request succeeds if and only if the conversation
/// that asked still has a process and that process takes input. Once the
/// process has been taken out of the registry, the answer is refused because
/// the process is not running.
pub proof fn lemma_answer_needs_process<H>(
    processes: Map<Seq<char>, ProcessSlot<H>>,
    approvals: Map<Seq<char>, Seq<char>>,
    request_id: Seq<char>,
    approved: bool,
)
    requires
        approvals.contains_key(request_id),
    ensures
        approval_outcome(processes, approvals, request_id, approved) is Ok
            <==> processes.contains_key(approvals[request_id])
            && processes[approvals[request_id]].has_input,
        approval_outcome(processes, approvals, request_id, approved) is Ok ==> approval_outcome(
            processes,
            approvals,
            request_id,
            approved,
        )->Ok_0 == (ApprovalWriteView {
            conversation_id: approvals[request_id],
            line: approval_line(request_id, approved),
        }),
        approval_outcome(processes.remove(approvals[request_id]), approvals, request_id, approved)
            == Err::<ApprovalWriteView, ApprovalError>(ApprovalError::ProcessNotRunning),
{
}

/// Forgetting the approvals of a conversation removes exactly the requests
/// of that conversation: every request of another conversation stays, with
/// the conversation that asked.
pub proof fn lemma_purge_exact(
    approvals: Map<Seq<char>, Seq<char>>,
    cid: Seq<char>,
    request: Seq<char>,
)
    ensures
        without_conversation(approvals, cid).contains_key(request) <==> approvals.contains_key(
            request,
        ) && approvals[request] != cid,
        without_conversation(approvals, cid).contains_key(request) ==> without_conversation(
            approvals,
            cid,
        )[request] == approvals[request],
{
}

/// The end of a process is told once: after the step that finds a process
/// exited, the conversation has none, and on whatever a later step learns,
/// the monitor stops without a word.
pub proof fn lemma_exit_is_told_once<H>(
    processes: Map<Seq<char>, ProcessSlot<H>>,
    cid: Seq<char>,
    later: ProcessStatus,
    step: MonitorStep<H>,
)
    requires
        monitor_next(processes.remove(cid), cid, later, step),
    ensures
        step is Stop,
{
}

} // verus!
