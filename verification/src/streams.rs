//! What the lines and chunks that a process writes become for the user
//! interface.

use crate::events::{
    approval_request, approval_view, event_views, parse_codex_event, parsed_cache, parsed_events,
    ApprovalRequestView, OutputStream, ParseOutcome, StreamParseCache, UiEvent, UiEventView,
};
use crate::json::{decode, decoded_json};
use crate::sessions::SessionStore;
use crate::text::{lossy_string, owned, utf8_lossy_text};
use crate::utils::{clean_progress_text, clean_text};
use vstd::prelude::*;

verus! {

/// The events of one line of an agent's output: those of the protocol event
/// where the line is one, and else the line as it came, blank or not.
pub open spec fn stdout_line_events(
    cid: Seq<char>,
    line: Seq<char>,
    cache: Map<Seq<char>, Seq<char>>,
) -> Seq<UiEventView> {
    match decoded_json(line) {
        Some(event) => parsed_events(cid, event, cache),
        None => seq![UiEventView::StreamToken { cid, data: line }],
    }
}

/// The approval request that one line of an agent's output makes.
pub open spec fn stdout_line_approval(line: Seq<char>) -> Option<ApprovalRequestView> {
    match decoded_json(line) {
        Some(event) => approval_request(event),
        None => None,
    }
}

/// The cache after one line of an agent's output.
pub open spec fn stdout_line_cache(line: Seq<char>, cache: Map<Seq<char>, Seq<char>>) -> Map<
    Seq<char>,
    Seq<char>,
> {
    match decoded_json(line) {
        Some(event) => parsed_cache(event, cache),
        None => cache,
    }
}

/// Turns one line of the output of the conversation `cid`'s agent into
/// events. A line that is no JSON is never dropped: it is handed on as it
/// came.
pub fn parse_stdout_line(cid: &str, line: &str, cache: &mut StreamParseCache) -> (r: ParseOutcome)
    ensures
        event_views(r.events@) == stdout_line_events(cid@, line@, old(cache)@),
        approval_view(r.approval) == stdout_line_approval(line@),
        final(cache)@ == stdout_line_cache(line@, old(cache)@),
{
    match decode(line) {
        Some(event) => parse_codex_event(cid, &event, cache),
        None => {
            let mut events: Vec<UiEvent> = Vec::new();
            events.push(UiEvent::StreamToken { cid: owned(cid), data: owned(line) });
            assert(event_views(events@) =~= seq![
                UiEventView::StreamToken { cid: cid@, data: line@ },
            ]);
            ParseOutcome { events, approval: None }
        },
    }
}

/// The events of one line of an agent's error stream: its cleaned text as
/// progress, if any text is left.
pub open spec fn stderr_line_events(cid: Seq<char>, line: Seq<char>) -> Seq<UiEventView> {
    if clean_text(line).len() > 0 {
        seq![UiEventView::Progress { cid, data: clean_text(line) }]
    } else {
        Seq::empty()
    }
}

/// Turns one line of the error stream of the conversation `cid`'s agent into
/// events.
pub fn parse_stderr_line(cid: &str, line: &str) -> (r: Vec<UiEvent>)
    ensures
        event_views(r@) == stderr_line_events(cid@, line@),
{
    let cleaned = clean_progress_text(line);
    let mut events: Vec<UiEvent> = Vec::new();
    if !cleaned.as_str().is_empty() {
        events.push(UiEvent::Progress { cid: owned(cid), data: cleaned });
    }
    assert(event_views(events@) =~= stderr_line_events(cid@, line@));
    events
}

/// The event of one chunk that a terminal session has written to the stream
/// `stream`: its text with the session and the stream that it came from, or
/// nothing for the empty chunk that ends the stream.
pub open spec fn pty_chunk_events(id: Seq<char>, stream: OutputStream, chunk: Seq<u8>) -> Seq<
    UiEventView,
> {
    if chunk.len() == 0 {
        Seq::empty()
    } else {
        seq![UiEventView::PtyData { id, stream, data: utf8_lossy_text(chunk) }]
    }
}

/// Turns one chunk that the terminal session `id` has written to the stream
/// `stream` into events. The empty chunk, which ends the stream, gives none.
pub fn parse_pty_chunk(id: &str, stream: OutputStream, chunk: &[u8]) -> (r: Vec<UiEvent>)
    ensures
        event_views(r@) == pty_chunk_events(id@, stream, chunk@),
{
    let mut events: Vec<UiEvent> = Vec::new();
    if chunk.len() > 0 {
        events.push(UiEvent::PtyData { id: owned(id), stream, data: lossy_string(chunk) });
    }
    assert(event_views(events@) =~= pty_chunk_events(id@, stream, chunk@));
    events
}

impl<H> SessionStore<H> {
    /// Takes one line of the output of the conversation `cid`'s agent:
    /// turns it into events and records the approval that it asks for, if
    /// any, as pending.
    pub fn handle_stdout_line(&mut self, cid: &str, line: &str, cache: &mut StreamParseCache) -> (r:
        Vec<UiEvent>)
        ensures
            event_views(r@) == stdout_line_events(cid@, line@, old(cache)@),
            final(cache)@ == stdout_line_cache(line@, old(cache)@),
            final(self).registry@ == old(self).registry@,
            final(self).broker@ == match stdout_line_approval(line@) {
                Some(a) => old(self).broker@.insert(a.request_id, cid@),
                None => old(self).broker@,
            },
    {
        let outcome = parse_stdout_line(cid, line, cache);
        match &outcome.approval {
            Some(a) => {
                self.broker.register(a.request_id.as_str(), cid);
            },
            None => {},
        }
        outcome.events
    }
}

} // verus!
