//! How an event reaches the user interface: the channels that it is sent on
//! and the JSON payload that it is sent with.

use crate::events::{stream_word, ToolStatus, UiEvent, UiEventView};
use crate::json::{member_pairs, no_members, object_of, push_member, Json, JsonValue, NumberValue};
use crate::text::{owned, signed_decimal_text, texts};
use vstd::prelude::*;

verus! {

/// The word that stands for a tool status on the wire.
pub open spec fn tool_status_word(status: ToolStatus) -> Seq<char> {
    match status {
        ToolStatus::Running => "running"@,
        ToolStatus::Done => "done"@,
        ToolStatus::Error => "error"@,
    }
}

/// The channels that an event is sent on. Reasoning text goes out on two.
pub open spec fn event_channels(event: UiEventView) -> Seq<Seq<char>> {
    match event {
        UiEventView::ThinkingDelta { .. } => seq!["codex-thinking-delta"@, "codex-thinking"@],
        UiEventView::StreamDelta { .. } => seq!["codex-stream-delta"@],
        UiEventView::StreamToken { .. } => seq!["codex-stream-token"@],
        UiEventView::Progress { .. } => seq!["codex-progress"@],
        UiEventView::TerminalOutput { .. } => seq!["codex-terminal-output"@],
        UiEventView::ToolCall { .. } => seq!["codex-tool-call"@],
        UiEventView::ApprovalRequest { .. } => seq!["codex-approval-request"@],
        UiEventView::StreamEnd { .. } => seq!["codex-stream-end"@],
        UiEventView::StreamError { .. } => seq!["codex-stream-error"@],
        UiEventView::PtyData { .. } => seq!["pty-data"@],
        UiEventView::PtyExit { .. } => seq!["pty-exit"@],
    }
}

/// The JSON number for the integer `n`.
pub open spec fn integer_value(n: int) -> JsonValue {
    JsonValue::Number(NumberValue { text: signed_decimal_text(n), integer: Some(n as i64) })
}

/// The JSON value for an optional exit code: `null` where there is none.
pub open spec fn exit_code_value(code: Option<i32>) -> JsonValue {
    match code {
        Some(c) => integer_value(c as int),
        None => JsonValue::Null,
    }
}

/// The object of a conversation's identifier and a text.
pub open spec fn data_payload(cid: Seq<char>, data: Seq<char>) -> JsonValue {
    JsonValue::Object(seq![("cid"@, JsonValue::Text(cid)), ("data"@, JsonValue::Text(data))])
}

/// The payload that an event is sent with.
pub open spec fn event_payload(event: UiEventView) -> JsonValue {
    match event {
        UiEventView::ThinkingDelta { cid, data } => data_payload(cid, data),
        UiEventView::StreamDelta { cid, data } => data_payload(cid, data),
        UiEventView::StreamToken { cid, data } => data_payload(cid, data),
        UiEventView::Progress { cid, data } => data_payload(cid, data),
        UiEventView::StreamError { cid, data } => data_payload(cid, data),
        UiEventView::TerminalOutput { cid, terminal_id, output, exit_code } => JsonValue::Object(
            seq![
                ("cid"@, JsonValue::Text(cid)),
                ("terminalId"@, JsonValue::Text(terminal_id)),
                ("output"@, JsonValue::Text(output)),
                ("exitCode"@, exit_code_value(exit_code)),
            ],
        ),
        UiEventView::ToolCall { cid, title, status, output } => JsonValue::Object(
            seq![
                ("cid"@, JsonValue::Text(cid)),
                ("title"@, JsonValue::Text(title)),
                ("status"@, JsonValue::Text(tool_status_word(status))),
                ("output"@, JsonValue::Text(output)),
            ],
        ),
        UiEventView::ApprovalRequest { cid, request_id, title, description } => JsonValue::Object(
            seq![
                ("cid"@, JsonValue::Text(cid)),
                ("requestId"@, JsonValue::Text(request_id)),
                ("title"@, JsonValue::Text(title)),
                ("description"@, JsonValue::Text(description)),
            ],
        ),
        UiEventView::StreamEnd { cid, cancelled } => if cancelled {
            JsonValue::Object(
                seq![("cid"@, JsonValue::Text(cid)), ("cancelled"@, JsonValue::Bool(true))],
            )
        } else {
            JsonValue::Object(seq![("cid"@, JsonValue::Text(cid))])
        },
        UiEventView::PtyData { id, stream, data } => JsonValue::Object(
            seq![
                ("id"@, JsonValue::Text(id)),
                ("stream"@, JsonValue::Text(stream_word(stream))),
                ("data"@, JsonValue::Text(data)),
            ],
        ),
        UiEventView::PtyExit { id, exit_code } => JsonValue::Object(
            seq![("id"@, JsonValue::Text(id)), ("exitCode"@, integer_value(exit_code as int))],
        ),
    }
}

/// The one channel `name`.
fn one_channel(name: &str) -> (r: Vec<String>)
    ensures
        texts(r@) == seq![name@],
{
    let mut r: Vec<String> = Vec::new();
    r.push(owned(name));
    assert(texts(r@) =~= seq![name@]);
    r
}

/// The object of a conversation's identifier and a text.
fn data_payload_of(cid: &str, data: &str) -> (r: Json)
    ensures
        r@ == data_payload(cid@, data@),
{
    let mut members = no_members();
    push_member(&mut members, "cid", Json::text(cid));
    push_member(&mut members, "data", Json::text(data));
    assert(member_pairs(members@) =~= seq![
        ("cid"@, JsonValue::Text(cid@)),
        ("data"@, JsonValue::Text(data@)),
    ]);
    object_of(members)
}

/// The JSON value for an optional exit code.
fn exit_code_json(code: Option<i32>) -> (r: Json)
    ensures
        r@ == exit_code_value(code),
{
    match code {
        Some(c) => Json::from_i64(c as i64),
        None => Json::Null,
    }
}

impl ToolStatus {
    /// The word that stands for this status on the wire.
    pub fn word(&self) -> (r: &'static str)
        ensures
            r@ == tool_status_word(*self),
    {
        match self {
            ToolStatus::Running => "running",
            ToolStatus::Done => "done",
            ToolStatus::Error => "error",
        }
    }
}

impl UiEvent {
    /// The channels that this event is sent on.
    pub fn channels(&self) -> (r: Vec<String>)
        ensures
            texts(r@) == event_channels(self@),
    {
        match self {
            UiEvent::ThinkingDelta { .. } => {
                let mut r = one_channel("codex-thinking-delta");
                let ghost first = texts(r@);
                let second = owned("codex-thinking");
                r.push(second);
                assert(texts(r@) =~= first.push(second@));
                assert(first.push(second@) =~= seq!["codex-thinking-delta"@, "codex-thinking"@]);
                r
            },
            UiEvent::StreamDelta { .. } => one_channel("codex-stream-delta"),
            UiEvent::StreamToken { .. } => one_channel("codex-stream-token"),
            UiEvent::Progress { .. } => one_channel("codex-progress"),
            UiEvent::TerminalOutput { .. } => one_channel("codex-terminal-output"),
            UiEvent::ToolCall { .. } => one_channel("codex-tool-call"),
            UiEvent::ApprovalRequest { .. } => one_channel("codex-approval-request"),
            UiEvent::StreamEnd { .. } => one_channel("codex-stream-end"),
            UiEvent::StreamError { .. } => one_channel("codex-stream-error"),
            UiEvent::PtyData { .. } => one_channel("pty-data"),
            UiEvent::PtyExit { .. } => one_channel("pty-exit"),
        }
    }

    /// The payload that this event is sent with.
    pub fn payload(&self) -> (r: Json)
        ensures
            r@ == event_payload(self@),
    {
        match self {
            UiEvent::ThinkingDelta { cid, data } => data_payload_of(cid.as_str(), data.as_str()),
            UiEvent::StreamDelta { cid, data } => data_payload_of(cid.as_str(), data.as_str()),
            UiEvent::StreamToken { cid, data } => data_payload_of(cid.as_str(), data.as_str()),
            UiEvent::Progress { cid, data } => data_payload_of(cid.as_str(), data.as_str()),
            UiEvent::StreamError { cid, data } => data_payload_of(cid.as_str(), data.as_str()),
            UiEvent::TerminalOutput { cid, terminal_id, output, exit_code } => {
                let mut members = no_members();
                push_member(&mut members, "cid", Json::text(cid.as_str()));
                push_member(&mut members, "terminalId", Json::text(terminal_id.as_str()));
                push_member(&mut members, "output", Json::text(output.as_str()));
                push_member(&mut members, "exitCode", exit_code_json(*exit_code));
                assert(member_pairs(members@) =~= seq![
                    ("cid"@, JsonValue::Text(cid@)),
                    ("terminalId"@, JsonValue::Text(terminal_id@)),
                    ("output"@, JsonValue::Text(output@)),
                    ("exitCode"@, exit_code_value(*exit_code)),
                ]);
                object_of(members)
            },
            UiEvent::ToolCall { cid, title, status, output } => {
                let mut members = no_members();
                push_member(&mut members, "cid", Json::text(cid.as_str()));
                push_member(&mut members, "title", Json::text(title.as_str()));
                push_member(&mut members, "status", Json::text(status.word()));
                push_member(&mut members, "output", Json::text(output.as_str()));
                assert(member_pairs(members@) =~= seq![
                    ("cid"@, JsonValue::Text(cid@)),
                    ("title"@, JsonValue::Text(title@)),
                    ("status"@, JsonValue::Text(tool_status_word(*status))),
                    ("output"@, JsonValue::Text(output@)),
                ]);
                object_of(members)
            },
            UiEvent::ApprovalRequest { cid, request_id, title, description } => {
                let mut members = no_members();
                push_member(&mut members, "cid", Json::text(cid.as_str()));
                push_member(&mut members, "requestId", Json::text(request_id.as_str()));
                push_member(&mut members, "title", Json::text(title.as_str()));
                push_member(&mut members, "description", Json::text(description.as_str()));
                assert(member_pairs(members@) =~= seq![
                    ("cid"@, JsonValue::Text(cid@)),
                    ("requestId"@, JsonValue::Text(request_id@)),
                    ("title"@, JsonValue::Text(title@)),
                    ("description"@, JsonValue::Text(description@)),
                ]);
                object_of(members)
            },
            UiEvent::StreamEnd { cid, cancelled } => {
                let mut members = no_members();
                push_member(&mut members, "cid", Json::text(cid.as_str()));
                if *cancelled {
                    push_member(&mut members, "cancelled", Json::Bool(true));
                    assert(member_pairs(members@) =~= seq![
                        ("cid"@, JsonValue::Text(cid@)),
                        ("cancelled"@, JsonValue::Bool(true)),
                    ]);
                } else {
                    assert(member_pairs(members@) =~= seq![("cid"@, JsonValue::Text(cid@))]);
                }
                object_of(members)
            },
            UiEvent::PtyData { id, stream, data } => {
                let mut members = no_members();
                push_member(&mut members, "id", Json::text(id.as_str()));
                push_member(&mut members, "stream", Json::text(stream.word()));
                push_member(&mut members, "data", Json::text(data.as_str()));
                assert(member_pairs(members@) =~= seq![
                    ("id"@, JsonValue::Text(id@)),
                    ("stream"@, JsonValue::Text(stream_word(*stream))),
                    ("data"@, JsonValue::Text(data@)),
                ]);
                object_of(members)
            },
            UiEvent::PtyExit { id, exit_code } => {
                let mut members = no_members();
                push_member(&mut members, "id", Json::text(id.as_str()));
                push_member(&mut members, "exitCode", Json::from_i64(*exit_code as i64));
                assert(member_pairs(members@) =~= seq![
                    ("id"@, JsonValue::Text(id@)),
                    ("exitCode"@, integer_value(*exit_code as int)),
                ]);
                object_of(members)
            },
        }
    }
}

} // verus!
