//! The agent's protocol events, and what each one becomes for the user
//! interface.

use crate::json::{
    display_of, display_text, get_or, member_or, show_opt, str_of_or, text_of_or,
    value_as_object_text, Json, JsonValue,
};
use crate::text::{
    ascii_lower, chars_of, contains, contains_text, has_prefix, lemma_empty_text, lowercase_ascii,
    owned, push_text, starts_with, text_of_range,
};
use vstd::hash_map::StringHashMap;
use vstd::prelude::*;

verus! {

/// How far a tool call has come.
#[derive(Debug, Clone, Copy, PartialEq, Eq)]
pub enum ToolStatus {
    Running,
    Done,
    Error,
}

/// The stream of a process that a piece of its output came from.
#[derive(Debug, Clone, Copy, PartialEq, Eq, Structural)]
pub enum OutputStream {
    Stdout,
    Stderr,
}

/// The word that stands for a stream on the wire.
pub open spec fn stream_word(stream: OutputStream) -> Seq<char> {
    match stream {
        OutputStream::Stdout => "stdout"@,
        OutputStream::Stderr => "stderr"@,
    }
}

impl OutputStream {
    /// The word that stands for this stream on the wire.
    pub fn word(&self) -> (r: &'static str)
        ensures
            r@ == stream_word(*self),
    {
        match self {
            OutputStream::Stdout => "stdout",
            OutputStream::Stderr => "stderr",
        }
    }
}

/// An event for the user interface. Every event of a conversation carries
/// the conversation's identifier `cid`; those of a terminal session carry the
/// session's identifier `id`.
#[derive(Debug, Clone, PartialEq, Eq)]
pub enum UiEvent {
    /// More text of the agent's reasoning.
    ThinkingDelta { cid: String, data: String },
    /// More text of the agent's answer.
    StreamDelta { cid: String, data: String },
    /// A line of output that is no protocol event, as it came.
    StreamToken { cid: String, data: String },
    /// Progress text from the agent's error stream.
    Progress { cid: String, data: String },
    /// The output of a command that the agent runs, with its exit code once
    /// it has ended.
    TerminalOutput { cid: String, terminal_id: String, output: String, exit_code: Option<i32> },
    /// A tool call of the agent.
    ToolCall { cid: String, title: String, status: ToolStatus, output: String },
    /// The agent waits for an approval.
    ApprovalRequest { cid: String, request_id: String, title: String, description: String },
    /// The agent's process has ended: by itself with exit code zero, or
    /// because it was cancelled.
    StreamEnd { cid: String, cancelled: bool },
    /// The turn or the process has failed.
    StreamError { cid: String, data: String },
    /// Output of a terminal session, and the stream that it came from.
    PtyData { id: String, stream: OutputStream, data: String },
    /// A terminal session has ended.
    PtyExit { id: String, exit_code: i32 },
}

/// The mathematical value of a [`UiEvent`].
pub enum UiEventView {
    ThinkingDelta { cid: Seq<char>, data: Seq<char> },
    StreamDelta { cid: Seq<char>, data: Seq<char> },
    StreamToken { cid: Seq<char>, data: Seq<char> },
    Progress { cid: Seq<char>, data: Seq<char> },
    TerminalOutput {
        cid: Seq<char>,
        terminal_id: Seq<char>,
        output: Seq<char>,
        exit_code: Option<i32>,
    },
    ToolCall { cid: Seq<char>, title: Seq<char>, status: ToolStatus, output: Seq<char> },
    ApprovalRequest {
        cid: Seq<char>,
        request_id: Seq<char>,
        title: Seq<char>,
        description: Seq<char>,
    },
    StreamEnd { cid: Seq<char>, cancelled: bool },
    StreamError { cid: Seq<char>, data: Seq<char> },
    PtyData { id: Seq<char>, stream: OutputStream, data: Seq<char> },
    PtyExit { id: Seq<char>, exit_code: i32 },
}

impl View for UiEvent {
    type V = UiEventView;

    open spec fn view(&self) -> UiEventView {
        match self {
            UiEvent::ThinkingDelta { cid, data } => UiEventView::ThinkingDelta {
                cid: cid@,
                data: data@,
            },
            UiEvent::StreamDelta { cid, data } => UiEventView::StreamDelta {
                cid: cid@,
                data: data@,
            },
            UiEvent::StreamToken { cid, data } => UiEventView::StreamToken {
                cid: cid@,
                data: data@,
            },
            UiEvent::Progress { cid, data } => UiEventView::Progress { cid: cid@, data: data@ },
            UiEvent::TerminalOutput {
                cid,
                terminal_id,
                output,
                exit_code,
            } => UiEventView::TerminalOutput {
                cid: cid@,
                terminal_id: terminal_id@,
                output: output@,
                exit_code: *exit_code,
            },
            UiEvent::ToolCall { cid, title, status, output } => UiEventView::ToolCall {
                cid: cid@,
                title: title@,
                status: *status,
                output: output@,
            },
            UiEvent::ApprovalRequest {
                cid,
                request_id,
                title,
                description,
            } => UiEventView::ApprovalRequest {
                cid: cid@,
                request_id: request_id@,
                title: title@,
                description: description@,
            },
            UiEvent::StreamEnd { cid, cancelled } => UiEventView::StreamEnd {
                cid: cid@,
                cancelled: *cancelled,
            },
            UiEvent::StreamError { cid, data } => UiEventView::StreamError {
                cid: cid@,
                data: data@,
            },
            UiEvent::PtyData { id, stream, data } => UiEventView::PtyData {
                id: id@,
                stream: *stream,
                data: data@,
            },
            UiEvent::PtyExit { id, exit_code } => UiEventView::PtyExit {
                id: id@,
                exit_code: *exit_code,
            },
        }
    }
}

/// The views of a vector of events.
pub open spec fn event_views(events: Seq<UiEvent>) -> Seq<UiEventView> {
    Seq::new(events.len(), |i: int| events[i]@)
}

/// Per process, the full text last seen of each item that is still in
/// flight, by the item's identifier.
pub struct StreamParseCache {
    item_text_by_id: StringHashMap<String>,
}

impl View for StreamParseCache {
    type V = Map<Seq<char>, Seq<char>>;

    closed spec fn view(&self) -> Map<Seq<char>, Seq<char>> {
        self.item_text_by_id@.map_values(|s: String| s@)
    }
}

/// The text last seen of the item `id`: nothing where the cache has none.
pub open spec fn previous_text(cache: Map<Seq<char>, Seq<char>>, id: Seq<char>) -> Seq<char> {
    if cache.contains_key(id) {
        cache[id]
    } else {
        Seq::empty()
    }
}

/// The text to append for an update of the item `id` to the full text
/// `full`: what follows the text last seen where `full` starts with it, and
/// all of `full` where it does not. An update without identifier or without
/// text appends nothing.
pub open spec fn text_delta(cache: Map<Seq<char>, Seq<char>>, id: Seq<char>, full: Seq<char>) -> Seq<
    char,
> {
    if full.len() == 0 || id.len() == 0 {
        Seq::empty()
    } else {
        let previous = previous_text(cache, id);
        if has_prefix(full, previous) {
            full.subrange(previous.len() as int, full.len() as int)
        } else {
            full
        }
    }
}

/// The cache after an update of the item `id` to the full text `full`. A
/// terminal update removes the item's entry; any other update with text
/// stores the text. An update without identifier changes nothing.
pub open spec fn cache_after_text(
    cache: Map<Seq<char>, Seq<char>>,
    id: Seq<char>,
    full: Seq<char>,
    terminal: bool,
) -> Map<Seq<char>, Seq<char>> {
    if id.len() == 0 {
        cache
    } else if terminal {
        cache.remove(id)
    } else if full.len() == 0 {
        cache
    } else {
        cache.insert(id, full)
    }
}

impl StreamParseCache {
    /// A cache that holds no item.
    pub fn new() -> (r: Self)
        ensures
            r@ == Map::<Seq<char>, Seq<char>>::empty(),
    {
        let r = StreamParseCache { item_text_by_id: StringHashMap::new() };
        assert(r@ =~= Map::<Seq<char>, Seq<char>>::empty());
        r
    }

    /// The text last seen of the item `id`, if the cache holds one.
    pub fn get(&self, id: &str) -> (r: Option<&str>)
        ensures
            match r {
                Some(s) => self@.contains_key(id@) && self@[id@] == s@,
                None => !self@.contains_key(id@),
            },
    {
        match self.item_text_by_id.get(id) {
            Some(s) => Some(s.as_str()),
            None => None,
        }
    }

    /// Whether the cache holds the item `id`.
    pub fn contains(&self, id: &str) -> (r: bool)
        ensures
            r == self@.contains_key(id@),
    {
        self.item_text_by_id.contains_key(id)
    }
}

/// The text to append for an update of the item `item_id` to `full_text`;
/// the cache then holds what the update leaves of the item.
pub fn extract_text_delta(
    cache: &mut StreamParseCache,
    item_id: &str,
    full_text: &str,
    is_terminal: bool,
) -> (delta: String)
    ensures
        delta@ == text_delta(old(cache)@, item_id@, full_text@),
        final(cache)@ == cache_after_text(old(cache)@, item_id@, full_text@, is_terminal),
{
    if item_id.is_empty() {
        return String::new();
    }
    let full = chars_of(full_text);
    let delta = if full.len() == 0 {
        String::new()
    } else {
        match cache.item_text_by_id.get(item_id) {
            Some(previous) => {
                let prev = chars_of(previous.as_str());
                if starts_with(&full, &prev) {
                    text_of_range(&full, prev.len(), full.len())
                } else {
                    owned(full_text)
                }
            },
            None => {
                assert(full@.subrange(0, full@.len() as int) == full@);
                assert(has_prefix(full@, Seq::<char>::empty())) by {
                    assert(full@.subrange(0, 0) == Seq::<char>::empty());
                }
                owned(full_text)
            },
        }
    };
    if is_terminal {
        cache.item_text_by_id.remove(item_id);
        assert(cache@ =~= old(cache)@.remove(item_id@));
    } else if full.len() > 0 {
        cache.item_text_by_id.insert(owned(item_id), owned(full_text));
        assert(cache@ =~= old(cache)@.insert(item_id@, full_text@));
    }
    delta
}

/// Appending the delta to the text last seen gives the new full text,
/// wherever the new text continues the old one.
pub proof fn lemma_delta_continues(cache: Map<Seq<char>, Seq<char>>, id: Seq<char>, full: Seq<char>)
    requires
        id.len() > 0,
        has_prefix(full, previous_text(cache, id)),
    ensures
        previous_text(cache, id) + text_delta(cache, id, full) == full,
{
    let previous = previous_text(cache, id);
    if full.len() == 0 {
        assert(previous + Seq::<char>::empty() == full);
    } else {
        assert(full.subrange(0, previous.len() as int) + full.subrange(
            previous.len() as int,
            full.len() as int,
        ) == full);
    }
}

/// A full text that does not continue the text last seen is sent again as a
/// whole.
pub proof fn lemma_delta_resets(cache: Map<Seq<char>, Seq<char>>, id: Seq<char>, full: Seq<char>)
    requires
        id.len() > 0,
        !has_prefix(full, previous_text(cache, id)),
    ensures
        text_delta(cache, id, full) == full,
{
}

/// The cache after the updates `updates` of the item `id`, none of them
/// terminal, one after the other.
pub open spec fn cache_after_updates(
    cache: Map<Seq<char>, Seq<char>>,
    id: Seq<char>,
    updates: Seq<Seq<char>>,
) -> Map<Seq<char>, Seq<char>>
    decreases updates.len(),
{
    if updates.len() == 0 {
        cache
    } else {
        cache_after_text(
            cache_after_updates(cache, id, updates.drop_last()),
            id,
            updates.last(),
            false,
        )
    }
}

/// All that is appended for the updates `updates` of the item `id`, one after
/// the other.
pub open spec fn appended_text(
    cache: Map<Seq<char>, Seq<char>>,
    id: Seq<char>,
    updates: Seq<Seq<char>>,
) -> Seq<char>
    decreases updates.len(),
{
    if updates.len() == 0 {
        Seq::empty()
    } else {
        appended_text(cache, id, updates.drop_last()) + text_delta(
            cache_after_updates(cache, id, updates.drop_last()),
            id,
            updates.last(),
        )
    }
}

/// Where every full text of an item continues the one before, what is
/// appended over all updates is exactly the last full text.
pub proof fn lemma_growing_text_is_appended(
    cache: Map<Seq<char>, Seq<char>>,
    id: Seq<char>,
    updates: Seq<Seq<char>>,
)
    requires
        id.len() > 0,
        !cache.contains_key(id),
        updates.len() > 0,
        forall|i: int| 0 <= i < updates.len() - 1 ==> has_prefix(#[trigger] updates[i + 1], updates[i]),
    ensures
        appended_text(cache, id, updates) == updates.last(),
        previous_text(cache_after_updates(cache, id, updates), id) == updates.last(),
    decreases updates.len(),
{
    let before = updates.drop_last();
    let last = updates.last();
    if before.len() == 0 {
        assert(cache_after_updates(cache, id, before) == cache);
        assert(appended_text(cache, id, before) == Seq::<char>::empty());
        assert(last.subrange(0, 0) == Seq::<char>::empty());
        assert(last.subrange(0, last.len() as int) == last);
        assert(Seq::<char>::empty() + text_delta(cache, id, last) == last) by {
            if last.len() == 0 {
                assert(last == Seq::<char>::empty());
            }
        }
    } else {
        assert forall|i: int| 0 <= i < before.len() - 1 implies has_prefix(
            #[trigger] before[i + 1],
            before[i],
        ) by {
            assert(before[i + 1] == updates[i + 1]);
            assert(before[i] == updates[i]);
        }
        lemma_growing_text_is_appended(cache, id, before);
        let seen = cache_after_updates(cache, id, before);
        assert(before.last() == updates[before.len() - 1]);
        assert(has_prefix(updates[before.len() - 1 + 1], updates[before.len() - 1]));
        assert(has_prefix(last, before.last()));
        if last.len() == 0 {
            assert(before.last().len() == 0);
            assert(before.last() == last);
            assert(before.last() + Seq::<char>::empty() == last);
        } else {
            lemma_delta_continues(seen, id, last);
        }
    }
}

/// After a terminal update of an item the cache holds nothing of it: the next
/// update with the same identifier, whatever its text, is treated as if no
/// text had been seen before.
pub proof fn lemma_terminal_update_forgets(
    cache: Map<Seq<char>, Seq<char>>,
    id: Seq<char>,
    full: Seq<char>,
    next: Seq<char>,
)
    ensures
        id.len() > 0 ==> !cache_after_text(cache, id, full, true).contains_key(id),
        id.len() > 0 ==> text_delta(cache_after_text(cache, id, full, true), id, next) == next,
        text_delta(cache_after_text(cache, id, full, true), id, next) == text_delta(
            Map::empty(),
            id,
            next,
        ),
        text_delta(Map::empty(), id, next) == if id.len() == 0 {
            Seq::empty()
        } else {
            next
        },
{
    assert(next.subrange(0, next.len() as int) == next);
    assert(next.subrange(0, 0) == Seq::<char>::empty());
    if next.len() == 0 {
        assert(next == Seq::<char>::empty());
    }
}

/// A request of the agent for an approval.
#[derive(Debug, Clone, PartialEq, Eq)]
pub struct ApprovalRequestEvent {
    pub request_id: String,
    pub title: String,
    pub description: String,
}

/// The mathematical value of an [`ApprovalRequestEvent`].
pub struct ApprovalRequestView {
    pub request_id: Seq<char>,
    pub title: Seq<char>,
    pub description: Seq<char>,
}

impl View for ApprovalRequestEvent {
    type V = ApprovalRequestView;

    open spec fn view(&self) -> ApprovalRequestView {
        ApprovalRequestView {
            request_id: self.request_id@,
            title: self.title@,
            description: self.description@,
        }
    }
}

/// The view of an optional approval request.
pub open spec fn approval_view(a: Option<ApprovalRequestEvent>) -> Option<ApprovalRequestView> {
    match a {
        Some(a) => Some(a@),
        None => None,
    }
}

/// Whether the event's `type` or `method` holds the word `approval`, in
/// upper or lower case.
pub open spec fn mentions_approval(event: JsonValue) -> bool {
    contains_text(ascii_lower(event.text_or("type"@, Seq::empty())), "approval"@) || contains_text(
        ascii_lower(event.text_or("method"@, Seq::empty())),
        "approval"@,
    )
}

/// The request identifier of an event: the text of the first member there is
/// of `requestId`, `request_id` and `id`, and nothing where that member is no
/// string.
pub open spec fn request_id_of(event: JsonValue) -> Seq<char> {
    let found = match event.member("requestId"@) {
        Some(v) => Some(v),
        None => member_or(event, "request_id"@, "id"@),
    };
    text_of_or(found, Seq::empty())
}

/// The title of an approval request: the event's `title`, or its `method`
/// where it has no title, or a general label.
pub open spec fn approval_title(event: JsonValue) -> Seq<char> {
    text_of_or(member_or(event, "title"@, "method"@), "Approval requested"@)
}

/// The description of an approval request: the event's `description`, or its
/// `params`, or the whole event.
pub open spec fn approval_description(event: JsonValue) -> Seq<char> {
    match member_or(event, "description"@, "params"@) {
        Some(v) => display_text(v),
        None => display_text(event),
    }
}

/// The approval request that an event makes: one where it mentions an
/// approval and carries a request identifier.
pub open spec fn approval_request(event: JsonValue) -> Option<ApprovalRequestView> {
    if mentions_approval(event) && request_id_of(event).len() > 0 {
        Some(
            ApprovalRequestView {
                request_id: request_id_of(event),
                title: approval_title(event),
                description: approval_description(event),
            },
        )
    } else {
        None
    }
}

/// Whether `word` holds `approval`, in upper or lower case.
fn names_approval(word: &str) -> (r: bool)
    ensures
        r == contains_text(ascii_lower(word@), "approval"@),
{
    let lower = lowercase_ascii(word);
    contains(lower.as_str(), "approval")
}

/// The approval request that `event` makes, if it makes one.
pub fn try_extract_approval_request(event: &Json) -> (r: Option<ApprovalRequestEvent>)
    ensures
        approval_view(r) == approval_request(event@),
{
    let maybe_approval = names_approval(event.str_or_empty("type")) || names_approval(
        event.str_or_empty("method"),
    );
    if !maybe_approval {
        return None;
    }
    let found = match event.get("requestId") {
        Some(v) => Some(v),
        None => get_or(event, "request_id", "id"),
    };
    proof {
        lemma_empty_text();
    }
    let request_id = str_of_or(found, "");
    if request_id.is_empty() {
        return None;
    }
    let title = str_of_or(get_or(event, "title", "method"), "Approval requested");
    let description = match get_or(event, "description", "params") {
        Some(v) => value_as_object_text(v),
        None => value_as_object_text(event),
    };
    Some(ApprovalRequestEvent { request_id: owned(request_id), title: owned(title), description })
}

/// What an item is, by its `type` in lower case.
pub enum ItemKind {
    Reasoning,
    Message,
    CommandExecution,
    McpToolCall,
    FileChange,
    Other,
}

/// The kind of an item.
pub open spec fn item_kind(item: JsonValue) -> ItemKind {
    let kind = ascii_lower(item.text_or("type"@, Seq::empty()));
    if kind == "reasoning"@ {
        ItemKind::Reasoning
    } else if kind == "agent_message"@ || kind == "message"@ {
        ItemKind::Message
    } else if kind == "command_execution"@ {
        ItemKind::CommandExecution
    } else if kind == "mcp_tool_call"@ {
        ItemKind::McpToolCall
    } else if kind == "file_change"@ {
        ItemKind::FileChange
    } else {
        ItemKind::Other
    }
}

/// The status word of an item, in lower case: `in_progress` where it has
/// none.
pub open spec fn item_status(item: JsonValue) -> Seq<char> {
    ascii_lower(item.text_or("status"@, "in_progress"@))
}

/// Whether a status word says that the item has ended.
pub open spec fn status_is_final(status: Seq<char>) -> bool {
    status == "completed"@ || status == "failed"@ || status == "declined"@
}

/// The status of a tool call for a status word: `completed` is done,
/// `failed` and `declined` are errors, every other word is running.
pub open spec fn tool_status(status: Seq<char>) -> ToolStatus {
    if status == "completed"@ {
        ToolStatus::Done
    } else if status == "failed"@ || status == "declined"@ {
        ToolStatus::Error
    } else {
        ToolStatus::Running
    }
}

/// The exit code shown for a command: none while it runs; once it has ended,
/// its `exit_code` cut to 32 bits, or -1 where it has none.
pub open spec fn command_exit_code(item: JsonValue) -> Option<i32> {
    if status_is_final(item_status(item)) {
        match item.member("exit_code"@) {
            Some(v) => match v.as_integer() {
                Some(n) => Some(n as i32),
                None => Some(-1i32),
            },
            None => Some(-1i32),
        }
    } else {
        None
    }
}

/// The identifier of the terminal that shows a command: the item's, or one
/// made from the conversation's where the item has none.
pub open spec fn terminal_id_of(cid: Seq<char>, item_id: Seq<char>) -> Seq<char> {
    if item_id.len() == 0 {
        cid + "-command"@
    } else {
        item_id
    }
}

/// The event for a piece of text of the given kind, if the text is not empty.
pub open spec fn text_events(reasoning: bool, cid: Seq<char>, data: Seq<char>) -> Seq<UiEventView> {
    if data.len() == 0 {
        Seq::empty()
    } else if reasoning {
        seq![UiEventView::ThinkingDelta { cid, data }]
    } else {
        seq![UiEventView::StreamDelta { cid, data }]
    }
}

/// The events of an `item.streaming` event: the text of the item's `delta`,
/// as reasoning where the item's type is `reasoning`.
pub open spec fn streaming_events(cid: Seq<char>, item: JsonValue) -> Seq<UiEventView> {
    let delta = match item.member("delta"@) {
        Some(d) => d.text_or("text"@, Seq::empty()),
        None => Seq::empty(),
    };
    text_events(item.text_or("type"@, Seq::empty()) == "reasoning"@, cid, delta)
}

/// The events of a command that the agent runs: its output for the terminal,
/// and the tool call.
pub open spec fn command_events(cid: Seq<char>, item: JsonValue) -> Seq<UiEventView> {
    let output = item.text_or("aggregated_output"@, Seq::empty());
    seq![
        UiEventView::TerminalOutput {
            cid,
            terminal_id: terminal_id_of(cid, item.text_or("id"@, Seq::empty())),
            output,
            exit_code: command_exit_code(item),
        },
        UiEventView::ToolCall {
            cid,
            title: item.text_or("command"@, "command"@),
            status: tool_status(item_status(item)),
            output,
        },
    ]
}

/// The event of a tool call through a server: its title names server and
/// tool, its output is the result, or the error where there is no result.
pub open spec fn mcp_events(cid: Seq<char>, item: JsonValue) -> Seq<UiEventView> {
    seq![
        UiEventView::ToolCall {
            cid,
            title: item.text_or("server"@, "mcp"@) + ":"@ + item.text_or("tool"@, "tool"@),
            status: tool_status(item_status(item)),
            output: display_of(member_or(item, "result"@, "error"@)),
        },
    ]
}

/// The event of a change to files: its output shows the changes.
pub open spec fn file_change_events(cid: Seq<char>, item: JsonValue) -> Seq<UiEventView> {
    seq![
        UiEventView::ToolCall {
            cid,
            title: "file_change"@,
            status: tool_status(item_status(item)),
            output: display_of(item.member("changes"@)),
        },
    ]
}

/// The events of an update of an item, with the cache as it stands before
/// the update.
pub open spec fn item_events(cid: Seq<char>, item: JsonValue, cache: Map<Seq<char>, Seq<char>>) -> Seq<
    UiEventView,
> {
    let delta = text_delta(
        cache,
        item.text_or("id"@, Seq::empty()),
        item.text_or("text"@, Seq::empty()),
    );
    match item_kind(item) {
        ItemKind::Reasoning => text_events(true, cid, delta),
        ItemKind::Message => text_events(false, cid, delta),
        ItemKind::CommandExecution => command_events(cid, item),
        ItemKind::McpToolCall => mcp_events(cid, item),
        ItemKind::FileChange => file_change_events(cid, item),
        ItemKind::Other => Seq::empty(),
    }
}

/// The cache after an update of an item: only an item of text changes it.
pub open spec fn item_cache(item: JsonValue, terminal: bool, cache: Map<Seq<char>, Seq<char>>) -> Map<
    Seq<char>,
    Seq<char>,
> {
    match item_kind(item) {
        ItemKind::Reasoning | ItemKind::Message => cache_after_text(
            cache,
            item.text_or("id"@, Seq::empty()),
            item.text_or("text"@, Seq::empty()),
            terminal,
        ),
        _ => cache,
    }
}

/// Whether an event type is an update of an item.
pub open spec fn is_item_update(kind: Seq<char>) -> bool {
    kind == "item.started"@ || kind == "item.updated"@ || kind == "item.completed"@
}

/// The message of a failed turn: the `message` of the event's `error`, or
/// that error's `error` where it has no message, or a general one.
pub open spec fn failure_message(event: JsonValue) -> Seq<char> {
    match event.member("error"@) {
        Some(e) => text_of_or(member_or(e, "message"@, "error"@), "Turn failed"@),
        None => "Turn failed"@,
    }
}

/// The events of an event that asks for no approval.
pub open spec fn plain_events(cid: Seq<char>, event: JsonValue, cache: Map<Seq<char>, Seq<char>>) -> Seq<
    UiEventView,
> {
    let kind = event.text_or("type"@, Seq::empty());
    if kind == "item.streaming"@ {
        match event.member("item"@) {
            Some(item) => streaming_events(cid, item),
            None => Seq::empty(),
        }
    } else if is_item_update(kind) {
        match event.member("item"@) {
            Some(item) => item_events(cid, item, cache),
            None => Seq::empty(),
        }
    } else if kind == "turn.failed"@ {
        seq![UiEventView::StreamError { cid, data: failure_message(event) }]
    } else if kind == "error"@ {
        seq![UiEventView::StreamError { cid, data: event.text_or("message"@, "Unknown error"@) }]
    } else {
        Seq::empty()
    }
}

/// The events that one protocol event of the conversation `cid` becomes: the
/// approval request alone where it makes one, else what its type says.
pub open spec fn parsed_events(cid: Seq<char>, event: JsonValue, cache: Map<Seq<char>, Seq<char>>) -> Seq<
    UiEventView,
> {
    match approval_request(event) {
        Some(a) => seq![
            UiEventView::ApprovalRequest {
                cid,
                request_id: a.request_id,
                title: a.title,
                description: a.description,
            },
        ],
        None => plain_events(cid, event, cache),
    }
}

/// The cache after one protocol event: only an update of an item that asks
/// for no approval changes it.
pub open spec fn parsed_cache(event: JsonValue, cache: Map<Seq<char>, Seq<char>>) -> Map<
    Seq<char>,
    Seq<char>,
> {
    let kind = event.text_or("type"@, Seq::empty());
    if approval_request(event) is Some || kind == "item.streaming"@ || !is_item_update(kind) {
        cache
    } else {
        match event.member("item"@) {
            Some(item) => item_cache(item, kind == "item.completed"@, cache),
            None => cache,
        }
    }
}

/// What one protocol event gives: the events for the user interface, and the
/// approval request to register, if it makes one.
#[derive(Debug, Clone, PartialEq, Eq)]
pub struct ParseOutcome {
    pub events: Vec<UiEvent>,
    pub approval: Option<ApprovalRequestEvent>,
}

/// The status of a tool call for the status word of `item`.
fn tool_status_of(item: &Json) -> (r: ToolStatus)
    ensures
        r == tool_status(item_status(item@)),
{
    let status = lowercase_ascii(item.str_or("status", "in_progress"));
    if status.as_str().eq("completed") {
        ToolStatus::Done
    } else if status.as_str().eq("failed") || status.as_str().eq("declined") {
        ToolStatus::Error
    } else {
        ToolStatus::Running
    }
}

/// The exit code shown for the command `item`.
fn exit_code_of(item: &Json) -> (r: Option<i32>)
    ensures
        r == command_exit_code(item@),
{
    let status = lowercase_ascii(item.str_or("status", "in_progress"));
    if status.as_str().eq("completed") || status.as_str().eq("failed") || status.as_str().eq(
        "declined",
    ) {
        match item.get("exit_code") {
            Some(v) => match v.as_i64() {
                Some(n) => Some(#[verifier::truncate] (n as i32)),
                None => Some(-1),
            },
            None => Some(-1),
        }
    } else {
        None
    }
}

/// The events of one piece of text.
fn text_events_of(reasoning: bool, cid: &str, data: String) -> (r: Vec<UiEvent>)
    ensures
        event_views(r@) == text_events(reasoning, cid@, data@),
{
    let mut r: Vec<UiEvent> = Vec::new();
    if !data.as_str().is_empty() {
        if reasoning {
            r.push(UiEvent::ThinkingDelta { cid: owned(cid), data });
        } else {
            r.push(UiEvent::StreamDelta { cid: owned(cid), data });
        }
    }
    assert(event_views(r@) =~= text_events(reasoning, cid@, data@));
    r
}

/// The events of the command `item`.
fn command_events_of(cid: &str, item: &Json) -> (r: Vec<UiEvent>)
    ensures
        event_views(r@) == command_events(cid@, item@),
{
    let item_id = item.str_or_empty("id");
    let terminal_id = if item_id.is_empty() {
        let mut t = owned(cid);
        push_text(&mut t, "-command");
        t
    } else {
        owned(item_id)
    };
    let output = item.str_or_empty("aggregated_output");
    let mut r: Vec<UiEvent> = Vec::new();
    r.push(
        UiEvent::TerminalOutput {
            cid: owned(cid),
            terminal_id,
            output: owned(output),
            exit_code: exit_code_of(item),
        },
    );
    r.push(
        UiEvent::ToolCall {
            cid: owned(cid),
            title: owned(item.str_or("command", "command")),
            status: tool_status_of(item),
            output: owned(output),
        },
    );
    assert(event_views(r@) =~= command_events(cid@, item@));
    r
}

/// The event of the tool call `item`.
fn mcp_events_of(cid: &str, item: &Json) -> (r: Vec<UiEvent>)
    ensures
        event_views(r@) == mcp_events(cid@, item@),
{
    let mut title = owned(item.str_or("server", "mcp"));
    push_text(&mut title, ":");
    push_text(&mut title, item.str_or("tool", "tool"));
    let mut r: Vec<UiEvent> = Vec::new();
    r.push(
        UiEvent::ToolCall {
            cid: owned(cid),
            title,
            status: tool_status_of(item),
            output: show_opt(get_or(item, "result", "error")),
        },
    );
    assert(event_views(r@) =~= mcp_events(cid@, item@));
    r
}

/// The event of the change to files `item`.
fn file_change_events_of(cid: &str, item: &Json) -> (r: Vec<UiEvent>)
    ensures
        event_views(r@) == file_change_events(cid@, item@),
{
    let mut r: Vec<UiEvent> = Vec::new();
    r.push(
        UiEvent::ToolCall {
            cid: owned(cid),
            title: owned("file_change"),
            status: tool_status_of(item),
            output: show_opt(item.get("changes")),
        },
    );
    assert(event_views(r@) =~= file_change_events(cid@, item@));
    r
}

/// The events of an `item.streaming` event with the item `item`.
fn streaming_events_of(cid: &str, item: &Json) -> (r: Vec<UiEvent>)
    ensures
        event_views(r@) == streaming_events(cid@, item@),
{
    proof {
        lemma_empty_text();
    }
    let delta = match item.get("delta") {
        Some(d) => d.str_or_empty("text"),
        None => "",
    };
    text_events_of(item.str_or_empty("type").eq("reasoning"), cid, owned(delta))
}

/// The events of an update of the item `item`; the cache then holds what the
/// update leaves of the item.
fn item_events_of(cid: &str, item: &Json, terminal: bool, cache: &mut StreamParseCache) -> (r: Vec<
    UiEvent,
>)
    ensures
        event_views(r@) == item_events(cid@, item@, old(cache)@),
        final(cache)@ == item_cache(item@, terminal, old(cache)@),
{
    let kind = lowercase_ascii(item.str_or_empty("type"));
    let kind = kind.as_str();
    let item_id = item.str_or_empty("id");
    if kind.eq("reasoning") {
        let delta = extract_text_delta(cache, item_id, item.str_or_empty("text"), terminal);
        text_events_of(true, cid, delta)
    } else if kind.eq("agent_message") || kind.eq("message") {
        let delta = extract_text_delta(cache, item_id, item.str_or_empty("text"), terminal);
        text_events_of(false, cid, delta)
    } else if kind.eq("command_execution") {
        command_events_of(cid, item)
    } else if kind.eq("mcp_tool_call") {
        mcp_events_of(cid, item)
    } else if kind.eq("file_change") {
        file_change_events_of(cid, item)
    } else {
        let r: Vec<UiEvent> = Vec::new();
        assert(event_views(r@) =~= Seq::<UiEventView>::empty());
        r
    }
}

/// The one event `event`.
fn single_event(event: UiEvent) -> (r: Vec<UiEvent>)
    ensures
        event_views(r@) == seq![event@],
{
    let mut r: Vec<UiEvent> = Vec::new();
    r.push(event);
    assert(event_views(r@) =~= seq![event@]);
    r
}

/// No event.
fn no_events() -> (r: Vec<UiEvent>)
    ensures
        event_views(r@) == Seq::<UiEventView>::empty(),
{
    let r: Vec<UiEvent> = Vec::new();
    assert(event_views(r@) =~= Seq::<UiEventView>::empty());
    r
}

/// Turns one protocol event of the conversation `cid` into the events for
/// the user interface, and reports the approval request that it makes, if
/// any. The cache follows the items of text that are in flight.
pub fn parse_codex_event(cid: &str, event: &Json, cache: &mut StreamParseCache) -> (r: ParseOutcome)
    ensures
        event_views(r.events@) == parsed_events(cid@, event@, old(cache)@),
        approval_view(r.approval) == approval_request(event@),
        final(cache)@ == parsed_cache(event@, old(cache)@),
{
    if let Some(approval) = try_extract_approval_request(event) {
        let events = single_event(
            UiEvent::ApprovalRequest {
                cid: owned(cid),
                request_id: approval.request_id.clone(),
                title: approval.title.clone(),
                description: approval.description.clone(),
            },
        );
        return ParseOutcome { events, approval: Some(approval) };
    }
    let kind = event.str_or_empty("type");
    let events = if kind.eq("item.streaming") {
        match event.get("item") {
            Some(item) => streaming_events_of(cid, item),
            None => no_events(),
        }
    } else if kind.eq("item.started") || kind.eq("item.updated") || kind.eq("item.completed") {
        match event.get("item") {
            Some(item) => item_events_of(cid, item, kind.eq("item.completed"), cache),
            None => no_events(),
        }
    } else if kind.eq("turn.failed") {
        let message = match event.get("error") {
            Some(e) => str_of_or(get_or(e, "message", "error"), "Turn failed"),
            None => "Turn failed",
        };
        single_event(UiEvent::StreamError { cid: owned(cid), data: owned(message) })
    } else if kind.eq("error") {
        single_event(
            UiEvent::StreamError {
                cid: owned(cid),
                data: owned(event.str_or("message", "Unknown error")),
            },
        )
    } else {
        no_events()
    };
    ParseOutcome { events, approval: None }
}

} // verus!
