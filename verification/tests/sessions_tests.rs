use codex_wui::events::{StreamParseCache, UiEvent};
use codex_wui::sessions::{
    approval_response_line, exit_event_of, finish_approval, frame_approval_line, ApprovalBroker,
    ApprovalError,
    ApprovalWrite, ConversationProcessRegistry, MonitorStep, ProcessSlot, ProcessStatus,
    SessionStore, SpawnFailure, AGENT_POLL_MILLIS,
};

fn stream_end(cid: &str, cancelled: bool) -> UiEvent {
    UiEvent::StreamEnd { cid: cid.to_string(), cancelled }
}

fn launch(store: &mut SessionStore<u32>, cid: &str, process: u32, has_input: bool) -> Option<u32> {
    let ended = store.begin_launch(cid);
    assert_eq!(store.complete_launch(cid, process, has_input), None);
    ended
}

#[test]
fn cancel_after_launch_finds_the_process() {
    let mut store: SessionStore<u32> = SessionStore::new();
    assert_eq!(launch(&mut store, "c1", 11, true), None);
    assert!(store.registry.is_running("c1"));
    let outcome = store.cancel("c1");
    assert_eq!(outcome.process, Some(11));
    assert_eq!(outcome.events, vec![stream_end("c1", true)]);
    assert!(!store.registry.is_running("c1"));
}

#[test]
fn cancel_without_process_tells_nothing() {
    let mut store: SessionStore<u32> = SessionStore::new();
    let outcome = store.cancel("nobody");
    assert_eq!(outcome.process, None);
    assert!(outcome.events.is_empty());
}

#[test]
fn second_launch_ends_the_first_process() {
    let mut store: SessionStore<u32> = SessionStore::new();
    assert_eq!(launch(&mut store, "c1", 1, true), None);
    assert_eq!(launch(&mut store, "other", 5, true), None);
    assert_eq!(launch(&mut store, "c1", 2, true), Some(1));
    assert_eq!(store.registry.take_for_monitor("c1"), Some(&2));
    assert_eq!(store.registry.take_for_monitor("other"), Some(&5));
    assert_eq!(store.cancel("c1").process, Some(2));
    assert_eq!(store.cancel("c1").process, None);
}

#[test]
fn install_hands_back_what_it_displaces() {
    let mut registry: ConversationProcessRegistry<&str> = ConversationProcessRegistry::new();
    assert_eq!(registry.install("c", "first", true), None);
    assert_eq!(registry.install("c", "second", false), Some("first"));
    assert_eq!(registry.remove("c"), Some("second"));
    assert_eq!(registry.remove("c"), None);
}

#[test]
fn launch_forgets_the_old_approvals_of_the_conversation() {
    let mut store: SessionStore<u32> = SessionStore::new();
    launch(&mut store, "c1", 1, true);
    store.register_approval("r1", "c1");
    store.register_approval("r2", "c2");
    launch(&mut store, "c1", 2, true);
    assert_eq!(store.broker.requests(), vec!["r2"]);
}

#[test]
fn answer_to_unknown_request_is_not_found() {
    let mut store: SessionStore<u32> = SessionStore::new();
    launch(&mut store, "c1", 1, true);
    store.register_approval("r1", "c1");
    assert_eq!(store.respond_to_approval("nope", true), Err(ApprovalError::NotFound));
    assert_eq!(store.broker.requests(), vec!["r1"]);
    assert!(store.registry.is_running("c1"));
}

#[test]
fn answer_reaches_a_running_process_once() {
    let mut store: SessionStore<u32> = SessionStore::new();
    launch(&mut store, "c1", 1, true);
    store.register_approval("r1", "c1");
    assert_eq!(
        store.respond_to_approval("r1", true),
        Ok(ApprovalWrite {
            conversation_id: "c1".to_string(),
            line: "{\"request_id\":\"r1\",\"approved\":true}\n".to_string(),
        })
    );
    assert_eq!(store.registry.lookup_input("c1"), Ok(&1));
    assert_eq!(store.respond_to_approval("r1", true), Err(ApprovalError::NotFound));
}

#[test]
fn answer_after_the_process_is_gone_is_not_running() {
    let mut store: SessionStore<u32> = SessionStore::new();
    launch(&mut store, "c1", 1, true);
    store.register_approval("r1", "c1");
    assert_eq!(store.registry.remove("c1"), Some(1));
    assert_eq!(store.respond_to_approval("r1", false), Err(ApprovalError::ProcessNotRunning));
    assert!(store.broker.requests().is_empty());
}

#[test]
fn answer_after_cancel_is_not_found() {
    let mut store: SessionStore<u32> = SessionStore::new();
    launch(&mut store, "c1", 1, true);
    store.register_approval("r1", "c1");
    store.cancel("c1");
    assert_eq!(store.respond_to_approval("r1", false), Err(ApprovalError::NotFound));
}

#[test]
fn answer_to_a_process_without_input_is_unavailable() {
    let mut store: SessionStore<u32> = SessionStore::new();
    launch(&mut store, "c1", 1, false);
    store.register_approval("r1", "c1");
    assert_eq!(store.registry.lookup_input("c1"), Err(ApprovalError::StdinUnavailable));
    assert_eq!(store.registry.lookup_input("c2"), Err(ApprovalError::ProcessNotRunning));
    assert_eq!(store.respond_to_approval("r1", true), Err(ApprovalError::StdinUnavailable));
}

#[test]
fn failed_write_is_an_io_failure() {
    assert_eq!(finish_approval(true), Err(ApprovalError::IoFailure));
    assert_eq!(finish_approval(false), Ok(()));
}

#[test]
fn errors_have_their_own_messages() {
    assert_eq!(ApprovalError::NotFound.message(""), "Approval request not found");
    assert_eq!(ApprovalError::ProcessNotRunning.message(""), "Conversation process not running");
    assert_eq!(ApprovalError::StdinUnavailable.message(""), "Process stdin is not available");
    assert_eq!(ApprovalError::IoFailure.message("Broken pipe"), "Broken pipe");
}

#[test]
fn response_line_is_one_json_line() {
    assert_eq!(approval_response_line("r1", true), "{\"request_id\":\"r1\",\"approved\":true}\n");
    assert_eq!(approval_response_line("r1", false), "{\"request_id\":\"r1\",\"approved\":false}\n");
    assert_eq!(
        approval_response_line("a\"b\\c\nd", true),
        "{\"request_id\":\"a\\\"b\\\\c\\nd\",\"approved\":true}\n"
    );
    let line = approval_response_line("x", false);
    let value: serde_json::Value = serde_json::from_str(line.trim_end()).unwrap();
    assert_eq!(value["request_id"], "x");
    assert_eq!(value["approved"], false);
}

#[test]
fn decision_is_framed_around_the_quoted_identifier() {
    assert_eq!(frame_approval_line("\"r1\"", true), "{\"request_id\":\"r1\",\"approved\":true}\n");
    assert_eq!(frame_approval_line("\"a\\\"b\"", false), "{\"request_id\":\"a\\\"b\",\"approved\":false}\n");
    assert_eq!(frame_approval_line("", false), "{\"request_id\":,\"approved\":false}\n");
    assert_eq!(approval_response_line("plain id ~ é", true), "{\"request_id\":\"plain id ~ é\",\"approved\":true}\n");
    assert_eq!(approval_response_line("tab\there", true), "{\"request_id\":\"tab\\there\",\"approved\":true}\n");
    assert_eq!(approval_response_line("\u{7f}\u{1f}", true), "{\"request_id\":\"\u{7f}\\u001f\",\"approved\":true}\n");
}

#[test]
fn purge_removes_the_requests_of_one_conversation() {
    let mut broker = ApprovalBroker::new();
    broker.register("r1", "c1");
    broker.register("r2", "c2");
    broker.register("r3", "c1");
    broker.register("r4", "c3");
    broker.purge("c1");
    assert_eq!(broker.requests(), vec!["r2", "r4"]);
    assert_eq!(broker.pending("r2").unwrap().conversation_id, "c2");
    assert_eq!(broker.pending("r4").unwrap().conversation_id, "c3");
    assert!(broker.pending("r1").is_none());
    broker.purge("nobody");
    assert_eq!(broker.requests(), vec!["r2", "r4"]);
}

#[test]
fn registering_a_request_again_moves_it() {
    let mut broker = ApprovalBroker::new();
    broker.register("r1", "c1");
    broker.register("r1", "c2");
    assert_eq!(broker.requests(), vec!["r1"]);
    assert_eq!(broker.take("r1"), Some("c2".to_string()));
    assert_eq!(broker.take("r1"), None);
}

#[test]
fn monitor_stops_when_the_process_is_gone() {
    let mut store: SessionStore<u32> = SessionStore::new();
    store.register_approval("r1", "c1");
    assert!(matches!(store.monitor_step("c1", ProcessStatus::Running), MonitorStep::Stop));
    assert!(matches!(store.monitor_step("c1", ProcessStatus::Exited(Some(0))), MonitorStep::Stop));
    assert_eq!(store.broker.requests(), vec!["r1"]);
}

#[test]
fn monitor_waits_while_the_process_runs() {
    let mut store: SessionStore<u32> = SessionStore::new();
    launch(&mut store, "c1", 1, true);
    assert!(matches!(store.monitor_step("c1", ProcessStatus::Running), MonitorStep::Wait));
    assert!(store.registry.is_running("c1"));
    assert_eq!(AGENT_POLL_MILLIS, 100);
}

#[test]
fn exit_purges_the_approvals_of_the_exited_process_only() {
    let mut store: SessionStore<u32> = SessionStore::new();
    launch(&mut store, "c1", 1, true);
    launch(&mut store, "c2", 2, true);
    store.register_approval("r1", "c1");
    store.register_approval("r2", "c2");
    store.register_approval("r3", "c1");
    match store.monitor_step("c1", ProcessStatus::Exited(Some(0))) {
        MonitorStep::Finished { process, events } => {
            assert_eq!(process, 1);
            assert_eq!(events, vec![stream_end("c1", false)]);
        }
        _ => panic!("the monitor should have finished"),
    }
    assert_eq!(store.broker.requests(), vec!["r2"]);
    assert!(!store.registry.is_running("c1"));
    assert!(store.registry.is_running("c2"));
    assert!(matches!(store.monitor_step("c1", ProcessStatus::Exited(Some(0))), MonitorStep::Stop));
}

#[test]
fn exit_with_a_code_is_an_error() {
    let error = |data: &str| UiEvent::StreamError { cid: "c".to_string(), data: data.to_string() };
    assert_eq!(exit_event_of("c", Some(0)), stream_end("c", false));
    assert_eq!(exit_event_of("c", Some(3)), error("Codex exited with code 3"));
    assert_eq!(exit_event_of("c", Some(-9)), error("Codex exited with code -9"));
    assert_eq!(exit_event_of("c", None), error("Codex exited with code -1"));
    assert_eq!(exit_event_of("c", Some(i32::MIN)), error("Codex exited with code -2147483648"));
    assert_eq!(exit_event_of("c", Some(i32::MAX)), error("Codex exited with code 2147483647"));
}

#[test]
fn completed_message_then_exit_gives_delta_then_end() {
    let mut store: SessionStore<u32> = SessionStore::new();
    let mut cache = StreamParseCache::new();
    launch(&mut store, "c1", 1, true);
    let mut seen = store.handle_stdout_line(
        "c1",
        r#"{"type":"item.completed","item":{"id":"a","type":"message","text":"hi"}}"#,
        &mut cache,
    );
    match store.monitor_step("c1", ProcessStatus::Exited(Some(0))) {
        MonitorStep::Finished { events, .. } => seen.extend(events),
        _ => panic!("the monitor should have finished"),
    }
    assert_eq!(
        seen,
        vec![
            UiEvent::StreamDelta { cid: "c1".to_string(), data: "hi".to_string() },
            stream_end("c1", false),
        ]
    );
    assert!(store.broker.requests().is_empty());
    assert!(!cache.contains("a"));
}

#[test]
fn approval_event_is_registered_and_answered() {
    let mut store: SessionStore<u32> = SessionStore::new();
    let mut cache = StreamParseCache::new();
    launch(&mut store, "c1", 1, true);
    let seen = store.handle_stdout_line(
        "c1",
        r#"{"type":"approval_request","request_id":"r1","title":"Run?","description":"ls"}"#,
        &mut cache,
    );
    assert_eq!(
        seen,
        vec![UiEvent::ApprovalRequest {
            cid: "c1".to_string(),
            request_id: "r1".to_string(),
            title: "Run?".to_string(),
            description: "ls".to_string(),
        }]
    );
    assert_eq!(store.broker.requests(), vec!["r1"]);
    let write = store.respond_to_approval("r1", true).unwrap();
    assert_eq!(write.conversation_id, "c1");
    assert_eq!(write.line, "{\"request_id\":\"r1\",\"approved\":true}\n");
    assert!(store.broker.requests().is_empty());
}

#[test]
fn launch_that_fails_to_start_registers_nothing() {
    let mut store: SessionStore<u32> = SessionStore::new();
    launch(&mut store, "c1", 1, true);
    assert_eq!(store.begin_launch("c1"), Some(1));
    assert_eq!(
        store.finish_launch("c1", Err("No such file or directory".to_string())),
        Err(SpawnFailure { message: "No such file or directory".to_string() })
    );
    assert!(!store.registry.is_running("c1"));
    assert_eq!(store.cancel("c1").process, None);
    assert_eq!(store.finish_launch("c1", Ok(ProcessSlot { process: 2, has_input: false })), Ok(None));
    assert_eq!(store.finish_launch("c1", Ok(ProcessSlot { process: 3, has_input: true })), Ok(Some(2)));
    assert_eq!(store.registry.lookup_input("c1"), Ok(&3));
}
