use codex_wui::events::{
    extract_text_delta, parse_codex_event, try_extract_approval_request, ApprovalRequestEvent,
    StreamParseCache, ToolStatus, UiEvent,
};
use codex_wui::json::{decode, Json};

fn event(text: &str) -> Json {
    decode(text).unwrap()
}

fn parse(cid: &str, text: &str, cache: &mut StreamParseCache) -> Vec<UiEvent> {
    parse_codex_event(cid, &event(text), cache).events
}

fn stream_delta(cid: &str, data: &str) -> UiEvent {
    UiEvent::StreamDelta { cid: cid.to_string(), data: data.to_string() }
}

fn thinking_delta(cid: &str, data: &str) -> UiEvent {
    UiEvent::ThinkingDelta { cid: cid.to_string(), data: data.to_string() }
}

#[test]
fn deltas_of_growing_text_concatenate_to_the_full_text() {
    let mut cache = StreamParseCache::new();
    let mut emitted = String::new();
    let mut deltas = Vec::new();
    for full in ["Hel", "Hello", "Hello world"] {
        let delta = extract_text_delta(&mut cache, "item-1", full, false);
        emitted.push_str(&delta);
        deltas.push(delta);
    }
    assert_eq!(deltas, vec!["Hel", "lo", " world"]);
    assert_eq!(emitted, "Hello world");
}

#[test]
fn delta_of_rewritten_text_is_the_whole_text() {
    let mut cache = StreamParseCache::new();
    assert_eq!(extract_text_delta(&mut cache, "a", "Hello", false), "Hello");
    assert_eq!(extract_text_delta(&mut cache, "a", "Goodbye", false), "Goodbye");
    assert_eq!(cache.get("a"), Some("Goodbye"));
}

#[test]
fn terminal_update_removes_the_entry() {
    let mut cache = StreamParseCache::new();
    assert_eq!(extract_text_delta(&mut cache, "a", "Hello", false), "Hello");
    assert!(cache.contains("a"));
    assert_eq!(extract_text_delta(&mut cache, "a", "Hello!", true), "!");
    assert!(!cache.contains("a"));
    assert_eq!(cache.get("a"), None);
    assert_eq!(extract_text_delta(&mut cache, "a", "Hello!", false), "Hello!");
}

#[test]
fn terminal_update_without_text_removes_the_entry() {
    let mut cache = StreamParseCache::new();
    assert_eq!(extract_text_delta(&mut cache, "a", "Hello", false), "Hello");
    assert_eq!(extract_text_delta(&mut cache, "a", "", true), "");
    assert!(!cache.contains("a"));
    assert_eq!(extract_text_delta(&mut cache, "a", "Hello", false), "Hello");
}

#[test]
fn update_without_text_or_identifier_appends_nothing() {
    let mut cache = StreamParseCache::new();
    assert_eq!(extract_text_delta(&mut cache, "a", "Hel", false), "Hel");
    assert_eq!(extract_text_delta(&mut cache, "a", "", false), "");
    assert_eq!(cache.get("a"), Some("Hel"));
    assert_eq!(extract_text_delta(&mut cache, "", "text", false), "");
    assert_eq!(extract_text_delta(&mut cache, "", "text", true), "");
    assert!(!cache.contains(""));
    assert_eq!(extract_text_delta(&mut cache, "a", "Hello", false), "lo");
}

#[test]
fn deltas_of_two_items_do_not_mix() {
    let mut cache = StreamParseCache::new();
    assert_eq!(extract_text_delta(&mut cache, "a", "one", false), "one");
    assert_eq!(extract_text_delta(&mut cache, "b", "two", false), "two");
    assert_eq!(extract_text_delta(&mut cache, "a", "one more", true), " more");
    assert_eq!(extract_text_delta(&mut cache, "b", "two more", false), " more");
}

#[test]
fn delta_counts_characters_not_bytes() {
    let mut cache = StreamParseCache::new();
    assert_eq!(extract_text_delta(&mut cache, "a", "héllo", false), "héllo");
    assert_eq!(extract_text_delta(&mut cache, "a", "héllo wörld", false), " wörld");
}

#[test]
fn streaming_item_gives_its_delta() {
    let mut cache = StreamParseCache::new();
    assert_eq!(
        parse("c1", r#"{"type":"item.streaming","item":{"type":"message","delta":{"text":"ab"}}}"#, &mut cache),
        vec![stream_delta("c1", "ab")]
    );
    assert_eq!(
        parse("c1", r#"{"type":"item.streaming","item":{"type":"reasoning","delta":{"text":"hm"}}}"#, &mut cache),
        vec![thinking_delta("c1", "hm")]
    );
    assert_eq!(
        parse("c1", r#"{"type":"item.streaming","item":{"type":"Reasoning","delta":{"text":"hm"}}}"#, &mut cache),
        vec![stream_delta("c1", "hm")]
    );
    assert!(parse("c1", r#"{"type":"item.streaming","item":{"delta":{"text":""}}}"#, &mut cache).is_empty());
    assert!(parse("c1", r#"{"type":"item.streaming","item":{"delta":{}}}"#, &mut cache).is_empty());
    assert!(parse("c1", r#"{"type":"item.streaming"}"#, &mut cache).is_empty());
}

#[test]
fn item_updates_give_the_difference_to_the_cache() {
    let mut cache = StreamParseCache::new();
    assert_eq!(
        parse("c", r#"{"type":"item.started","item":{"id":"m","type":"agent_message","text":"Hel"}}"#, &mut cache),
        vec![stream_delta("c", "Hel")]
    );
    assert_eq!(
        parse("c", r#"{"type":"item.updated","item":{"id":"m","type":"message","text":"Hello"}}"#, &mut cache),
        vec![stream_delta("c", "lo")]
    );
    assert!(parse("c", r#"{"type":"item.updated","item":{"id":"m","type":"message","text":"Hello"}}"#, &mut cache)
        .is_empty());
    assert_eq!(
        parse("c", r#"{"type":"item.completed","item":{"id":"m","type":"MESSAGE","text":"Hello world"}}"#, &mut cache),
        vec![stream_delta("c", " world")]
    );
    assert!(!cache.contains("m"));
    assert_eq!(
        parse("c", r#"{"type":"item.updated","item":{"id":"r","type":"reasoning","text":"think"}}"#, &mut cache),
        vec![thinking_delta("c", "think")]
    );
    assert_eq!(cache.get("r"), Some("think"));
}

#[test]
fn completed_message_gives_one_delta_and_leaves_no_entry() {
    let mut cache = StreamParseCache::new();
    let outcome = parse_codex_event(
        "c",
        &event(r#"{"type":"item.completed","item":{"id":"a","type":"message","text":"hi"}}"#),
        &mut cache,
    );
    assert_eq!(outcome.events, vec![stream_delta("c", "hi")]);
    assert_eq!(outcome.approval, None);
    assert!(!cache.contains("a"));
}

#[test]
fn command_execution_gives_terminal_output_and_tool_call() {
    let mut cache = StreamParseCache::new();
    let events = parse(
        "c",
        r#"{"type":"item.completed","item":{"id":"x1","type":"command_execution","command":"ls","aggregated_output":"a\nb","status":"completed","exit_code":0}}"#,
        &mut cache,
    );
    assert_eq!(
        events,
        vec![
            UiEvent::TerminalOutput {
                cid: "c".to_string(),
                terminal_id: "x1".to_string(),
                output: "a\nb".to_string(),
                exit_code: Some(0),
            },
            UiEvent::ToolCall {
                cid: "c".to_string(),
                title: "ls".to_string(),
                status: ToolStatus::Done,
                output: "a\nb".to_string(),
            },
        ]
    );
}

#[test]
fn command_execution_defaults() {
    let mut cache = StreamParseCache::new();
    let events = parse("conv", r#"{"type":"item.started","item":{"type":"command_execution"}}"#, &mut cache);
    assert_eq!(
        events,
        vec![
            UiEvent::TerminalOutput {
                cid: "conv".to_string(),
                terminal_id: "conv-command".to_string(),
                output: String::new(),
                exit_code: None,
            },
            UiEvent::ToolCall {
                cid: "conv".to_string(),
                title: "command".to_string(),
                status: ToolStatus::Running,
                output: String::new(),
            },
        ]
    );
}

fn exit_code_of(item: &str) -> Option<i32> {
    let mut cache = StreamParseCache::new();
    let text = format!(r#"{{"type":"item.updated","item":{item}}}"#);
    match &parse("c", &text, &mut cache)[0] {
        UiEvent::TerminalOutput { exit_code, .. } => *exit_code,
        other => panic!("unexpected event {other:?}"),
    }
}

fn status_of(item: &str) -> ToolStatus {
    let mut cache = StreamParseCache::new();
    let text = format!(r#"{{"type":"item.updated","item":{item}}}"#);
    match parse("c", &text, &mut cache).last().unwrap() {
        UiEvent::ToolCall { status, .. } => *status,
        other => panic!("unexpected event {other:?}"),
    }
}

#[test]
fn exit_code_comes_with_a_final_status() {
    assert_eq!(exit_code_of(r#"{"type":"command_execution","status":"failed","exit_code":2}"#), Some(2));
    assert_eq!(exit_code_of(r#"{"type":"command_execution","status":"FAILED"}"#), Some(-1));
    assert_eq!(exit_code_of(r#"{"type":"command_execution","status":"declined","exit_code":"1"}"#), Some(-1));
    assert_eq!(exit_code_of(r#"{"type":"command_execution","status":"completed","exit_code":1.5}"#), Some(-1));
    assert_eq!(exit_code_of(r#"{"type":"command_execution","status":"completed","exit_code":-7}"#), Some(-7));
    assert_eq!(exit_code_of(r#"{"type":"command_execution","status":"completed","exit_code":4294967297}"#), Some(1));
    assert_eq!(
        exit_code_of(r#"{"type":"command_execution","status":"completed","exit_code":18446744073709551615}"#),
        Some(-1)
    );
    assert_eq!(exit_code_of(r#"{"type":"command_execution","status":"in_progress","exit_code":0}"#), None);
    assert_eq!(exit_code_of(r#"{"type":"command_execution","exit_code":0}"#), None);
}

#[test]
fn status_words_map_to_tool_status() {
    for kind in ["command_execution", "mcp_tool_call", "file_change"] {
        assert_eq!(status_of(&format!(r#"{{"type":"{kind}","status":"completed"}}"#)), ToolStatus::Done);
        assert_eq!(status_of(&format!(r#"{{"type":"{kind}","status":"Completed"}}"#)), ToolStatus::Done);
        assert_eq!(status_of(&format!(r#"{{"type":"{kind}","status":"failed"}}"#)), ToolStatus::Error);
        assert_eq!(status_of(&format!(r#"{{"type":"{kind}","status":"declined"}}"#)), ToolStatus::Error);
        assert_eq!(status_of(&format!(r#"{{"type":"{kind}","status":"in_progress"}}"#)), ToolStatus::Running);
        assert_eq!(status_of(&format!(r#"{{"type":"{kind}","status":"queued"}}"#)), ToolStatus::Running);
        assert_eq!(status_of(&format!(r#"{{"type":"{kind}"}}"#)), ToolStatus::Running);
        assert_eq!(status_of(&format!(r#"{{"type":"{kind}","status":7}}"#)), ToolStatus::Running);
    }
}

#[test]
fn mcp_tool_call_names_server_and_tool() {
    let mut cache = StreamParseCache::new();
    assert_eq!(
        parse(
            "c",
            r#"{"type":"item.completed","item":{"type":"mcp_tool_call","server":"fs","tool":"read","status":"completed","result":{"ok":true}}}"#,
            &mut cache
        ),
        vec![UiEvent::ToolCall {
            cid: "c".to_string(),
            title: "fs:read".to_string(),
            status: ToolStatus::Done,
            output: "{\n  \"ok\": true\n}".to_string(),
        }]
    );
    assert_eq!(
        parse("c", r#"{"type":"item.updated","item":{"type":"mcp_tool_call","status":"failed","error":"no"}}"#, &mut cache),
        vec![UiEvent::ToolCall {
            cid: "c".to_string(),
            title: "mcp:tool".to_string(),
            status: ToolStatus::Error,
            output: "no".to_string(),
        }]
    );
    assert_eq!(
        parse("c", r#"{"type":"item.updated","item":{"type":"mcp_tool_call","result":null,"error":"no"}}"#, &mut cache),
        vec![UiEvent::ToolCall {
            cid: "c".to_string(),
            title: "mcp:tool".to_string(),
            status: ToolStatus::Running,
            output: String::new(),
        }]
    );
    assert_eq!(
        parse("c", r#"{"type":"item.started","item":{"type":"mcp_tool_call"}}"#, &mut cache),
        vec![UiEvent::ToolCall {
            cid: "c".to_string(),
            title: "mcp:tool".to_string(),
            status: ToolStatus::Running,
            output: String::new(),
        }]
    );
}

#[test]
fn file_change_shows_the_changes() {
    let mut cache = StreamParseCache::new();
    assert_eq!(
        parse(
            "c",
            r#"{"type":"item.completed","item":{"type":"file_change","status":"completed","changes":[{"path":"a.rs"}]}}"#,
            &mut cache
        ),
        vec![UiEvent::ToolCall {
            cid: "c".to_string(),
            title: "file_change".to_string(),
            status: ToolStatus::Done,
            output: "[\n  {\n    \"path\": \"a.rs\"\n  }\n]".to_string(),
        }]
    );
    assert_eq!(
        parse("c", r#"{"type":"item.started","item":{"type":"file_change"}}"#, &mut cache),
        vec![UiEvent::ToolCall {
            cid: "c".to_string(),
            title: "file_change".to_string(),
            status: ToolStatus::Running,
            output: String::new(),
        }]
    );
}

#[test]
fn failed_turn_gives_a_stream_error() {
    let mut cache = StreamParseCache::new();
    let error = |data: &str| vec![UiEvent::StreamError { cid: "c".to_string(), data: data.to_string() }];
    assert_eq!(parse("c", r#"{"type":"turn.failed","error":{"message":"bad"}}"#, &mut cache), error("bad"));
    assert_eq!(parse("c", r#"{"type":"turn.failed","error":{"error":"worse"}}"#, &mut cache), error("worse"));
    assert_eq!(
        parse("c", r#"{"type":"turn.failed","error":{"message":1,"error":"worse"}}"#, &mut cache),
        error("Turn failed")
    );
    assert_eq!(parse("c", r#"{"type":"turn.failed","error":"text"}"#, &mut cache), error("Turn failed"));
    assert_eq!(parse("c", r#"{"type":"turn.failed"}"#, &mut cache), error("Turn failed"));
}

#[test]
fn error_event_gives_a_stream_error() {
    let mut cache = StreamParseCache::new();
    assert_eq!(
        parse("c", r#"{"type":"error","message":"boom"}"#, &mut cache),
        vec![UiEvent::StreamError { cid: "c".to_string(), data: "boom".to_string() }]
    );
    assert_eq!(
        parse("c", r#"{"type":"error"}"#, &mut cache),
        vec![UiEvent::StreamError { cid: "c".to_string(), data: "Unknown error".to_string() }]
    );
}

#[test]
fn other_events_give_nothing() {
    let mut cache = StreamParseCache::new();
    assert!(parse("c", r#"{"type":"turn.started"}"#, &mut cache).is_empty());
    assert!(parse("c", r#"{"type":"item.completed"}"#, &mut cache).is_empty());
    assert!(parse("c", r#"{"type":"item.completed","item":{"type":"checklist","id":"t"}}"#, &mut cache).is_empty());
    assert!(parse("c", r#"{"kind":"item.completed"}"#, &mut cache).is_empty());
    assert!(parse("c", r#"[1,2,3]"#, &mut cache).is_empty());
    assert!(parse("c", r#""error""#, &mut cache).is_empty());
    assert!(parse("c", r#"{"type":42}"#, &mut cache).is_empty());
}

#[test]
fn approval_is_found_by_type_or_method() {
    let approval = try_extract_approval_request(&event(
        r#"{"type":"exec_approval_request","request_id":"r1","title":"Run it?","description":"rm -rf"}"#,
    ));
    assert_eq!(
        approval,
        Some(ApprovalRequestEvent {
            request_id: "r1".to_string(),
            title: "Run it?".to_string(),
            description: "rm -rf".to_string(),
        })
    );
    let approval = try_extract_approval_request(&event(
        r#"{"method":"item/requestApproval","id":"7","params":{"cmd":"ls"}}"#,
    ));
    assert_eq!(
        approval,
        Some(ApprovalRequestEvent {
            request_id: "7".to_string(),
            title: "item/requestApproval".to_string(),
            description: "{\n  \"cmd\": \"ls\"\n}".to_string(),
        })
    );
}

#[test]
fn approval_needs_the_word_and_an_identifier() {
    assert_eq!(try_extract_approval_request(&event(r#"{"type":"approval"}"#)), None);
    assert_eq!(try_extract_approval_request(&event(r#"{"type":"approval","id":""}"#)), None);
    assert_eq!(try_extract_approval_request(&event(r#"{"type":"approval","id":5}"#)), None);
    assert_eq!(try_extract_approval_request(&event(r#"{"type":"approve","id":"r"}"#)), None);
    assert_eq!(try_extract_approval_request(&event(r#"{"title":"approval","id":"r"}"#)), None);
    assert_eq!(
        try_extract_approval_request(&event(r#"{"type":"approval","requestId":1,"request_id":"r"}"#)),
        None
    );
    assert!(try_extract_approval_request(&event(r#"{"type":"NeedsAPPROVALNow","id":"r"}"#)).is_some());
}

#[test]
fn approval_identifier_is_taken_in_order() {
    let id = |text: &str| try_extract_approval_request(&event(text)).unwrap().request_id;
    assert_eq!(id(r#"{"type":"approval","requestId":"a","request_id":"b","id":"c"}"#), "a");
    assert_eq!(id(r#"{"type":"approval","request_id":"b","id":"c"}"#), "b");
    assert_eq!(id(r#"{"type":"approval","id":"c"}"#), "c");
}

#[test]
fn approval_title_and_description_fall_back() {
    let approval = try_extract_approval_request(&event(r#"{"type":"approval","id":"r"}"#)).unwrap();
    assert_eq!(approval.title, "Approval requested");
    assert_eq!(approval.description, "{\n  \"id\": \"r\",\n  \"type\": \"approval\"\n}");
    let approval =
        try_extract_approval_request(&event(r#"{"type":"approval","id":"r","title":3,"method":"m"}"#)).unwrap();
    assert_eq!(approval.title, "Approval requested");
    let approval = try_extract_approval_request(&event(
        r#"{"type":"approval","id":"r","description":null,"params":"p"}"#,
    ))
    .unwrap();
    assert_eq!(approval.description, "");
    let approval =
        try_extract_approval_request(&event(r#"{"type":"approval","id":"r","params":"p"}"#)).unwrap();
    assert_eq!(approval.description, "p");
}

#[test]
fn approval_event_short_circuits_parsing() {
    let mut cache = StreamParseCache::new();
    let outcome = parse_codex_event(
        "c9",
        &event(r#"{"type":"item.completed","method":"approval","request_id":"r1","item":{"id":"a","type":"message","text":"hi"}}"#),
        &mut cache,
    );
    let approval = outcome.approval.unwrap();
    assert_eq!(approval.request_id, "r1");
    assert_eq!(
        outcome.events,
        vec![UiEvent::ApprovalRequest {
            cid: "c9".to_string(),
            request_id: "r1".to_string(),
            title: approval.title.clone(),
            description: approval.description.clone(),
        }]
    );
    assert_eq!(approval.title, "approval");
    assert!(!cache.contains("a"));
}
