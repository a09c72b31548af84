use codex_wui::events::{OutputStream, StreamParseCache, UiEvent};
use codex_wui::pty::{
    finish_kill, finish_write, shell_or_default, PtyError, PtySessionRegistry, PTY_POLL_MILLIS,
};
use codex_wui::registry::Registry;
use codex_wui::sessions::{MonitorStep, ProcessStatus};
use codex_wui::streams::{parse_pty_chunk, parse_stderr_line, parse_stdout_line};
use codex_wui::text::is_blank_text;
use codex_wui::utils::{clean_lines, clean_progress_text};

#[test]
fn blank_output_lines_are_handed_on() {
    let mut cache = StreamParseCache::new();
    for line in ["", "   ", "\t"] {
        let outcome = parse_stdout_line("c", line, &mut cache);
        assert_eq!(
            outcome.events,
            vec![UiEvent::StreamToken { cid: "c".to_string(), data: line.to_string() }]
        );
        assert!(outcome.approval.is_none());
    }
}

#[test]
fn output_lines_keep_their_order() {
    let mut cache = StreamParseCache::new();
    let mut seen = Vec::new();
    for line in ["first", r#"{"type":"turn.started"}"#, "", r#"{"type":"error","message":"m"}"#, "last"] {
        seen.extend(parse_stdout_line("c", line, &mut cache).events);
    }
    let token = |data: &str| UiEvent::StreamToken { cid: "c".to_string(), data: data.to_string() };
    assert_eq!(
        seen,
        vec![
            token("first"),
            token(""),
            UiEvent::StreamError { cid: "c".to_string(), data: "m".to_string() },
            token("last"),
        ]
    );
}

#[test]
fn output_that_is_no_json_is_handed_on() {
    let mut cache = StreamParseCache::new();
    let outcome = parse_stdout_line("c", "  plain {text", &mut cache);
    assert_eq!(
        outcome.events,
        vec![UiEvent::StreamToken { cid: "c".to_string(), data: "  plain {text".to_string() }]
    );
    assert!(outcome.approval.is_none());
}

#[test]
fn output_that_is_json_is_parsed() {
    let mut cache = StreamParseCache::new();
    let outcome = parse_stdout_line(
        "c",
        r#" {"type":"item.updated","item":{"id":"m","type":"message","text":"Hel"}} "#,
        &mut cache,
    );
    assert_eq!(outcome.events, vec![UiEvent::StreamDelta { cid: "c".to_string(), data: "Hel".to_string() }]);
    assert_eq!(cache.get("m"), Some("Hel"));
    let outcome = parse_stdout_line("c", "42", &mut cache);
    assert!(outcome.events.is_empty());
}

#[test]
fn progress_text_loses_escapes_and_empty_lines() {
    assert_eq!(clean_progress_text("\u{1b}[32mok\u{1b}[0m"), "ok");
    assert_eq!(clean_progress_text("  a  \r\n\n  b\rc  "), "a\nb\nc");
    assert_eq!(clean_progress_text("\u{1b}[1;31m  \u{1b}[0m"), "");
    assert_eq!(clean_progress_text(""), "");
    assert_eq!(clean_progress_text("\u{1b}[2Kloading\u{1b}[1A\n"), "loading");
    assert_eq!(clean_progress_text("\u{1b}]0;title"), "\u{1b}]0;title");
    assert_eq!(clean_progress_text("a \u{1b}[ b"), "a \u{1b}[ b");
}

#[test]
fn error_lines_become_progress() {
    assert_eq!(
        parse_stderr_line("c", "\u{1b}[33m thinking \u{1b}[0m"),
        vec![UiEvent::Progress { cid: "c".to_string(), data: "thinking".to_string() }]
    );
    assert!(parse_stderr_line("c", " \u{1b}[0m ").is_empty());
}

#[test]
fn chunks_become_terminal_data() {
    let data = |stream: OutputStream, text: &str| {
        vec![UiEvent::PtyData { id: "pty_1".to_string(), stream, data: text.to_string() }]
    };
    assert_eq!(parse_pty_chunk("pty_1", OutputStream::Stdout, b"$ ls\n"), data(OutputStream::Stdout, "$ ls\n"));
    assert_eq!(parse_pty_chunk("pty_1", OutputStream::Stderr, b"oops"), data(OutputStream::Stderr, "oops"));
    assert_eq!(
        parse_pty_chunk("pty_1", OutputStream::Stdout, &[b'a', 0xff, b'b']),
        data(OutputStream::Stdout, "a\u{fffd}b")
    );
    assert_eq!(
        parse_pty_chunk("pty_1", OutputStream::Stderr, "héllo".as_bytes()),
        data(OutputStream::Stderr, "héllo")
    );
    assert!(parse_pty_chunk("pty_1", OutputStream::Stdout, b"").is_empty());
    assert!(parse_pty_chunk("pty_1", OutputStream::Stderr, b"").is_empty());
}

#[test]
fn stripped_text_is_cleaned_line_by_line() {
    assert_eq!(clean_lines("  a  \r\n\n  b\rc  "), "a\nb\nc");
    assert_eq!(clean_lines(" \u{a0}x\u{3000} "), "x");
    assert_eq!(clean_lines("\n\r\n"), "");
    assert_eq!(clean_lines("one line"), "one line");
    assert_eq!(clean_lines("\u{1b}[0m x"), "\u{1b}[0m x");
}

#[test]
fn white_space_is_the_unicode_property() {
    let listed = |c: char| {
        let n = c as u32;
        (0x09..=0x0d).contains(&n)
            || n == 0x20
            || n == 0x85
            || n == 0xa0
            || n == 0x1680
            || (0x2000..=0x200a).contains(&n)
            || n == 0x2028
            || n == 0x2029
            || n == 0x202f
            || n == 0x205f
            || n == 0x3000
    };
    let mut buffer = [0u8; 4];
    for n in 0..=0x10ffffu32 {
        if let Some(c) = char::from_u32(n) {
            assert_eq!(is_blank_text(c.encode_utf8(&mut buffer)), listed(c), "U+{n:04X}");
        }
    }
}

#[test]
fn sessions_coexist_and_are_listed() {
    let mut sessions: PtySessionRegistry<u32> = PtySessionRegistry::new();
    assert!(sessions.list().is_empty());
    assert_eq!(sessions.create("pty_1", 1), None);
    assert_eq!(sessions.create("pty_2", 2), None);
    assert_eq!(sessions.list(), vec!["pty_1", "pty_2"]);
    assert_eq!(sessions.lookup("pty_2"), Ok(&2));
    assert_eq!(sessions.lookup("pty_3"), Err(PtyError::NotFound));
    assert_eq!(sessions.create("pty_1", 3), Some(1));
    assert_eq!(sessions.lookup("pty_1"), Ok(&3));
}

#[test]
fn kill_takes_the_session_out() {
    let mut sessions: PtySessionRegistry<u32> = PtySessionRegistry::new();
    sessions.create("pty_1", 1);
    assert_eq!(sessions.kill("pty_1"), Ok(1));
    assert_eq!(sessions.kill("pty_1"), Err(PtyError::NotFound));
    assert!(sessions.list().is_empty());
    assert_eq!(finish_kill(true), Ok(()));
    assert_eq!(finish_kill(false), Err(PtyError::KillFailed));
    assert_eq!(finish_write(true), Ok(()));
    assert_eq!(finish_write(false), Err(PtyError::WriteFailed));
}

#[test]
fn terminal_errors_have_messages() {
    assert_eq!(PtyError::NotFound.message(), "Terminal not found");
    assert_eq!(PtyError::WriteFailed.message(), "Failed to write to terminal");
    assert_eq!(PtyError::KillFailed.message(), "Failed to stop terminal");
}

#[test]
fn terminal_monitor_tells_of_the_exit_once() {
    let mut sessions: PtySessionRegistry<u32> = PtySessionRegistry::new();
    sessions.create("pty_1", 1);
    sessions.create("pty_2", 2);
    assert!(matches!(sessions.monitor_step("pty_1", ProcessStatus::Running), MonitorStep::Wait));
    match sessions.monitor_step("pty_1", ProcessStatus::Exited(Some(130))) {
        MonitorStep::Finished { process, events } => {
            assert_eq!(process, 1);
            assert_eq!(events, vec![UiEvent::PtyExit { id: "pty_1".to_string(), exit_code: 130 }]);
        }
        _ => panic!("the monitor should have finished"),
    }
    assert!(matches!(sessions.monitor_step("pty_1", ProcessStatus::Exited(Some(130))), MonitorStep::Stop));
    assert!(matches!(sessions.monitor_step("pty_9", ProcessStatus::Running), MonitorStep::Stop));
    assert_eq!(sessions.list(), vec!["pty_2"]);
    match sessions.monitor_step("pty_2", ProcessStatus::Exited(None)) {
        MonitorStep::Finished { events, .. } => {
            assert_eq!(events, vec![UiEvent::PtyExit { id: "pty_2".to_string(), exit_code: -1 }]);
        }
        _ => panic!("the monitor should have finished"),
    }
    assert_eq!(PTY_POLL_MILLIS, 120);
}

#[test]
fn shell_falls_back_to_the_platform() {
    assert_eq!(shell_or_default(Some("zsh".to_string()), "bash"), "zsh");
    assert_eq!(shell_or_default(None, "bash"), "bash");
}

#[test]
fn registry_holds_each_key_once() {
    let mut registry: Registry<u8> = Registry::new();
    assert_eq!(registry.len(), 0);
    assert_eq!(registry.insert("a", 1), None);
    assert_eq!(registry.insert("b", 2), None);
    assert_eq!(registry.insert("a", 3), Some(1));
    assert_eq!(registry.len(), 2);
    assert_eq!(registry.list(), vec!["b", "a"]);
    assert_eq!(registry.get("a"), Some(&3));
    assert_eq!(registry.get("c"), None);
    assert!(registry.contains_key("b"));
    assert_eq!(registry.remove("b"), Some(2));
    assert_eq!(registry.remove("b"), None);
    assert_eq!(registry.list(), vec!["a"]);
}

#[test]
fn registry_removes_by_value() {
    let mut registry: Registry<String> = Registry::new();
    registry.insert("r1", "c1".to_string());
    registry.insert("r2", "c2".to_string());
    registry.insert("r3", "c1".to_string());
    registry.insert("r4", "c1".to_string());
    registry.remove_value("c1");
    assert_eq!(registry.list(), vec!["r2"]);
    registry.remove_value("c2");
    assert!(registry.list().is_empty());
}
