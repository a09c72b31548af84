use base64::Engine;
use codex_wui::auth::{parse_cached_credentials, parse_codex_user, parse_jwt_payload};
use codex_wui::commands::{
    code_or_unknown, command_failure, command_result, install_error_line, install_failed,
    install_finished, install_output_line, install_started, login_failure_text,
    logout_failure_text, plan_login, shell_failure, shell_result, working_directory,
    CommandOutput, InstallStatus,
};
use codex_wui::events::OutputStream;
use codex_wui::json::decode;
use codex_wui::models::{FileSearchResult, SearchResult};
use codex_wui::search::{is_ignored_dir, parse_search_results, search_files, search_url};
use codex_wui::teams::{
    build_teams_payload, teams_address_missing, teams_message_text, teams_reply,
    teams_request_failed, TeamsReply,
};
use codex_wui::json::encode;

fn token(claims: &str) -> String {
    let body = base64::engine::general_purpose::URL_SAFE_NO_PAD.encode(claims);
    format!("header.{body}.signature")
}

#[test]
fn token_payload_is_the_second_part() {
    let claims = parse_jwt_payload(&token(r#"{"email":"ann@example.com"}"#)).unwrap();
    assert_eq!(claims.str_at("email"), Some("ann@example.com"));
    let padded = base64::engine::general_purpose::URL_SAFE.encode(r#"{"a":"bc"}"#);
    assert!(padded.ends_with('='));
    let claims = parse_jwt_payload(&format!("h.{padded}")).unwrap();
    assert_eq!(claims.str_at("a"), Some("bc"));
    assert!(parse_jwt_payload("no-dots").is_none());
    assert!(parse_jwt_payload("a.!!!.c").is_none());
    assert!(parse_jwt_payload("a..c").is_none());
    let not_json = base64::engine::general_purpose::URL_SAFE_NO_PAD.encode("plain");
    assert!(parse_jwt_payload(&format!("a.{not_json}.c")).is_none());
}

#[test]
fn user_is_read_from_the_credentials() {
    let auth = format!(
        r#"{{"auth_mode":"chatgpt","tokens":{{"account_id":"acc-1","id_token":"{}"}}}}"#,
        token(r#"{"email":"ann@example.com","auth_provider":"google"}"#)
    );
    let user = parse_codex_user(&decode(&auth).unwrap());
    assert_eq!(user.id, "acc-1");
    assert_eq!(user.email, "ann@example.com");
    assert_eq!(user.name, "ann");
    assert_eq!(user.picture, "");
    assert_eq!(user.auth_mode, "chatgpt");
    assert_eq!(user.auth_provider, "google");
}

#[test]
fn user_falls_back_without_token() {
    let user = parse_codex_user(&decode(r#"{"auth_mode":"api_key"}"#).unwrap());
    assert_eq!(user.id, "codex-user");
    assert_eq!(user.email, "");
    assert_eq!(user.name, "codex-api_key");
    assert_eq!(user.auth_mode, "api_key");
    assert_eq!(user.auth_provider, "api_key");
    let user = parse_codex_user(&decode(r#"{"tokens":{"id_token":"broken"}}"#).unwrap());
    assert_eq!(user.name, "codex-unknown");
    assert_eq!(user.auth_mode, "unknown");
    assert_eq!(user.auth_provider, "");
    let user = parse_cached_credentials(r#"{"auth_mode":"x"}"#).unwrap();
    assert_eq!(user.name, "codex-x");
    assert!(parse_cached_credentials("not json").is_none());
}

#[test]
fn command_records_hold_output_and_code() {
    let result = command_result(true, b"out", &[b'e', 0xff], Some(0));
    assert!(result.success);
    assert_eq!(result.stdout, "out");
    assert_eq!(result.stderr, "e\u{fffd}");
    assert_eq!(result.exit_code, 0);
    assert_eq!(result.error, None);
    assert_eq!(command_result(false, b"", b"", None).exit_code, -1);
    let failure = command_failure("not found");
    assert!(!failure.success);
    assert_eq!(failure.exit_code, -1);
    assert_eq!(failure.error.as_deref(), Some("not found"));
    assert_eq!(code_or_unknown(Some(7)), 7);
    assert_eq!(code_or_unknown(None), -1);
}

#[test]
fn shell_records_show_what_was_written() {
    let outcome = shell_result("cmd_1", b"out", b"err", Some(2));
    assert!(!outcome.result.success);
    assert_eq!(outcome.result.command_id, "cmd_1");
    assert_eq!(outcome.result.output.as_deref(), Some("out"));
    assert_eq!(outcome.result.error_output.as_deref(), Some("err"));
    assert_eq!(outcome.result.exit_code, Some(2));
    assert_eq!(outcome.result.error, None);
    assert_eq!(
        outcome.outputs,
        vec![
            CommandOutput { command_id: "cmd_1".to_string(), stream: OutputStream::Stdout, data: "out".to_string() },
            CommandOutput { command_id: "cmd_1".to_string(), stream: OutputStream::Stderr, data: "err".to_string() },
        ]
    );
    let outcome = shell_result("cmd_2", b"", b"err", Some(0));
    assert!(outcome.result.success);
    assert_eq!(outcome.outputs.len(), 1);
    assert_eq!(outcome.outputs[0].stream, OutputStream::Stderr);
    assert!(shell_result("cmd_3", b"", b"", None).outputs.is_empty());
    assert_eq!(shell_result("cmd_3", b"", b"", None).result.exit_code, Some(-1));
    let failure = shell_failure("cmd_4", "denied");
    assert!(!failure.success);
    assert_eq!(failure.output, None);
    assert_eq!(failure.exit_code, Some(-1));
    assert_eq!(failure.error.as_deref(), Some("denied"));
    assert_eq!(working_directory("  ", "/conf"), "/conf");
    assert_eq!(working_directory("/asked", "/conf"), "/asked");
}

#[test]
fn installation_progress_rises_to_eighty() {
    let start = install_started();
    assert_eq!((start.status, start.message.as_str(), start.percent), (InstallStatus::Installing, "Installing Codex CLI...", 0));
    assert_eq!(install_error_line("   ", 3), None);
    let step = install_error_line("  fetching  ", 0).unwrap();
    assert_eq!((step.status, step.message.as_str(), step.percent), (InstallStatus::Installing, "fetching", 15));
    assert_eq!(install_error_line("x", 12).unwrap().percent, 75);
    assert_eq!(install_error_line("x", 13).unwrap().percent, 80);
    assert_eq!(install_error_line("x", 14).unwrap().percent, 80);
    assert_eq!(install_error_line("x", u64::MAX).unwrap().percent, 80);
    assert_eq!(install_output_line(""), None);
    let step = install_output_line(" added 1 package ").unwrap();
    assert_eq!((step.message.as_str(), step.percent), ("added 1 package", 85));
    let done = install_finished(true, Some(0));
    assert_eq!((done.status, done.message.as_str(), done.percent), (InstallStatus::Complete, "Codex CLI installed successfully", 100));
    let failed = install_finished(false, Some(1));
    assert_eq!((failed.status, failed.message.as_str(), failed.percent), (InstallStatus::Error, "Install failed: exit 1", 0));
    assert_eq!(install_finished(false, None).message, "Install failed: exit -1");
    assert_eq!(
        install_failed(true, "os error").message,
        "npm executable was not found. Please install Node.js and make sure npm is available in PATH."
    );
    assert_eq!(install_failed(false, "os error").message, "os error");
}

#[test]
fn login_is_planned_by_method() {
    let plan = plan_login(None, None).unwrap();
    assert_eq!(plan.method, "browser");
    assert_eq!(plan.args, vec!["login"]);
    assert_eq!(plan.stdin_line, None);
    let plan = plan_login(Some("Device-Auth"), Some("ignored")).unwrap();
    assert_eq!(plan.method, "device-auth");
    assert_eq!(plan.args, vec!["login", "--device-auth"]);
    assert_eq!(plan.stdin_line, None);
    let plan = plan_login(Some("API-KEY"), Some("  sk-1  ")).unwrap();
    assert_eq!(plan.method, "api-key");
    assert_eq!(plan.args, vec!["login", "--with-api-key"]);
    assert_eq!(plan.stdin_line.as_deref(), Some("sk-1\n"));
    assert_eq!(
        plan_login(Some("api-key"), Some("   ")),
        Err("API key login requires a non-empty apiKey value".to_string())
    );
    assert!(plan_login(Some("api-key"), None).is_err());
    assert_eq!(login_failure_text(b"bad", b"out"), "bad");
    assert_eq!(login_failure_text(b"", b"out"), "out");
    assert_eq!(logout_failure_text(Some(2)), "codex logout failed with exit code 2");
    assert_eq!(logout_failure_text(None), "codex logout failed with exit code -1");
}

#[test]
fn search_address_is_percent_encoded() {
    assert_eq!(
        search_url("a b&c=d/é~z"),
        "https://api.duckduckgo.com/?q=a%20b%26c%3Dd%2F%C3%A9~z&format=json&no_html=1"
    );
    assert_eq!(search_url(""), "https://api.duckduckgo.com/?q=&format=json&no_html=1");
    assert_eq!(search_url("Az09-_."), "https://api.duckduckgo.com/?q=Az09-_.&format=json&no_html=1");
}

fn hit(title: &str, url: &str, snippet: &str) -> SearchResult {
    SearchResult { title: title.to_string(), url: url.to_string(), snippet: snippet.to_string() }
}

#[test]
fn search_hits_come_from_abstract_and_topics() {
    let data = decode(
        r#"{"Abstract":"Rust is a language","Heading":"Rust","AbstractURL":"https://r",
            "RelatedTopics":[
              {"Text":"Cargo - the build tool - more","FirstURL":"https://c"},
              {"Text":"no address"},
              {"Name":"group","Topics":[]},
              {"Text":"Plain","FirstURL":"https://p"},
              {"Text":"5 - five","FirstURL":"https://5"},
              {"Text":"6 - six","FirstURL":"https://6"}
            ]}"#,
    )
    .unwrap();
    assert_eq!(
        parse_search_results(&data, "rust"),
        vec![
            hit("Rust", "https://r", "Rust is a language"),
            hit("Cargo", "https://c", "Cargo - the build tool - more"),
            hit("Plain", "https://p", "Plain"),
            hit("5", "https://5", "5 - five"),
        ]
    );
    let data = decode(r#"{"Abstract":"text","RelatedTopics":"none"}"#).unwrap();
    assert_eq!(parse_search_results(&data, "the query"), vec![hit("the query", "", "text")]);
    let data = decode(r#"{"Abstract":"","Heading":"H"}"#).unwrap();
    assert!(parse_search_results(&data, "q").is_empty());
    assert!(parse_search_results(&decode("{}").unwrap(), "q").is_empty());
}

fn file(name: &str, relative_path: &str, is_directory: bool) -> FileSearchResult {
    FileSearchResult {
        name: name.to_string(),
        path: format!("/w/{relative_path}"),
        relative_path: relative_path.to_string(),
        is_directory,
    }
}

#[test]
fn file_hits_are_chosen_and_ranked() {
    let files = vec![
        file("main.rs", "src/main.rs", false),
        file("readme.md", "readme.md", false),
        file("Main", "deep/down/Main", false),
        file("main", "src/bin/main", true),
        file("domain.rs", "src/domain.rs", false),
        file("xmain", "xmain", true),
        file("main", "main", false),
        file("lib.rs", "main/lib.rs", false),
    ];
    let hits: Vec<String> = search_files(&files, "MAIN").into_iter().map(|f| f.relative_path).collect();
    assert_eq!(
        hits,
        vec!["src/bin/main", "xmain", "main", "deep/down/Main", "src/main.rs", "main/lib.rs", "src/domain.rs"]
    );
    assert!(search_files(&files, "absent").is_empty());
    assert_eq!(search_files(&files, "").len(), files.len());
}

#[test]
fn file_hits_are_twenty_at_most_and_keep_their_order() {
    let files: Vec<FileSearchResult> = (0..30).map(|i| file(&format!("f{i:02}"), &format!("d/f{i:02}"), false)).collect();
    let hits: Vec<String> = search_files(&files, "f").into_iter().map(|f| f.name).collect();
    let expected: Vec<String> = (0..20).map(|i| format!("f{i:02}")).collect();
    assert_eq!(hits, expected);
}

#[test]
fn build_and_hidden_directories_are_ignored() {
    for name in ["node_modules", ".git", "dist", "dist-electron", ".next", ".vite", "coverage", "__pycache__", ".cache", ".hidden", "."] {
        assert!(is_ignored_dir(name), "{name}");
    }
    for name in ["src", "distx", "node_module", "a.git", ""] {
        assert!(!is_ignored_dir(name), "{name}");
    }
}

#[test]
fn long_messages_are_cut() {
    assert_eq!(teams_message_text("short").as_deref(), Some("short"));
    let exact = "a".repeat(24000);
    assert_eq!(teams_message_text(&exact).as_deref(), Some(exact.as_str()));
    let long = "a".repeat(24001);
    assert_eq!(
        teams_message_text(&long),
        Some(format!("{}...\n\n(truncated — original length: 24001 chars)", "a".repeat(24000)))
    );
    let accented = format!("{}é", "a".repeat(23998));
    assert_eq!(accented.len(), 24000);
    assert_eq!(teams_message_text(&accented).as_deref(), Some(accented.as_str()));
    let split = format!("{}éb", "a".repeat(23999));
    assert_eq!(teams_message_text(&split), None);
    let fits = format!("{}éb", "a".repeat(23998));
    assert_eq!(
        teams_message_text(&fits),
        Some(format!("{}é...\n\n(truncated — original length: 24001 chars)", "a".repeat(23998)))
    );
}

#[test]
fn card_carries_title_and_text() {
    let payload = build_teams_payload("Title", "Body");
    let expected: serde_json::Value = serde_json::from_str(
        r#"{
        "type": "message",
        "attachments": [{
            "contentType": "application/vnd.microsoft.card.adaptive",
            "contentUrl": null,
            "content": {
                "$schema": "http://adaptivecards.io/schemas/adaptive-card.json",
                "type": "AdaptiveCard",
                "version": "1.4",
                "body": [
                    { "type": "TextBlock", "text": "Title", "weight": "Bolder", "size": "Medium", "wrap": true },
                    { "type": "TextBlock", "text": "Body", "wrap": true, "fontType": "Default" },
                    { "type": "TextBlock", "text": "— Sent from Codex WUI", "isSubtle": true, "size": "Small", "horizontalAlignment": "Right" }
                ]
            }
        }]
    }"#,
    )
    .unwrap();
    assert_eq!(encode(&payload), expected.to_string());
}

#[test]
fn channel_answers_are_told_apart() {
    assert_eq!(teams_reply(200, "1"), TeamsReply::Sent { status: 200 });
    assert_eq!(teams_reply(299, ""), TeamsReply::Sent { status: 299 });
    assert_eq!(teams_reply(300, "moved"), TeamsReply::Failed { error: "HTTP 300: moved".to_string() });
    assert_eq!(teams_reply(199, ""), TeamsReply::Failed { error: "HTTP 199: ".to_string() });
    assert_eq!(teams_reply(404, "gone"), TeamsReply::Failed { error: "HTTP 404: gone".to_string() });
    assert_eq!(teams_request_failed("timeout"), TeamsReply::Failed { error: "Request failed: timeout".to_string() });
    assert_eq!(teams_address_missing("  "), Some(TeamsReply::Failed { error: "Webhook URL is empty".to_string() }));
    assert_eq!(teams_address_missing("https://x"), None);
}
