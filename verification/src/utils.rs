//! Identifiers, paths and the agent's command line.

use crate::models::{HistoryMessage, ModelInfo, ModelInfoView, RuntimeConfig};
use crate::text::{
    chars_of, decimal_string, decimal_text, is_blank, is_blank_text, is_whitespace_char, join,
    joined, owned, push_decimal, push_text, text_of_range, texts, trim, trimmed,
};
use vstd::prelude::*;

verus! {

/// `SystemTime::now`, as the milliseconds since the Unix epoch, or zero where
/// the clock stands before it. Nothing is known of the result.
#[verifier::external_body]
fn unix_millis() -> u128 {
    std::time::SystemTime::now().duration_since(
        std::time::UNIX_EPOCH,
    ).unwrap_or_default().as_millis()
}

/// Whether `c` separates the parts of a path on some platform.
pub open spec fn is_path_separator(c: char) -> bool {
    c == '/' || c == '\\'
}

/// Whether `rest` is a relative path on every platform: it holds no colon
/// and does not begin with a separator.
pub open spec fn relative_everywhere(rest: Seq<char>) -> bool {
    (forall|i: int| 0 <= i < rest.len() ==> rest[i] != ':') && (rest.len() == 0
        || !is_path_separator(rest[0]))
}

/// Whether `base` begins like a path that a platform takes verbatim: with two
/// separators and a question mark.
pub open spec fn begins_verbatim(base: Seq<char>) -> bool {
    base.len() >= 3 && is_path_separator(base[0]) && is_path_separator(base[1]) && base[2] == '?'
}

/// Whether `r` is `base` extended by `rest`: `base`, then one separator or
/// none, then `rest`.
pub open spec fn extends_path(base: Seq<char>, rest: Seq<char>, r: Seq<char>) -> bool {
    r == base + rest || r == base + seq!['/'] + rest || r == base + seq!['\\'] + rest
}

/// `Path::join` of `rest` onto `base`, as text. What it gives depends on the
/// platform's path rules. On every platform a `rest` that is relative there
/// extends a `base` that is not taken verbatim: the result is `base`, the
/// platform's separator where `base` needs one, and `rest`. Of any other
/// `rest` or `base` nothing is stated.
#[verifier::external_body]
fn join_path(base: &str, rest: &str) -> (r: String)
    ensures
        relative_everywhere(rest@) && !begins_verbatim(base@) ==> extends_path(base@, rest@, r@),
{
    std::path::Path::new(base).join(rest).to_string_lossy().to_string()
}

/// The time in whole seconds since the Unix epoch, in decimal digits.
pub fn now_iso() -> (r: String)
    ensures
        exists|secs: nat| r@ == decimal_text(secs),
{
    let secs = unix_millis() / 1000;
    let r = decimal_string(secs);
    assert(r@ == decimal_text(secs as nat));
    r
}

/// The identifier made of a prefix, a time in milliseconds and a sequence
/// number, joined by `_`.
pub open spec fn id_text(prefix: Seq<char>, millis: nat, seq: nat) -> Seq<char> {
    prefix + seq!['_'] + decimal_text(millis) + seq!['_'] + decimal_text(seq)
}

/// The identifier for `prefix`, the time `millis` and the number `seq`.
pub fn format_id(prefix: &str, millis: u128, seq: u64) -> (r: String)
    ensures
        r@ == id_text(prefix@, millis as nat, seq as nat),
{
    let mut r = owned(prefix);
    r.push('_');
    push_decimal(&mut r, millis);
    r.push('_');
    push_decimal(&mut r, seq as u128);
    assert(r@ == id_text(prefix@, millis as nat, seq as nat)) by {
        assert(prefix@.push('_') == prefix@ + seq!['_']);
        assert((prefix@ + seq!['_'] + decimal_text(millis as nat)).push('_') == prefix@
            + seq!['_'] + decimal_text(millis as nat) + seq!['_']);
    }
    r
}

/// A fresh identifier: `prefix`, the current time in milliseconds and the
/// caller's sequence number `seq`.
pub fn generate_id(prefix: &str, seq: u64) -> (r: String)
    ensures
        exists|millis: nat| r@ == id_text(prefix@, millis, seq as nat),
{
    let millis = unix_millis();
    let r = format_id(prefix, millis, seq);
    assert(r@ == id_text(prefix@, millis as nat, seq as nat));
    r
}

/// How a path refers to the home directory.
pub enum TildeForm {
    /// It does not.
    Plain,
    /// It is `~` alone.
    Home,
    /// It is `~/` or `~\` followed by the rest.
    Under(Seq<char>),
}

/// How `path` refers to the home directory.
pub open spec fn tilde_form(path: Seq<char>) -> TildeForm {
    if path.len() == 1 && path[0] == '~' {
        TildeForm::Home
    } else if path.len() >= 2 && path[0] == '~' && (path[1] == '/' || path[1] == '\\') {
        TildeForm::Under(path.subrange(2, path.len() as int))
    } else {
        TildeForm::Plain
    }
}

/// Whether `r` may stand for `path` once `~` has been replaced by `home`.
/// With a home directory, what stands for `~/rest` is the platform's join of
/// the two: the home directory extended by `rest`, where `rest` is relative
/// on every platform and the home directory is not taken verbatim.
pub open spec fn expands_to(path: Seq<char>, home: Option<Seq<char>>, r: Seq<char>) -> bool {
    match tilde_form(path) {
        TildeForm::Plain => r == path,
        TildeForm::Home => r == match home {
            Some(h) => h,
            None => path,
        },
        TildeForm::Under(rest) => match home {
            Some(h) => relative_everywhere(rest) && !begins_verbatim(h) ==> extends_path(
                h,
                rest,
                r,
            ),
            None => r == path,
        },
    }
}

/// The view of an optional string slice.
pub open spec fn opt_text(s: Option<&str>) -> Option<Seq<char>> {
    match s {
        Some(s) => Some(s@),
        None => None,
    }
}

/// Replaces a leading `~` of `path` by the home directory `home`; without one
/// the path stays as it is.
pub fn expand_tilde_path(path: &str, home: Option<&str>) -> (r: String)
    ensures
        expands_to(path@, opt_text(home), r@),
{
    let v = chars_of(path);
    if v.len() == 1 && v[0] == '~' {
        return match home {
            Some(h) => owned(h),
            None => owned(path),
        };
    }
    if v.len() >= 2 && v[0] == '~' && (v[1] == '/' || v[1] == '\\') {
        if let Some(h) = home {
            let rest = text_of_range(&v, 2, v.len());
            return join_path(h, rest.as_str());
        }
    }
    owned(path)
}

/// The models on offer.
pub fn default_models() -> (r: Vec<ModelInfo>)
    ensures
        r@.len() == 4,
        r@[0]@ == model_view("codex"@, "GPT-5.3-Codex"@, "Most capable coding model"@),
        r@[1]@ == model_view("o3"@, "O3"@, "Advanced reasoning model"@),
        r@[2]@ == model_view("o4-mini"@, "O4.1-mini"@, "Fast and efficient"@),
        r@[3]@ == model_view("gpt-4.1"@, "GPT-4.1"@, "General purpose model"@),
{
    let mut r: Vec<ModelInfo> = Vec::new();
    r.push(
        ModelInfo {
            id: owned("codex"),
            name: owned("GPT-5.3-Codex"),
            description: owned("Most capable coding model"),
        },
    );
    r.push(
        ModelInfo {
            id: owned("o3"),
            name: owned("O3"),
            description: owned("Advanced reasoning model"),
        },
    );
    r.push(
        ModelInfo {
            id: owned("o4-mini"),
            name: owned("O4.1-mini"),
            description: owned("Fast and efficient"),
        },
    );
    r.push(
        ModelInfo {
            id: owned("gpt-4.1"),
            name: owned("GPT-4.1"),
            description: owned("General purpose model"),
        },
    );
    r
}

/// The model with the given identifier, name and description.
pub open spec fn model_view(id: Seq<char>, name: Seq<char>, description: Seq<char>) -> ModelInfoView {
    ModelInfoView { id, name, description }
}

/// Where the scan of an argument line stands: the arguments that are
/// complete, the one being read, and the quote that is open.
pub struct ArgScan {
    pub args: Seq<Seq<char>>,
    pub current: Seq<char>,
    pub quote: Option<char>,
}

/// The scan after one more character. Inside quotes every character but the
/// closing quote belongs to the argument; outside, a quote opens, white space
/// ends the argument being read, and any other character belongs to it.
pub open spec fn scan_step(st: ArgScan, ch: char) -> ArgScan {
    match st.quote {
        Some(q) => if ch == q {
            ArgScan { args: st.args, current: st.current, quote: None }
        } else {
            ArgScan { args: st.args, current: st.current.push(ch), quote: st.quote }
        },
        None => if ch == '"' || ch == '\'' {
            ArgScan { args: st.args, current: st.current, quote: Some(ch) }
        } else if is_whitespace_char(ch) {
            if st.current.len() > 0 {
                ArgScan { args: st.args.push(st.current), current: Seq::empty(), quote: None }
            } else {
                st
            }
        } else {
            ArgScan { args: st.args, current: st.current.push(ch), quote: None }
        },
    }
}

/// The scan after all of `raw`.
pub open spec fn scan_args(raw: Seq<char>) -> ArgScan
    decreases raw.len(),
{
    if raw.len() == 0 {
        ArgScan { args: Seq::empty(), current: Seq::empty(), quote: None }
    } else {
        scan_step(scan_args(raw.drop_last()), raw.last())
    }
}

/// The arguments that `raw` holds: the complete ones, then the one that the
/// end of the line cuts off, if it is not empty.
pub open spec fn extra_args(raw: Seq<char>) -> Seq<Seq<char>> {
    let st = scan_args(raw);
    if st.current.len() > 0 {
        st.args.push(st.current)
    } else {
        st.args
    }
}

/// Appends `arg` to `args`.
fn push_arg(args: &mut Vec<String>, arg: String)
    ensures
        texts(final(args)@) == texts(old(args)@).push(arg@),
{
    args.push(arg);
    assert(texts(args@) =~= texts(old(args)@).push(arg@));
}

/// Splits a line of extra arguments at white space; single and double quotes
/// keep white space inside one argument and are themselves dropped.
pub fn parse_extra_args(raw: &str) -> (r: Vec<String>)
    ensures
        texts(r@) == extra_args(raw@),
{
    let v = chars_of(raw);
    let mut args: Vec<String> = Vec::new();
    let mut current = String::new();
    let mut quote: Option<char> = None;
    let mut i: usize = 0;
    assert(texts(args@) =~= Seq::<Seq<char>>::empty());
    assert(v@.take(0) =~= Seq::<char>::empty());
    while i < v.len()
        invariant
            i <= v.len(),
            v@ == raw@,
            scan_args(v@.take(i as int)) == (ArgScan {
                args: texts(args@),
                current: current@,
                quote,
            }),
        decreases v.len() - i,
    {
        let ch = v[i];
        proof {
            let upto = v@.take(i + 1);
            assert(upto.drop_last() == v@.take(i as int));
            assert(upto.last() == ch);
        }
        match quote {
            Some(q) => {
                if ch == q {
                    quote = None;
                } else {
                    current.push(ch);
                }
            },
            None => {
                if ch == '"' || ch == '\'' {
                    quote = Some(ch);
                } else if ch.is_whitespace() {
                    if !current.as_str().is_empty() {
                        push_arg(&mut args, current);
                        current = String::new();
                    }
                } else {
                    current.push(ch);
                }
            },
        }
        i += 1;
    }
    assert(v@.take(v.len() as int) == v@);
    if !current.as_str().is_empty() {
        push_arg(&mut args, current);
    }
    args
}

/// The role that a history message is shown under: `Assistant` for the role
/// `assistant`, `User` for every other role and for none.
pub open spec fn role_label(m: HistoryMessage) -> Seq<char> {
    let role = match m.role {
        Some(r) => r@,
        None => "user"@,
    };
    if role == "assistant"@ {
        "Assistant"@
    } else {
        "User"@
    }
}

/// One line of the history: the role's label, `: ` and the content.
pub open spec fn history_line(m: HistoryMessage) -> Seq<char> {
    role_label(m) + ": "@ + match m.content {
        Some(c) => c@,
        None => Seq::empty(),
    }
}

/// The last ten messages of a history.
pub open spec fn recent_history(h: Seq<HistoryMessage>) -> Seq<HistoryMessage> {
    if h.len() > 10 {
        h.subrange(h.len() - 10, h.len() as int)
    } else {
        h
    }
}

/// The lines of the messages `h`.
pub open spec fn history_lines(h: Seq<HistoryMessage>) -> Seq<Seq<char>> {
    Seq::new(h.len(), |i: int| history_line(h[i]))
}

/// The prompt handed to the agent: the question alone, or, after a history
/// that is not empty, its last ten lines followed by the question.
pub open spec fn full_prompt_text(prompt: Seq<char>, history: Option<Seq<HistoryMessage>>) -> Seq<
    char,
> {
    match history {
        Some(h) => if h.len() > 0 {
            "[Previous conversation]\n"@ + joined(history_lines(recent_history(h)), "\n"@)
                + "\n\n[Current question]\n"@ + prompt
        } else {
            prompt
        },
        None => prompt,
    }
}

/// The sandbox that is asked for: one of the two that can be named, else the
/// workspace sandbox.
pub open spec fn sandbox_word(s: Seq<char>) -> Seq<char> {
    if s == "read-only"@ {
        "read-only"@
    } else if s == "danger-full-access"@ {
        "danger-full-access"@
    } else {
        "workspace-write"@
    }
}

/// The approval policy that is asked for: one of the three that can be named,
/// else approval on request.
pub open spec fn approval_word(s: Seq<char>) -> Seq<char> {
    if s == "untrusted"@ {
        "untrusted"@
    } else if s == "on-failure"@ {
        "on-failure"@
    } else if s == "never"@ {
        "never"@
    } else {
        "on-request"@
    }
}

/// The arguments that name the model, if one is set.
pub open spec fn model_args(cfg: RuntimeConfig) -> Seq<Seq<char>> {
    if cfg.model@.len() > 0 {
        seq!["-m"@, cfg.model@]
    } else {
        Seq::empty()
    }
}

/// The arguments that name the profile, if one is set.
pub open spec fn profile_args(cfg: RuntimeConfig) -> Seq<Seq<char>> {
    if !is_blank(cfg.cli_options.profile@) {
        seq!["-p"@, trimmed(cfg.cli_options.profile@)]
    } else {
        Seq::empty()
    }
}

/// The arguments on sandbox and approvals: one flag that bypasses both, or
/// the sandbox and the approval policy.
pub open spec fn safety_args(cfg: RuntimeConfig) -> Seq<Seq<char>> {
    if cfg.yolo_mode {
        seq!["--dangerously-bypass-approvals-and-sandbox"@]
    } else {
        seq![
            "-s"@,
            sandbox_word(cfg.cli_options.sandbox@),
            "--config"@,
            "approval_policy=\""@ + approval_word(cfg.cli_options.ask_for_approval@) + "\""@,
        ]
    }
}

/// The flag that allows web search, if it is allowed.
pub open spec fn search_args(cfg: RuntimeConfig) -> Seq<Seq<char>> {
    if cfg.cli_options.enable_web_search {
        seq!["--search"@]
    } else {
        Seq::empty()
    }
}

/// The flag that skips the repository check, if it is to be skipped.
pub open spec fn repo_check_args(cfg: RuntimeConfig) -> Seq<Seq<char>> {
    if cfg.cli_options.skip_git_repo_check {
        seq!["--skip-git-repo-check"@]
    } else {
        Seq::empty()
    }
}

/// The agent's argument vector for the settings `cfg`, the working directory
/// `run_cwd` and the prompt `full_prompt`.
pub open spec fn exec_args(cfg: RuntimeConfig, run_cwd: Seq<char>, full_prompt: Seq<char>) -> Seq<
    Seq<char>,
> {
    seq!["exec"@, "--json"@] + model_args(cfg) + profile_args(cfg) + safety_args(cfg)
        + search_args(cfg) + seq!["-C"@, run_cwd] + repo_check_args(cfg) + extra_args(
        cfg.cli_options.extra_args@,
    ) + seq![full_prompt]
}

/// The working directory that is asked for: the override, unless it is blank.
pub open spec fn requested_cwd(cfg: RuntimeConfig) -> Seq<char> {
    if is_blank(cfg.cli_options.cwd_override@) {
        cfg.cwd@
    } else {
        cfg.cli_options.cwd_override@
    }
}

/// The view of an optional history.
pub open spec fn history_view(history: Option<Vec<HistoryMessage>>) -> Option<Seq<HistoryMessage>> {
    match history {
        Some(h) => Some(h@),
        None => None,
    }
}

/// Appends the word `word` to `args`.
fn push_word(args: &mut Vec<String>, word: &str)
    ensures
        texts(final(args)@) == texts(old(args)@).push(word@),
{
    push_arg(args, owned(word));
}

/// The line of one history message.
fn history_line_of(m: &HistoryMessage) -> (r: String)
    ensures
        r@ == history_line(*m),
{
    let assistant = match &m.role {
        Some(role) => role.as_str().eq("assistant"),
        None => "user".eq("assistant"),
    };
    let mut line = if assistant {
        owned("Assistant")
    } else {
        owned("User")
    };
    push_text(&mut line, ": ");
    match &m.content {
        Some(c) => {
            push_text(&mut line, c.as_str());
        },
        None => {
            assert(line@ + Seq::<char>::empty() == line@);
        },
    }
    line
}

/// The prompt handed to the agent: the question, after the last ten lines of
/// the history if there is one.
pub fn build_full_prompt(prompt: &str, history: &Option<Vec<HistoryMessage>>) -> (r: String)
    ensures
        r@ == full_prompt_text(prompt@, history_view(*history)),
{
    match history {
        Some(hist) => {
            if hist.len() == 0 {
                return owned(prompt);
            }
            let start: usize = if hist.len() > 10 {
                hist.len() - 10
            } else {
                0
            };
            let ghost recent = recent_history(hist@);
            assert(recent == hist@.subrange(start as int, hist.len() as int));
            let mut lines: Vec<String> = Vec::new();
            let mut i: usize = start;
            while i < hist.len()
                invariant
                    start <= i <= hist.len(),
                    recent == hist@.subrange(start as int, hist.len() as int),
                    texts(lines@) == history_lines(recent).take(i - start),
                decreases hist.len() - i,
            {
                let line = history_line_of(&hist[i]);
                assert(recent[i - start] == hist@[i as int]);
                push_arg(&mut lines, line);
                assert(history_lines(recent).take(i + 1 - start) =~= history_lines(recent).take(
                    i - start,
                ).push(history_line(recent[i - start])));
                i += 1;
            }
            assert(history_lines(recent).take(recent.len() as int) == history_lines(recent));
            let mut r = owned("[Previous conversation]\n");
            let body = join(&lines, "\n");
            push_text(&mut r, body.as_str());
            push_text(&mut r, "\n\n[Current question]\n");
            push_text(&mut r, prompt);
            r
        },
        None => owned(prompt),
    }
}

/// Appends the arguments that name the model.
fn push_model_args(args: &mut Vec<String>, cfg: &RuntimeConfig)
    ensures
        texts(final(args)@) == texts(old(args)@) + model_args(*cfg),
{
    if !cfg.model.as_str().is_empty() {
        push_word(args, "-m");
        push_word(args, cfg.model.as_str());
    }
    assert(texts(args@) =~= texts(old(args)@) + model_args(*cfg));
}

/// Appends the arguments that name the profile.
fn push_profile_args(args: &mut Vec<String>, cfg: &RuntimeConfig)
    ensures
        texts(final(args)@) == texts(old(args)@) + profile_args(*cfg),
{
    if !is_blank_text(cfg.cli_options.profile.as_str()) {
        push_word(args, "-p");
        push_arg(args, trim(cfg.cli_options.profile.as_str()));
    }
    assert(texts(args@) =~= texts(old(args)@) + profile_args(*cfg));
}

/// Appends the arguments on sandbox and approvals.
fn push_safety_args(args: &mut Vec<String>, cfg: &RuntimeConfig)
    ensures
        texts(final(args)@) == texts(old(args)@) + safety_args(*cfg),
{
    if cfg.yolo_mode {
        push_word(args, "--dangerously-bypass-approvals-and-sandbox");
    } else {
        let sandbox = cfg.cli_options.sandbox.as_str();
        let sandbox_arg = if sandbox.eq("read-only") {
            "read-only"
        } else if sandbox.eq("danger-full-access") {
            "danger-full-access"
        } else {
            "workspace-write"
        };
        push_word(args, "-s");
        push_word(args, sandbox_arg);
        let policy = cfg.cli_options.ask_for_approval.as_str();
        let policy_arg = if policy.eq("untrusted") {
            "untrusted"
        } else if policy.eq("on-failure") {
            "on-failure"
        } else if policy.eq("never") {
            "never"
        } else {
            "on-request"
        };
        push_word(args, "--config");
        let mut setting = owned("approval_policy=\"");
        push_text(&mut setting, policy_arg);
        push_text(&mut setting, "\"");
        push_arg(args, setting);
    }
    assert(texts(args@) =~= texts(old(args)@) + safety_args(*cfg));
}

/// Appends the flag that allows web search.
fn push_search_args(args: &mut Vec<String>, cfg: &RuntimeConfig)
    ensures
        texts(final(args)@) == texts(old(args)@) + search_args(*cfg),
{
    if cfg.cli_options.enable_web_search {
        push_word(args, "--search");
    }
    assert(texts(args@) =~= texts(old(args)@) + search_args(*cfg));
}

/// Appends the flag that skips the repository check.
fn push_repo_check_args(args: &mut Vec<String>, cfg: &RuntimeConfig)
    ensures
        texts(final(args)@) == texts(old(args)@) + repo_check_args(*cfg),
{
    if cfg.cli_options.skip_git_repo_check {
        push_word(args, "--skip-git-repo-check");
    }
    assert(texts(args@) =~= texts(old(args)@) + repo_check_args(*cfg));
}

/// Appends the words `words`.
fn push_words(args: &mut Vec<String>, words: &Vec<String>)
    ensures
        texts(final(args)@) == texts(old(args)@) + texts(words@),
{
    let mut i: usize = 0;
    assert(texts(args@) =~= texts(old(args)@) + texts(words@).take(0));
    while i < words.len()
        invariant
            i <= words.len(),
            texts(args@) == texts(old(args)@) + texts(words@).take(i as int),
        decreases words.len() - i,
    {
        let ghost before = texts(args@);
        push_word(args, words[i].as_str());
        assert(texts(words@).take(i + 1) =~= texts(words@).take(i as int).push(words@[i as int]@));
        assert(before.push(words@[i as int]@) =~= texts(old(args)@) + texts(words@).take(i + 1));
        i += 1;
    }
    assert(texts(words@).take(words.len() as int) == texts(words@));
}

/// The agent's argument vector for the settings `cfg`, the working directory
/// `run_cwd` and the prompt `full_prompt`.
pub fn build_exec_args(cfg: &RuntimeConfig, run_cwd: &str, full_prompt: &str) -> (args: Vec<String>)
    ensures
        texts(args@) == exec_args(*cfg, run_cwd@, full_prompt@),
{
    let mut args: Vec<String> = Vec::new();
    assert(texts(args@) =~= Seq::<Seq<char>>::empty());
    push_word(&mut args, "exec");
    push_word(&mut args, "--json");
    assert(texts(args@) =~= seq!["exec"@, "--json"@]);
    push_model_args(&mut args, cfg);
    push_profile_args(&mut args, cfg);
    push_safety_args(&mut args, cfg);
    push_search_args(&mut args, cfg);
    let ghost before_cwd = texts(args@);
    push_word(&mut args, "-C");
    push_word(&mut args, run_cwd);
    assert(texts(args@) =~= before_cwd + seq!["-C"@, run_cwd@]);
    push_repo_check_args(&mut args, cfg);
    let extra = parse_extra_args(cfg.cli_options.extra_args.as_str());
    push_words(&mut args, &extra);
    let ghost before_prompt = texts(args@);
    push_word(&mut args, full_prompt);
    assert(texts(args@) =~= before_prompt + seq![full_prompt@]);
    args
}

/// What a launch of the agent is given: the full prompt, the working
/// directory and the argument vector.
pub fn build_codex_exec_args(
    prompt: &str,
    cfg: &RuntimeConfig,
    history: Option<Vec<HistoryMessage>>,
    home: Option<&str>,
) -> (r: (String, String, Vec<String>))
    ensures
        r.0@ == full_prompt_text(prompt@, history_view(history)),
        expands_to(requested_cwd(*cfg), opt_text(home), r.1@),
        texts(r.2@) == exec_args(*cfg, r.1@, r.0@),
{
    let full_prompt = build_full_prompt(prompt, &history);
    let run_cwd = if is_blank_text(cfg.cli_options.cwd_override.as_str()) {
        expand_tilde_path(cfg.cwd.as_str(), home)
    } else {
        expand_tilde_path(cfg.cli_options.cwd_override.as_str(), home)
    };
    let args = build_exec_args(cfg, run_cwd.as_str(), full_prompt.as_str());
    (full_prompt, run_cwd, args)
}

/// What `regex::Regex::replace_all` gives for the text `text` once every
/// match of the expression `pattern` has been replaced by `replacement`, or
/// nothing where `regex::Regex::new` takes `pattern` for no expression.
pub uninterp spec fn regex_replaced(
    pattern: Seq<char>,
    text: Seq<char>,
    replacement: Seq<char>,
) -> Option<Seq<char>>;

/// `regex::Regex::new` on `pattern`, then `regex::Regex::replace_all` on
/// `text` with `replacement`: the result depends on the three texts alone.
#[verifier::external_body]
fn regex_replace_all(pattern: &str, text: &str, replacement: &str) -> (r: Option<String>)
    ensures
        crate::json::text_of_owned(r) == regex_replaced(pattern@, text@, replacement@),
{
    match regex::Regex::new(pattern) {
        Ok(re) => Some(re.replace_all(text, replacement).into_owned()),
        Err(_) => None,
    }
}

/// The expression for one ANSI escape sequence that sets colours or moves
/// the cursor.
pub open spec fn ansi_escape_pattern() -> Seq<char> {
    r"\x1B\[[0-9;]*[a-zA-Z]"@
}

/// `input` without its ANSI escape sequences.
pub open spec fn without_ansi(input: Seq<char>) -> Seq<char> {
    match regex_replaced(ansi_escape_pattern(), input, Seq::empty()) {
        Some(s) => s,
        None => input,
    }
}

/// Whether `c` ends a line: a line feed or a carriage return.
pub open spec fn is_line_break(c: char) -> bool {
    c == '\n' || c == '\r'
}

/// The lines of `s`: what stands between its line breaks. A text without
/// line break is one line.
pub open spec fn split_lines(s: Seq<char>) -> Seq<Seq<char>>
    decreases s.len(),
{
    if s.len() == 0 {
        seq![Seq::empty()]
    } else {
        let before = split_lines(s.drop_last());
        if is_line_break(s.last()) {
            before.push(Seq::empty())
        } else {
            before.drop_last().push(before.last().push(s.last()))
        }
    }
}

/// The lines `lines`, each trimmed, without those that are then empty.
pub open spec fn trimmed_lines(lines: Seq<Seq<char>>) -> Seq<Seq<char>>
    decreases lines.len(),
{
    if lines.len() == 0 {
        Seq::empty()
    } else {
        let before = trimmed_lines(lines.drop_last());
        if trimmed(lines.last()).len() > 0 {
            before.push(trimmed(lines.last()))
        } else {
            before
        }
    }
}

/// Progress text made fit to show: without ANSI escape sequences, every line
/// trimmed, empty lines dropped, the rest joined by line feeds.
pub open spec fn clean_text(input: Seq<char>) -> Seq<char> {
    joined(trimmed_lines(split_lines(without_ansi(input))), seq!['\n'])
}

/// Makes progress text fit to show: takes out ANSI escape sequences, trims
/// every line, drops the lines that are then empty and joins the rest by
/// line feeds.
pub fn clean_progress_text(input: &str) -> (r: String)
    ensures
        r@ == clean_text(input@),
{
    proof {
        crate::text::lemma_empty_text();
    }
    let stripped = match regex_replace_all(r"\x1B\[[0-9;]*[a-zA-Z]", input, "") {
        Some(s) => s,
        None => owned(input),
    };
    clean_lines(stripped.as_str())
}

/// The lines of `stripped`, each trimmed, without those that are then empty,
/// joined by line feeds.
pub fn clean_lines(stripped: &str) -> (r: String)
    ensures
        r@ == joined(trimmed_lines(split_lines(stripped@)), seq!['\n']),
{
    let v = chars_of(stripped);
    let mut kept: Vec<String> = Vec::new();
    let mut current = String::new();
    let ghost mut done: Seq<Seq<char>> = Seq::empty();
    let mut i: usize = 0;
    assert(texts(kept@) =~= Seq::<Seq<char>>::empty());
    assert(v@.take(0) =~= Seq::<char>::empty());
    assert(split_lines(v@.take(0)) =~= done.push(current@));
    while i < v.len()
        invariant
            i <= v.len(),
            split_lines(v@.take(i as int)) == done.push(current@),
            texts(kept@) == trimmed_lines(done),
        decreases v.len() - i,
    {
        let ch = v[i];
        proof {
            let upto = v@.take(i + 1);
            assert(upto.drop_last() == v@.take(i as int));
            assert(upto.last() == ch);
            assert(done.push(current@).drop_last() == done);
        }
        if ch == '\n' || ch == '\r' {
            let line = trim(current.as_str());
            proof {
                assert(done.push(current@).drop_last() == done);
            }
            if !line.as_str().is_empty() {
                push_arg(&mut kept, line);
            }
            proof {
                done = done.push(current@);
            }
            current = String::new();
        } else {
            current.push(ch);
        }
        i += 1;
    }
    assert(v@.take(v.len() as int) == v@);
    let line = trim(current.as_str());
    proof {
        assert(done.push(current@).drop_last() == done);
    }
    if !line.as_str().is_empty() {
        push_arg(&mut kept, line);
    }
    assert(texts(kept@) == trimmed_lines(split_lines(v@)));
    proof {
        reveal_strlit("\n");
        assert("\n"@ =~= seq!['\n']);
    }
    join(&kept, "\n")
}

} // verus!
