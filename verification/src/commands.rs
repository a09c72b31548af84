//! What the runs of outside commands give: the records for the user
//! interface, the progress of an installation, and the plan of a login.

use crate::events::OutputStream;
use crate::models::{CommandResult, ShellCommandResult};
use crate::sessions::exit_code_or_unknown;
use crate::text::{
    is_blank, is_blank_text, lemma_trimmed_empty, lossy_string, lowercase, lowercase_text, owned,
    push_signed_decimal, push_text, signed_decimal_text, texts, trim, trimmed, utf8_lossy_text,
};
use vstd::prelude::*;

verus! {

/// The exit code that stands for a process: its own, or -1 where it has none.
pub fn code_or_unknown(code: Option<i32>) -> (r: i32)
    ensures
        r == exit_code_or_unknown(code),
{
    match code {
        Some(c) => c,
        None => -1,
    }
}

/// The view of an optional string.
pub open spec fn opt_view(s: Option<String>) -> Option<Seq<char>> {
    match s {
        Some(s) => Some(s@),
        None => None,
    }
}

/// The record of an agent subcommand that ran: its output as text, and its
/// exit code.
pub fn command_result(success: bool, stdout: &[u8], stderr: &[u8], code: Option<i32>) -> (r:
    CommandResult)
    ensures
        r.success == success,
        r.stdout@ == utf8_lossy_text(stdout@),
        r.stderr@ == utf8_lossy_text(stderr@),
        r.exit_code == exit_code_or_unknown(code),
        r.error is None,
{
    CommandResult {
        success,
        stdout: lossy_string(stdout),
        stderr: lossy_string(stderr),
        exit_code: code_or_unknown(code),
        error: None,
    }
}

/// The record of an agent subcommand that could not be run.
pub fn command_failure(error: &str) -> (r: CommandResult)
    ensures
        !r.success,
        r.stdout@ == Seq::<char>::empty(),
        r.stderr@ == Seq::<char>::empty(),
        r.exit_code == -1,
        opt_view(r.error) == Some(error@),
{
    CommandResult {
        success: false,
        stdout: String::new(),
        stderr: String::new(),
        exit_code: -1,
        error: Some(owned(error)),
    }
}

/// The working directory of a command: the one asked for, unless it is
/// blank.
pub fn working_directory<'a>(asked: &'a str, configured: &'a str) -> (r: &'a str)
    ensures
        r@ == if is_blank(asked@) {
            configured@
        } else {
            asked@
        },
{
    if is_blank_text(asked) {
        configured
    } else {
        asked
    }
}

/// A piece of the output of a shell command, for the user interface.
#[derive(Debug, Clone, PartialEq, Eq)]
pub struct CommandOutput {
    pub command_id: String,
    pub stream: OutputStream,
    pub data: String,
}

/// What the run of a shell command gives: its record, and the pieces of
/// output to show.
#[derive(Debug, Clone, PartialEq, Eq)]
pub struct ShellOutcome {
    pub result: ShellCommandResult,
    pub outputs: Vec<CommandOutput>,
}

/// Whether `outputs` are the pieces to show of a command's output: what it
/// wrote to its output stream, then what it wrote to its error stream, each
/// only if it is not empty.
pub open spec fn shows_output(
    outputs: Seq<CommandOutput>,
    command_id: Seq<char>,
    stdout: Seq<char>,
    stderr: Seq<char>,
) -> bool {
    &&& outputs.len() == (if stdout.len() > 0 {
        1int
    } else {
        0int
    }) + (if stderr.len() > 0 {
        1int
    } else {
        0int
    })
    &&& forall|i: int| 0 <= i < outputs.len() ==> (#[trigger] outputs[i]).command_id@ == command_id
    &&& stdout.len() > 0 ==> outputs[0].stream == OutputStream::Stdout && outputs[0].data@
        == stdout
    &&& stderr.len() > 0 ==> outputs.last().stream == OutputStream::Stderr && outputs.last().data@
        == stderr
}

/// What the run of the shell command `command_id` gives.
pub fn shell_result(command_id: &str, stdout: &[u8], stderr: &[u8], code: Option<i32>) -> (r:
    ShellOutcome)
    ensures
        r.result.success == (exit_code_or_unknown(code) == 0),
        r.result.command_id@ == command_id@,
        opt_view(r.result.output) == Some(utf8_lossy_text(stdout@)),
        opt_view(r.result.error_output) == Some(utf8_lossy_text(stderr@)),
        r.result.exit_code == Some(exit_code_or_unknown(code)),
        r.result.error is None,
        shows_output(r.outputs@, command_id@, utf8_lossy_text(stdout@), utf8_lossy_text(stderr@)),
{
    let status = code_or_unknown(code);
    let out = lossy_string(stdout);
    let err = lossy_string(stderr);
    let mut outputs: Vec<CommandOutput> = Vec::new();
    if !out.as_str().is_empty() {
        outputs.push(
            CommandOutput {
                command_id: owned(command_id),
                stream: OutputStream::Stdout,
                data: out.clone(),
            },
        );
    }
    if !err.as_str().is_empty() {
        outputs.push(
            CommandOutput {
                command_id: owned(command_id),
                stream: OutputStream::Stderr,
                data: err.clone(),
            },
        );
    }
    ShellOutcome {
        result: ShellCommandResult {
            success: status == 0,
            command_id: owned(command_id),
            output: Some(out),
            error_output: Some(err),
            exit_code: Some(status),
            error: None,
        },
        outputs,
    }
}

/// The record of a shell command that could not be run.
pub fn shell_failure(command_id: &str, error: &str) -> (r: ShellCommandResult)
    ensures
        !r.success,
        r.command_id@ == command_id@,
        r.output is None,
        r.error_output is None,
        r.exit_code == Some(-1i32),
        opt_view(r.error) == Some(error@),
{
    ShellCommandResult {
        success: false,
        command_id: owned(command_id),
        output: None,
        error_output: None,
        exit_code: Some(-1),
        error: Some(owned(error)),
    }
}

/// How far an installation has come.
#[derive(Debug, Clone, Copy, PartialEq, Eq, Structural)]
pub enum InstallStatus {
    Installing,
    Complete,
    Error,
}

impl InstallStatus {
    /// The word that stands for this status on the wire.
    pub fn word(&self) -> (r: &'static str)
        ensures
            r@ == match self {
                InstallStatus::Installing => "installing"@,
                InstallStatus::Complete => "complete"@,
                InstallStatus::Error => "error"@,
            },
    {
        match self {
            InstallStatus::Installing => "installing",
            InstallStatus::Complete => "complete",
            InstallStatus::Error => "error",
        }
    }
}

/// A step of an installation, for the user interface.
#[derive(Debug, Clone, PartialEq, Eq)]
pub struct InstallProgress {
    pub status: InstallStatus,
    pub message: String,
    pub percent: u64,
}

/// The share of an installation that is taken as done after `lines` lines of
/// the installer's error stream: ten per cent and five more for every line,
/// up to eighty.
pub open spec fn percent_after(lines: nat) -> nat {
    if 10 + lines * 5 < 80 {
        10 + lines * 5
    } else {
        80
    }
}

/// The step that starts an installation.
pub fn install_started() -> (r: InstallProgress)
    ensures
        r.status == InstallStatus::Installing,
        r.message@ == "Installing Codex CLI..."@,
        r.percent == 0,
{
    InstallProgress {
        status: InstallStatus::Installing,
        message: owned("Installing Codex CLI..."),
        percent: 0,
    }
}

/// The step for one line of the installer's error stream, after
/// `lines_before` lines that counted. A blank line gives none and does not
/// count.
pub fn install_error_line(line: &str, lines_before: u64) -> (r: Option<InstallProgress>)
    ensures
        r is None <==> is_blank(line@),
        r matches Some(p) ==> p.status == InstallStatus::Installing && p.message@ == trimmed(line@)
            && p.percent == percent_after((lines_before + 1) as nat),
{
    if is_blank_text(line) {
        return None;
    }
    let percent: u64 = if lines_before >= 13 {
        80
    } else {
        10 + (lines_before + 1) * 5
    };
    Some(InstallProgress { status: InstallStatus::Installing, message: trim(line), percent })
}

/// The step for one line of the installer's output stream. A blank line
/// gives none.
pub fn install_output_line(line: &str) -> (r: Option<InstallProgress>)
    ensures
        r is None <==> is_blank(line@),
        r matches Some(p) ==> p.status == InstallStatus::Installing && p.message@ == trimmed(line@)
            && p.percent == 85,
{
    if is_blank_text(line) {
        return None;
    }
    Some(InstallProgress { status: InstallStatus::Installing, message: trim(line), percent: 85 })
}

/// The last step of an installation whose installer has ended: complete on
/// success, else an error that names the exit code.
pub fn install_finished(success: bool, code: Option<i32>) -> (r: InstallProgress)
    ensures
        success ==> r.status == InstallStatus::Complete && r.message@
            == "Codex CLI installed successfully"@ && r.percent == 100,
        !success ==> r.status == InstallStatus::Error && r.message@ == "Install failed: exit "@
            + signed_decimal_text(exit_code_or_unknown(code) as int) && r.percent == 0,
{
    if success {
        InstallProgress {
            status: InstallStatus::Complete,
            message: owned("Codex CLI installed successfully"),
            percent: 100,
        }
    } else {
        let mut message = owned("Install failed: exit ");
        push_signed_decimal(&mut message, code_or_unknown(code) as i64);
        InstallProgress { status: InstallStatus::Error, message, percent: 0 }
    }
}

/// The step for an installer that could not be started or waited for:
/// an error with what the system said, or, where the installer was not
/// found, with advice.
pub fn install_failed(not_found: bool, detail: &str) -> (r: InstallProgress)
    ensures
        r.status == InstallStatus::Error,
        r.percent == 0,
        r.message@ == if not_found {
            "npm executable was not found. Please install Node.js and make sure npm is available in PATH."@
        } else {
            detail@
        },
{
    let message = if not_found {
        owned(
            "npm executable was not found. Please install Node.js and make sure npm is available in PATH.",
        )
    } else {
        owned(detail)
    };
    InstallProgress { status: InstallStatus::Error, message, percent: 0 }
}

/// How a login is to be run.
#[derive(Debug, Clone, PartialEq, Eq)]
pub struct LoginPlan {
    /// The login method, in lower case.
    pub method: String,
    /// The arguments for the agent.
    pub args: Vec<String>,
    /// The line to write to the agent's input, for a login with an API key.
    pub stdin_line: Option<String>,
}

/// The login method that is meant: the one named, in lower case, or the
/// browser.
pub open spec fn login_method(method: Option<Seq<char>>) -> Seq<char> {
    lowercase_text(
        match method {
            Some(m) => m,
            None => "browser"@,
        },
    )
}

/// The API key that is given: its trimmed text, unless that is empty.
pub open spec fn given_key(api_key: Option<Seq<char>>) -> Option<Seq<char>> {
    match api_key {
        Some(k) => if is_blank(k) {
            None
        } else {
            Some(trimmed(k))
        },
        None => None,
    }
}

/// The arguments of a login by the method `method`.
pub open spec fn login_args(method: Seq<char>) -> Seq<Seq<char>> {
    if method == "api-key"@ {
        seq!["login"@, "--with-api-key"@]
    } else if method == "device-auth"@ {
        seq!["login"@, "--device-auth"@]
    } else {
        seq!["login"@]
    }
}

/// The view of an optional string slice.
pub open spec fn opt_str(s: Option<&str>) -> Option<Seq<char>> {
    match s {
        Some(s) => Some(s@),
        None => None,
    }
}

/// What is wrong with a login by API key without a key.
pub open spec fn missing_key_text() -> Seq<char> {
    "API key login requires a non-empty apiKey value"@
}

/// Plans a login by the method `method` (the browser where none is named).
/// A login by API key needs a key that is not blank, and writes it to the
/// agent as one line.
pub fn plan_login(method: Option<&str>, api_key: Option<&str>) -> (r: Result<LoginPlan, String>)
    ensures
        r is Err <==> login_method(opt_str(method)) == "api-key"@ && given_key(opt_str(api_key))
            is None,
        r matches Err(e) ==> e@ == missing_key_text(),
        r matches Ok(plan) ==> plan.method@ == login_method(opt_str(method)) && texts(plan.args@)
            == login_args(plan.method@) && opt_view(plan.stdin_line) == (if plan.method@
            == "api-key"@ {
            Some(given_key(opt_str(api_key))->0 + "\n"@)
        } else {
            None
        }),
{
    let normalized = match method {
        Some(m) => lowercase(m),
        None => lowercase("browser"),
    };
    let mut args: Vec<String> = Vec::new();
    args.push(owned("login"));
    let mut stdin_line: Option<String> = None;
    if normalized.as_str().eq("api-key") {
        let key = match api_key {
            Some(k) => {
                proof {
                    lemma_trimmed_empty(k@);
                }
                if is_blank_text(k) {
                    None
                } else {
                    Some(trim(k))
                }
            },
            None => None,
        };
        match key {
            Some(mut line) => {
                push_text(&mut line, "\n");
                stdin_line = Some(line);
            },
            None => {
                return Err(owned("API key login requires a non-empty apiKey value"));
            },
        }
        args.push(owned("--with-api-key"));
        assert(texts(args@) =~= login_args(normalized@));
    } else if normalized.as_str().eq("device-auth") {
        args.push(owned("--device-auth"));
        assert(texts(args@) =~= login_args(normalized@));
    } else {
        assert(texts(args@) =~= login_args(normalized@));
    }
    Ok(LoginPlan { method: normalized, args, stdin_line })
}

/// What the user reads of a login that the agent refused: what it wrote to
/// its error stream, or to its output stream where that is empty.
pub fn login_failure_text(stderr: &[u8], stdout: &[u8]) -> (r: String)
    ensures
        r@ == if utf8_lossy_text(stderr@).len() > 0 {
            utf8_lossy_text(stderr@)
        } else {
            utf8_lossy_text(stdout@)
        },
{
    let err = lossy_string(stderr);
    if !err.as_str().is_empty() {
        err
    } else {
        lossy_string(stdout)
    }
}

/// What the user reads of a logout that the agent refused.
pub fn logout_failure_text(code: Option<i32>) -> (r: String)
    ensures
        r@ == "codex logout failed with exit code "@ + signed_decimal_text(
            exit_code_or_unknown(code) as int,
        ),
{
    let mut r = owned("codex logout failed with exit code ");
    push_signed_decimal(&mut r, code_or_unknown(code) as i64);
    r
}

} // verus!
