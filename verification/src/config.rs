//! The settings of a launch: their first values, and how options that the
//! user interface sends change them.

use crate::json::{get_or, member_or, str_of_or, text_of_or, Json, JsonValue};
use crate::models::{CliOptions, CliOptionsView, RuntimeConfig, RuntimeConfigView};
use crate::text::owned;
use vstd::prelude::*;

verus! {

/// The truth value of the member `key` of `options`, or `current` where it is
/// no boolean.
pub open spec fn flag_or(options: JsonValue, key: Seq<char>, current: bool) -> bool {
    match options.member(key) {
        Some(v) => match v.as_truth() {
            Some(b) => b,
            None => current,
        },
        None => current,
    }
}

/// The options `current` with every option that `options` names set to the
/// value given there. A member of the wrong type changes nothing.
pub open spec fn merged_options(current: CliOptionsView, options: JsonValue) -> CliOptionsView {
    CliOptionsView {
        profile: options.text_or("profile"@, current.profile),
        sandbox: options.text_or("sandbox"@, current.sandbox),
        ask_for_approval: text_of_or(
            member_or(options, "askForApproval"@, "ask_for_approval"@),
            current.ask_for_approval,
        ),
        skip_git_repo_check: flag_or(options, "skipGitRepoCheck"@, current.skip_git_repo_check),
        cwd_override: options.text_or("cwdOverride"@, current.cwd_override),
        extra_args: options.text_or("extraArgs"@, current.extra_args),
        enable_web_search: flag_or(options, "enableWebSearch"@, current.enable_web_search),
    }
}

/// The truth value of the member `key` of `options`, or `current`.
fn flag_of(options: &Json, key: &str, current: bool) -> (r: bool)
    ensures
        r == flag_or(options@, key@, current),
{
    match options.get(key) {
        Some(v) => match v.as_bool() {
            Some(b) => b,
            None => current,
        },
        None => current,
    }
}

/// The options `current`, changed by what `options` names.
pub fn merge_cli_options(current: &CliOptions, options: &Json) -> (r: CliOptions)
    ensures
        r@ == merged_options(current@, options@),
{
    CliOptions {
        profile: owned(options.str_or("profile", current.profile.as_str())),
        sandbox: owned(options.str_or("sandbox", current.sandbox.as_str())),
        ask_for_approval: owned(
            str_of_or(
                get_or(options, "askForApproval", "ask_for_approval"),
                current.ask_for_approval.as_str(),
            ),
        ),
        skip_git_repo_check: flag_of(options, "skipGitRepoCheck", current.skip_git_repo_check),
        cwd_override: owned(options.str_or("cwdOverride", current.cwd_override.as_str())),
        extra_args: owned(options.str_or("extraArgs", current.extra_args.as_str())),
        enable_web_search: flag_of(options, "enableWebSearch", current.enable_web_search),
    }
}

/// The settings that the engine starts with, for the working directory
/// `cwd`.
pub open spec fn initial_config(cwd: Seq<char>) -> RuntimeConfigView {
    RuntimeConfigView {
        mode: "fast"@,
        yolo_mode: true,
        model: Seq::empty(),
        cwd,
        cli_options: CliOptionsView {
            profile: Seq::empty(),
            sandbox: "workspace-write"@,
            ask_for_approval: "on-request"@,
            skip_git_repo_check: true,
            cwd_override: Seq::empty(),
            extra_args: Seq::empty(),
            enable_web_search: false,
        },
    }
}

/// The settings that the engine starts with, for the working directory
/// `cwd`.
pub fn default_runtime_config(cwd: &str) -> (r: RuntimeConfig)
    ensures
        r@ == initial_config(cwd@),
{
    RuntimeConfig {
        mode: owned("fast"),
        yolo_mode: true,
        model: String::new(),
        cwd: owned(cwd),
        cli_options: CliOptions {
            profile: String::new(),
            sandbox: owned("workspace-write"),
            ask_for_approval: owned("on-request"),
            skip_git_repo_check: true,
            cwd_override: String::new(),
            extra_args: String::new(),
            enable_web_search: false,
        },
    }
}

} // verus!
