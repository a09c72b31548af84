//! The records that pass between the user interface and the engine.

use vstd::prelude::*;

verus! {

/// A model that the agent can run with.
#[derive(Debug, Clone, PartialEq, Eq)]
pub struct ModelInfo {
    pub id: String,
    pub name: String,
    pub description: String,
}

/// The mathematical value of a [`ModelInfo`].
pub struct ModelInfoView {
    pub id: Seq<char>,
    pub name: Seq<char>,
    pub description: Seq<char>,
}

impl View for ModelInfo {
    type V = ModelInfoView;

    open spec fn view(&self) -> ModelInfoView {
        ModelInfoView { id: self.id@, name: self.name@, description: self.description@ }
    }
}

/// The options handed to the agent's command line.
#[derive(Debug, Clone, PartialEq, Eq)]
pub struct CliOptions {
    pub profile: String,
    pub sandbox: String,
    pub ask_for_approval: String,
    pub skip_git_repo_check: bool,
    pub cwd_override: String,
    pub extra_args: String,
    pub enable_web_search: bool,
}

/// The mathematical value of [`CliOptions`].
pub struct CliOptionsView {
    pub profile: Seq<char>,
    pub sandbox: Seq<char>,
    pub ask_for_approval: Seq<char>,
    pub skip_git_repo_check: bool,
    pub cwd_override: Seq<char>,
    pub extra_args: Seq<char>,
    pub enable_web_search: bool,
}

impl View for CliOptions {
    type V = CliOptionsView;

    open spec fn view(&self) -> CliOptionsView {
        CliOptionsView {
            profile: self.profile@,
            sandbox: self.sandbox@,
            ask_for_approval: self.ask_for_approval@,
            skip_git_repo_check: self.skip_git_repo_check,
            cwd_override: self.cwd_override@,
            extra_args: self.extra_args@,
            enable_web_search: self.enable_web_search,
        }
    }
}

/// One message of a conversation.
#[derive(Debug, Clone, PartialEq, Eq)]
pub struct Message {
    pub id: String,
    pub conversation_id: String,
    pub role: String,
    pub content: String,
    pub thinking: Option<String>,
    pub thinking_duration: Option<i64>,
    pub timestamp: String,
}

/// A conversation with its messages.
#[derive(Debug, Clone, PartialEq, Eq)]
pub struct Conversation {
    pub id: String,
    pub workspace_id: String,
    pub title: String,
    pub created_at: String,
    pub updated_at: String,
    pub messages: Vec<Message>,
}

/// A workspace with its conversations.
#[derive(Debug, Clone, PartialEq, Eq)]
pub struct Workspace {
    pub id: String,
    pub name: String,
    pub path: String,
    pub conversations: Vec<Conversation>,
}

/// Everything that is stored: the workspaces.
#[derive(Debug, Clone, PartialEq, Eq)]
pub struct DbState {
    pub workspaces: Vec<Workspace>,
}

/// One hit of a file search.
#[derive(Debug, Clone, PartialEq, Eq)]
pub struct FileSearchResult {
    pub name: String,
    pub path: String,
    pub relative_path: String,
    pub is_directory: bool,
}

/// One entry of a directory listing.
#[derive(Debug, Clone, PartialEq, Eq)]
pub struct DirectoryEntry {
    pub name: String,
    pub path: String,
    pub is_directory: bool,
    pub size: u64,
}

/// One hit of a web search.
#[derive(Debug, Clone, PartialEq, Eq)]
pub struct SearchResult {
    pub title: String,
    pub url: String,
    pub snippet: String,
}

/// The signed-in user.
#[derive(Debug, Clone, PartialEq, Eq)]
pub struct CodexUser {
    pub id: String,
    pub email: String,
    pub name: String,
    pub picture: String,
    pub auth_mode: String,
    pub auth_provider: String,
}

/// What a finished agent subcommand gave.
#[derive(Debug, Clone, PartialEq, Eq)]
pub struct CommandResult {
    pub success: bool,
    pub stdout: String,
    pub stderr: String,
    pub exit_code: i32,
    pub error: Option<String>,
}

/// What a finished shell command gave.
#[derive(Debug, Clone, PartialEq, Eq)]
pub struct ShellCommandResult {
    pub success: bool,
    pub command_id: String,
    pub output: Option<String>,
    pub error_output: Option<String>,
    pub exit_code: Option<i32>,
    pub error: Option<String>,
}

/// The settings that a launch of the agent reads.
#[derive(Debug, Clone, PartialEq, Eq)]
pub struct RuntimeConfig {
    pub mode: String,
    pub yolo_mode: bool,
    pub model: String,
    pub cwd: String,
    pub cli_options: CliOptions,
}

/// The mathematical value of a [`RuntimeConfig`].
pub struct RuntimeConfigView {
    pub mode: Seq<char>,
    pub yolo_mode: bool,
    pub model: Seq<char>,
    pub cwd: Seq<char>,
    pub cli_options: CliOptionsView,
}

impl View for RuntimeConfig {
    type V = RuntimeConfigView;

    open spec fn view(&self) -> RuntimeConfigView {
        RuntimeConfigView {
            mode: self.mode@,
            yolo_mode: self.yolo_mode,
            model: self.model@,
            cwd: self.cwd@,
            cli_options: self.cli_options@,
        }
    }
}

/// The mathematical value of a [`CodexUser`].
pub struct CodexUserView {
    pub id: Seq<char>,
    pub email: Seq<char>,
    pub name: Seq<char>,
    pub picture: Seq<char>,
    pub auth_mode: Seq<char>,
    pub auth_provider: Seq<char>,
}

impl View for CodexUser {
    type V = CodexUserView;

    open spec fn view(&self) -> CodexUserView {
        CodexUserView {
            id: self.id@,
            email: self.email@,
            name: self.name@,
            picture: self.picture@,
            auth_mode: self.auth_mode@,
            auth_provider: self.auth_provider@,
        }
    }
}

/// The mathematical value of a [`SearchResult`].
pub struct SearchResultView {
    pub title: Seq<char>,
    pub url: Seq<char>,
    pub snippet: Seq<char>,
}

impl View for SearchResult {
    type V = SearchResultView;

    open spec fn view(&self) -> SearchResultView {
        SearchResultView { title: self.title@, url: self.url@, snippet: self.snippet@ }
    }
}

/// An approval that the agent waits for: the conversation that asked.
#[derive(Debug, Clone, PartialEq, Eq)]
pub struct PendingApproval {
    pub conversation_id: String,
}

/// One earlier message handed to a launch: who spoke, and what was said.
#[derive(Debug, Clone, PartialEq, Eq)]
pub struct HistoryMessage {
    pub role: Option<String>,
    pub content: Option<String>,
}

} // verus!
