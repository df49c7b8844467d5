//! Prompts shown to the user about transfers: confirmations, warnings,
//! errors with advice, and information.  Sizes arrive already written in
//! human form; sending a prompt to the interface is left to the caller.
use vstd::prelude::*;

use crate::file_ops::{file_name_text, path_file_name};
use crate::text::{decimal, with_decimal};
use crate::transfer::types::{spec_is_retryable, TransferError, TransferOperation, TransferStatus};

verus! {

/// Kind of prompt.
#[derive(Debug, Clone, Copy, PartialEq, Eq, Structural)]
pub enum PromptType {
    Confirmation,
    Warning,
    Error,
    Info,
    Question,
}

/// How serious a prompt is.
#[derive(Debug, Clone, Copy, PartialEq, Eq, Structural)]
pub enum PromptSeverity {
    Low,
    Medium,
    High,
    Critical,
}

/// A button of a prompt.
#[derive(Debug)]
pub struct PromptAction {
    pub id: String,
    pub label: String,
    /// `primary`, `secondary` or `danger`.
    pub style: String,
    pub is_default: bool,
}

/// What a button holds, as text.
pub struct ActionView {
    pub id: Seq<char>,
    pub label: Seq<char>,
    pub style: Seq<char>,
    pub is_default: bool,
}

impl View for PromptAction {
    type V = ActionView;

    open spec fn view(&self) -> ActionView {
        ActionView { id: self.id@, label: self.label@, style: self.style@, is_default: self.is_default }
    }
}

/// A prompt about a transfer.  The timestamp is in seconds since the Unix
/// epoch; the context is a list of named values.
#[derive(Debug)]
pub struct TransferPrompt {
    pub id: String,
    pub prompt_type: PromptType,
    pub severity: PromptSeverity,
    pub title: String,
    pub message: String,
    pub description: Option<String>,
    pub transfer_id: Option<String>,
    pub operation: Option<TransferOperation>,
    pub status: Option<TransferStatus>,
    pub actions: Vec<PromptAction>,
    pub context: Vec<(String, String)>,
    pub timestamp: u64,
    pub requires_response: bool,
}

/// The user's answer to a prompt.
#[derive(Debug)]
pub struct PromptResponse {
    pub prompt_id: String,
    pub action_id: String,
    pub user_input: Option<String>,
    pub timestamp: u64,
}

/// The name of an operation, as shown.
pub open spec fn operation_text(op: TransferOperation) -> Seq<char> {
    match op {
        TransferOperation::Upload => "upload"@,
        TransferOperation::Download => "download"@,
    }
}

/// The name of a status, as shown.
pub open spec fn status_text(s: TransferStatus) -> Seq<char> {
    match s {
        TransferStatus::Pending => "pending"@,
        TransferStatus::Connecting => "connecting"@,
        TransferStatus::Transferring => "transferring"@,
        TransferStatus::Paused => "paused"@,
        TransferStatus::Completed => "completed"@,
        TransferStatus::Failed => "failed"@,
        TransferStatus::Cancelled => "cancelled"@,
        TransferStatus::Resuming => "resuming"@,
    }
}

/// The file name shown for a path: its last component, or `file`.
pub open spec fn shown_file_name(path: Seq<char>) -> Seq<char> {
    if file_name_text(path).len() == 0 {
        "file"@
    } else {
        file_name_text(path)
    }
}

/// The title, message and advice shown for an error, with the bytes moved
/// so far written as `transferred`.
pub open spec fn error_texts(e: TransferError, transferred: Seq<char>) -> (Seq<char>, Seq<char>, Seq<char>) {
    match e {
        TransferError::TemporaryNetwork(m) => (
            "Network Error"@,
            "Temporary network issue: "@ + m@,
            "The transfer encountered a network error. This is usually temporary.\nTransferred: "@ + transferred
                + "\nSuggestion: Retry the transfer. If the problem persists, check your network connection."@,
        ),
        TransferError::Timeout(m) => (
            "Timeout Error"@,
            "Operation timed out: "@ + m@,
            "The operation took too long to complete.\nTransferred: "@ + transferred
                + "\nSuggestion: Try again with a larger timeout or check network conditions."@,
        ),
        TransferError::PermissionDenied(m) => (
            "Permission Error"@,
            "Permission denied: "@ + m@,
            "You don't have permission to perform this operation.\nSuggestion: Check file permissions and try again with appropriate access rights."@,
        ),
        TransferError::DiskFull(m) => (
            "Disk Full Error"@,
            "Disk full: "@ + m@,
            "There is not enough disk space to complete the transfer.\nSuggestion: Free up disk space and try again."@,
        ),
        TransferError::InvalidPath(m) => (
            "Invalid Path Error"@,
            "Invalid path: "@ + m@,
            "The specified path is invalid or doesn't exist.\nSuggestion: Check the file paths and try again."@,
        ),
        TransferError::AuthenticationFailed(m) => (
            "Authentication Error"@,
            "Authentication failed: "@ + m@,
            "Failed to authenticate with the server.\nSuggestion: Check your credentials and try again."@,
        ),
        TransferError::ConnectionLost => (
            "Connection Lost"@,
            "Connection to the server was lost"@,
            "The SSH connection was interrupted.\nTransferred: "@ + transferred
                + "\nSuggestion: The transfer can be resumed automatically."@,
        ),
        TransferError::Cancelled => (
            "Transfer Cancelled"@,
            "The transfer was cancelled by the user"@,
            "You cancelled the transfer.\nTransferred: "@ + transferred,
        ),
        TransferError::CheckpointMismatch(m) => (
            "Checkpoint Error"@,
            "Checkpoint mismatch: "@ + m@,
            "The transfer checkpoint is invalid or corrupted.\nSuggestion: Start the transfer from the beginning."@,
        ),
        TransferError::CannotResume(m) => (
            "Resume Error"@,
            "Cannot resume transfer: "@ + m@,
            "The transfer cannot be resumed.\nSuggestion: Start the transfer from the beginning."@,
        ),
        TransferError::InvalidCheckpoint => (
            "Invalid Checkpoint"@,
            "The checkpoint data is invalid"@,
            "The transfer checkpoint is corrupted.\nSuggestion: Start the transfer from the beginning."@,
        ),
        TransferError::WouldBlock => (
            "Blocking Operation"@,
            "Operation would block (non-blocking mode)"@,
            "The operation cannot be completed immediately in non-blocking mode.\nSuggestion: This is usually temporary and the operation will retry automatically."@,
        ),
        TransferError::Unknown(m) => (
            "Unknown Error"@,
            "Unknown error: "@ + m@,
            "An unexpected error occurred.\nTransferred: "@ + transferred
                + "\nSuggestion: Try again or contact support if the problem persists."@,
        ),
    }
}

fn s(text: &str) -> (r: String)
    ensures
        r@ == text@,
{
    String::from_str(text)
}

fn action(id: &str, label: &str, style: &str, is_default: bool) -> (r: PromptAction)
    ensures
        r@ == (ActionView { id: id@, label: label@, style: style@, is_default }),
{
    PromptAction { id: s(id), label: s(label), style: s(style), is_default }
}

/// The title, message and advice shown for `error`, with the bytes moved
/// so far written as `transferred`.
pub fn format_error(error: &TransferError, transferred: &str) -> (r: (String, String, String))
    ensures
        (r.0@, r.1@, r.2@) == error_texts(*error, transferred@),
{
    match error {
        TransferError::TemporaryNetwork(m) => (
            s("Network Error"),
            s("Temporary network issue: ").concat(m.as_str()),
            s("The transfer encountered a network error. This is usually temporary.\nTransferred: ").concat(
                transferred,
            ).concat("\nSuggestion: Retry the transfer. If the problem persists, check your network connection."),
        ),
        TransferError::Timeout(m) => (
            s("Timeout Error"),
            s("Operation timed out: ").concat(m.as_str()),
            s("The operation took too long to complete.\nTransferred: ").concat(transferred).concat(
                "\nSuggestion: Try again with a larger timeout or check network conditions.",
            ),
        ),
        TransferError::PermissionDenied(m) => (
            s("Permission Error"),
            s("Permission denied: ").concat(m.as_str()),
            s(
                "You don't have permission to perform this operation.\nSuggestion: Check file permissions and try again with appropriate access rights.",
            ),
        ),
        TransferError::DiskFull(m) => (
            s("Disk Full Error"),
            s("Disk full: ").concat(m.as_str()),
            s("There is not enough disk space to complete the transfer.\nSuggestion: Free up disk space and try again."),
        ),
        TransferError::InvalidPath(m) => (
            s("Invalid Path Error"),
            s("Invalid path: ").concat(m.as_str()),
            s("The specified path is invalid or doesn't exist.\nSuggestion: Check the file paths and try again."),
        ),
        TransferError::AuthenticationFailed(m) => (
            s("Authentication Error"),
            s("Authentication failed: ").concat(m.as_str()),
            s("Failed to authenticate with the server.\nSuggestion: Check your credentials and try again."),
        ),
        TransferError::ConnectionLost => (
            s("Connection Lost"),
            s("Connection to the server was lost"),
            s("The SSH connection was interrupted.\nTransferred: ").concat(transferred).concat(
                "\nSuggestion: The transfer can be resumed automatically.",
            ),
        ),
        TransferError::Cancelled => (
            s("Transfer Cancelled"),
            s("The transfer was cancelled by the user"),
            s("You cancelled the transfer.\nTransferred: ").concat(transferred),
        ),
        TransferError::CheckpointMismatch(m) => (
            s("Checkpoint Error"),
            s("Checkpoint mismatch: ").concat(m.as_str()),
            s("The transfer checkpoint is invalid or corrupted.\nSuggestion: Start the transfer from the beginning."),
        ),
        TransferError::CannotResume(m) => (
            s("Resume Error"),
            s("Cannot resume transfer: ").concat(m.as_str()),
            s("The transfer cannot be resumed.\nSuggestion: Start the transfer from the beginning."),
        ),
        TransferError::InvalidCheckpoint => (
            s("Invalid Checkpoint"),
            s("The checkpoint data is invalid"),
            s("The transfer checkpoint is corrupted.\nSuggestion: Start the transfer from the beginning."),
        ),
        TransferError::WouldBlock => (
            s("Blocking Operation"),
            s("Operation would block (non-blocking mode)"),
            s(
                "The operation cannot be completed immediately in non-blocking mode.\nSuggestion: This is usually temporary and the operation will retry automatically.",
            ),
        ),
        TransferError::Unknown(m) => (
            s("Unknown Error"),
            s("Unknown error: ").concat(m.as_str()),
            s("An unexpected error occurred.\nTransferred: ").concat(transferred).concat(
                "\nSuggestion: Try again or contact support if the problem persists.",
            ),
        ),
    }
}

fn shown_name(path: &str) -> (r: String)
    ensures
        r@ == shown_file_name(path@),
{
    let n = path_file_name(path);
    if n.as_str().is_empty() {
        s("file")
    } else {
        n
    }
}

/// Builds the prompts about transfers, numbering them.
pub struct PromptManager {
    next_prompt_id: u64,
}

impl PromptManager {
    /// A builder whose first prompt is number 1.
    pub fn new() -> (r: Self)
        ensures
            r.next_number() == 1,
    {
        PromptManager { next_prompt_id: 1 }
    }

    /// The number of the next prompt.
    pub closed spec fn next_number(&self) -> u64 {
        self.next_prompt_id
    }

    /// The identifier of the next prompt, `prompt_` and its number.
    pub fn next_id(&mut self) -> (r: String)
        ensures
            r@ == "prompt_"@ + decimal(old(self).next_number() as nat),
            final(self).next_number() == old(self).next_number().wrapping_add(1),
    {
        let n = self.next_prompt_id;
        self.next_prompt_id = self.next_prompt_id.wrapping_add(1);
        with_decimal(s("prompt_"), n)
    }

    /// The confirmation asked before a transfer of `file_size_text` between
    /// `local_path` and `remote_path`, at `now_secs`.
    pub fn confirm_transfer(
        &mut self,
        transfer_id: &str,
        operation: TransferOperation,
        local_path: &str,
        remote_path: &str,
        file_size_text: &str,
        now_secs: u64,
    ) -> (r: TransferPrompt)
        ensures
            r.id@ == "prompt_"@ + decimal(old(self).next_number() as nat),
            final(self).next_number() == old(self).next_number().wrapping_add(1),
            r.prompt_type == PromptType::Confirmation,
            r.severity == PromptSeverity::Medium,
            r.title@ == "Confirm "@ + operation_text(operation),
            r.message@ == "Are you sure you want to "@ + operation_text(operation) + " "@ + shown_file_name(
                local_path@,
            ) + "?"@,
            r.description matches Some(d) && d@ == "Local: "@ + local_path@ + "\nRemote: "@ + remote_path@
                + "\nSize: "@ + file_size_text@,
            r.transfer_id matches Some(t) && t@ == transfer_id@,
            r.operation == Some(operation),
            r.status is None,
            r.actions@.map_values(|a: PromptAction| a@) == seq![
                ActionView { id: "confirm"@, label: "Yes, "@ + operation_text(operation), style: "primary"@, is_default: true },
                ActionView { id: "cancel"@, label: "Cancel"@, style: "secondary"@, is_default: false },
            ],
            r.context@.len() == 0,
            r.timestamp == now_secs,
            r.requires_response,
    {
        let id = self.next_id();
        let op = operation.name();
        let title = s("Confirm ").concat(op);
        let message = s("Are you sure you want to ").concat(op).concat(" ").concat(shown_name(local_path).as_str()).concat("?");
        let description = s("Local: ").concat(local_path).concat("\nRemote: ").concat(remote_path).concat("\nSize: ").concat(
            file_size_text,
        );
        let yes = s("Yes, ").concat(op);
        let mut actions: Vec<PromptAction> = Vec::new();
        actions.push(PromptAction { id: s("confirm"), label: yes, style: s("primary"), is_default: true });
        actions.push(action("cancel", "Cancel", "secondary", false));
        let r = TransferPrompt {
            id,
            prompt_type: PromptType::Confirmation,
            severity: PromptSeverity::Medium,
            title,
            message,
            description: Some(description),
            transfer_id: Some(s(transfer_id)),
            operation: Some(operation),
            status: None,
            actions,
            context: Vec::new(),
            timestamp: now_secs,
            requires_response: true,
        };
        proof {
            assert(r.title@ =~= "Confirm "@ + operation_text(operation));
            assert(r.message@ =~= "Are you sure you want to "@ + operation_text(operation) + " "@ + shown_file_name(
                local_path@,
            ) + "?"@);
            assert(r.actions@.map_values(|a: PromptAction| a@) =~= seq![
                ActionView { id: "confirm"@, label: "Yes, "@ + operation_text(operation), style: "primary"@, is_default: true },
                ActionView { id: "cancel"@, label: "Cancel"@, style: "secondary"@, is_default: false },
            ]);
        }
        r
    }

    /// A warning about a transfer, with an optional suggestion.
    pub fn show_warning(
        &mut self,
        transfer_id: &str,
        operation: TransferOperation,
        warning: &str,
        suggestion: Option<&str>,
        now_secs: u64,
    ) -> (r: TransferPrompt)
        ensures
            r.id@ == "prompt_"@ + decimal(old(self).next_number() as nat),
            final(self).next_number() == old(self).next_number().wrapping_add(1),
            r.prompt_type == PromptType::Warning,
            r.severity == PromptSeverity::Medium,
            r.title@ == "Transfer Warning"@,
            r.message@ == warning@,
            match suggestion {
                Some(g) => r.description matches Some(d) && d@ == g@,
                None => r.description is None,
            },
            r.transfer_id matches Some(t) && t@ == transfer_id@,
            r.operation == Some(operation),
            r.status is None,
            r.actions@.map_values(|a: PromptAction| a@) == seq![
                ActionView { id: "acknowledge"@, label: "OK"@, style: "primary"@, is_default: true },
                ActionView { id: "cancel"@, label: "Cancel Transfer"@, style: "danger"@, is_default: false },
            ],
            r.context@.len() == 0,
            r.timestamp == now_secs,
            r.requires_response,
    {
        let id = self.next_id();
        let mut actions: Vec<PromptAction> = Vec::new();
        actions.push(action("acknowledge", "OK", "primary", true));
        actions.push(action("cancel", "Cancel Transfer", "danger", false));
        let r = TransferPrompt {
            id,
            prompt_type: PromptType::Warning,
            severity: PromptSeverity::Medium,
            title: s("Transfer Warning"),
            message: s(warning),
            description: match suggestion {
                Some(g) => Some(s(g)),
                None => None,
            },
            transfer_id: Some(s(transfer_id)),
            operation: Some(operation),
            status: None,
            actions,
            context: Vec::new(),
            timestamp: now_secs,
            requires_response: true,
        };
        proof {
            assert(r.actions@.map_values(|a: PromptAction| a@) =~= seq![
                ActionView { id: "acknowledge"@, label: "OK"@, style: "primary"@, is_default: true },
                ActionView { id: "cancel"@, label: "Cancel Transfer"@, style: "danger"@, is_default: false },
            ]);
        }
        r
    }

    /// The error prompt after `error` with `transferred_bytes` moved
    /// (written as `transferred_text`): advice from [`format_error`], retry
    /// by default for a retryable error and cancel otherwise, and the
    /// error's debug form `error_debug` in the context.
    pub fn show_error(
        &mut self,
        transfer_id: &str,
        operation: TransferOperation,
        error: &TransferError,
        transferred_bytes: u64,
        transferred_text: &str,
        error_debug: &str,
        now_secs: u64,
    ) -> (r: TransferPrompt)
        ensures
            r.id@ == "prompt_"@ + decimal(old(self).next_number() as nat),
            final(self).next_number() == old(self).next_number().wrapping_add(1),
            r.prompt_type == PromptType::Error,
            r.severity == PromptSeverity::High,
            r.title@ == error_texts(*error, transferred_text@).0,
            r.message@ == error_texts(*error, transferred_text@).1,
            r.description matches Some(d) && d@ == error_texts(*error, transferred_text@).2,
            r.transfer_id matches Some(t) && t@ == transfer_id@,
            r.operation == Some(operation),
            r.status == Some(TransferStatus::Failed),
            r.actions@.map_values(|a: PromptAction| a@) == seq![
                ActionView { id: "retry"@, label: "Retry"@, style: "primary"@, is_default: spec_is_retryable(*error) },
                ActionView { id: "resume"@, label: "Resume"@, style: "secondary"@, is_default: false },
                ActionView { id: "cancel"@, label: "Cancel"@, style: "danger"@, is_default: !spec_is_retryable(*error) },
            ],
            r.context@.len() == 3,
            r.context@[0].0@ == "error_type"@ && r.context@[0].1@ == error_debug@,
            r.context@[1].0@ == "retryable"@ && r.context@[1].1@ == (if spec_is_retryable(*error) {
                "true"@
            } else {
                "false"@
            }),
            r.context@[2].0@ == "transferred_bytes"@ && r.context@[2].1@ == decimal(transferred_bytes as nat),
            r.timestamp == now_secs,
            r.requires_response,
    {
        let id = self.next_id();
        let (title, message, suggestion) = format_error(error, transferred_text);
        let retryable = error.is_retryable();
        let mut actions: Vec<PromptAction> = Vec::new();
        actions.push(action("retry", "Retry", "primary", retryable));
        actions.push(action("resume", "Resume", "secondary", false));
        actions.push(action("cancel", "Cancel", "danger", !retryable));
        let mut context: Vec<(String, String)> = Vec::new();
        context.push((s("error_type"), s(error_debug)));
        context.push((s("retryable"), s(if retryable { "true" } else { "false" })));
        context.push((s("transferred_bytes"), with_decimal(String::new(), transferred_bytes)));
        let r = TransferPrompt {
            id,
            prompt_type: PromptType::Error,
            severity: PromptSeverity::High,
            title,
            message,
            description: Some(suggestion),
            transfer_id: Some(s(transfer_id)),
            operation: Some(operation),
            status: Some(TransferStatus::Failed),
            actions,
            context,
            timestamp: now_secs,
            requires_response: true,
        };
        proof {
            assert(r.actions@.map_values(|a: PromptAction| a@) =~= seq![
                ActionView { id: "retry"@, label: "Retry"@, style: "primary"@, is_default: spec_is_retryable(*error) },
                ActionView { id: "resume"@, label: "Resume"@, style: "secondary"@, is_default: false },
                ActionView { id: "cancel"@, label: "Cancel"@, style: "danger"@, is_default: !spec_is_retryable(*error) },
            ]);
            assert(r.context@[2].1@ =~= decimal(transferred_bytes as nat));
        }
        r
    }

    /// Information about a transfer in status `status`; it needs no answer.
    pub fn show_info(
        &mut self,
        transfer_id: &str,
        operation: TransferOperation,
        status: TransferStatus,
        message: &str,
        now_secs: u64,
    ) -> (r: TransferPrompt)
        ensures
            r.id@ == "prompt_"@ + decimal(old(self).next_number() as nat),
            final(self).next_number() == old(self).next_number().wrapping_add(1),
            r.prompt_type == PromptType::Info,
            r.severity == PromptSeverity::Low,
            r.title@ == "Transfer Information - "@ + status_text(status),
            r.message@ == message@,
            r.description is None,
            r.transfer_id matches Some(t) && t@ == transfer_id@,
            r.operation == Some(operation),
            r.status == Some(status),
            r.actions@.map_values(|a: PromptAction| a@) == seq![
                ActionView { id: "ok"@, label: "OK"@, style: "primary"@, is_default: true },
            ],
            r.context@.len() == 0,
            r.timestamp == now_secs,
            !r.requires_response,
    {
        let id = self.next_id();
        let mut actions: Vec<PromptAction> = Vec::new();
        actions.push(action("ok", "OK", "primary", true));
        let r = TransferPrompt {
            id,
            prompt_type: PromptType::Info,
            severity: PromptSeverity::Low,
            title: s("Transfer Information - ").concat(status.name()),
            message: s(message),
            description: None,
            transfer_id: Some(s(transfer_id)),
            operation: Some(operation),
            status: Some(status),
            actions,
            context: Vec::new(),
            timestamp: now_secs,
            requires_response: false,
        };
        proof {
            assert(r.actions@.map_values(|a: PromptAction| a@) =~= seq![
                ActionView { id: "ok"@, label: "OK"@, style: "primary"@, is_default: true },
            ]);
        }
        r
    }

    /// The question asked when `file_path` already exists, with the two
    /// sizes written in human form.
    pub fn confirm_overwrite(
        &mut self,
        transfer_id: &str,
        operation: TransferOperation,
        file_path: &str,
        existing_size_text: &str,
        new_size_text: &str,
        now_secs: u64,
    ) -> (r: TransferPrompt)
        ensures
            r.id@ == "prompt_"@ + decimal(old(self).next_number() as nat),
            final(self).next_number() == old(self).next_number().wrapping_add(1),
            r.prompt_type == PromptType::Question,
            r.severity == PromptSeverity::Medium,
            r.title@ == "File Already Exists"@,
            r.message@ == shown_file_name(file_path@) + " already exists. Do you want to overwrite it?"@,
            r.description matches Some(d) && d@ == "Existing file: "@ + existing_size_text@ + "\nNew file: "@
                + new_size_text@ + "\nPath: "@ + file_path@,
            r.transfer_id matches Some(t) && t@ == transfer_id@,
            r.operation == Some(operation),
            r.status is None,
            r.actions@.map_values(|a: PromptAction| a@) == seq![
                ActionView { id: "overwrite"@, label: "Overwrite"@, style: "primary"@, is_default: true },
                ActionView { id: "rename"@, label: "Rename New"@, style: "secondary"@, is_default: false },
                ActionView { id: "skip"@, label: "Skip"@, style: "secondary"@, is_default: false },
                ActionView { id: "cancel"@, label: "Cancel Transfer"@, style: "danger"@, is_default: false },
            ],
            r.context@.len() == 0,
            r.timestamp == now_secs,
            r.requires_response,
    {
        let id = self.next_id();
        let mut actions: Vec<PromptAction> = Vec::new();
        actions.push(action("overwrite", "Overwrite", "primary", true));
        actions.push(action("rename", "Rename New", "secondary", false));
        actions.push(action("skip", "Skip", "secondary", false));
        actions.push(action("cancel", "Cancel Transfer", "danger", false));
        let r = TransferPrompt {
            id,
            prompt_type: PromptType::Question,
            severity: PromptSeverity::Medium,
            title: s("File Already Exists"),
            message: shown_name(file_path).concat(" already exists. Do you want to overwrite it?"),
            description: Some(
                s("Existing file: ").concat(existing_size_text).concat("\nNew file: ").concat(new_size_text).concat(
                    "\nPath: ",
                ).concat(file_path),
            ),
            transfer_id: Some(s(transfer_id)),
            operation: Some(operation),
            status: None,
            actions,
            context: Vec::new(),
            timestamp: now_secs,
            requires_response: true,
        };
        proof {
            assert(r.actions@.map_values(|a: PromptAction| a@) =~= seq![
                ActionView { id: "overwrite"@, label: "Overwrite"@, style: "primary"@, is_default: true },
                ActionView { id: "rename"@, label: "Rename New"@, style: "secondary"@, is_default: false },
                ActionView { id: "skip"@, label: "Skip"@, style: "secondary"@, is_default: false },
                ActionView { id: "cancel"@, label: "Cancel Transfer"@, style: "danger"@, is_default: false },
            ]);
        }
        r
    }

    /// The warning before a large transfer of `file_size_text`.
    pub fn confirm_large_file(
        &mut self,
        transfer_id: &str,
        operation: TransferOperation,
        file_path: &str,
        file_size_text: &str,
        now_secs: u64,
    ) -> (r: TransferPrompt)
        ensures
            r.id@ == "prompt_"@ + decimal(old(self).next_number() as nat),
            final(self).next_number() == old(self).next_number().wrapping_add(1),
            r.prompt_type == PromptType::Warning,
            r.severity == PromptSeverity::Medium,
            r.title@ == "Large File Transfer"@,
            r.message@ == "This is a large file transfer: "@ + file_size_text@,
            r.description matches Some(d) && d@ == "File: "@ + file_path@ + "\nSize: "@ + file_size_text@
                + "\nThis may take a long time to transfer."@,
            r.transfer_id matches Some(t) && t@ == transfer_id@,
            r.operation == Some(operation),
            r.status is None,
            r.actions@.map_values(|a: PromptAction| a@) == seq![
                ActionView { id: "proceed"@, label: "Proceed"@, style: "primary"@, is_default: true },
                ActionView { id: "cancel"@, label: "Cancel"@, style: "secondary"@, is_default: false },
            ],
            r.context@.len() == 0,
            r.timestamp == now_secs,
            r.requires_response,
    {
        let id = self.next_id();
        let mut actions: Vec<PromptAction> = Vec::new();
        actions.push(action("proceed", "Proceed", "primary", true));
        actions.push(action("cancel", "Cancel", "secondary", false));
        let r = TransferPrompt {
            id,
            prompt_type: PromptType::Warning,
            severity: PromptSeverity::Medium,
            title: s("Large File Transfer"),
            message: s("This is a large file transfer: ").concat(file_size_text),
            description: Some(
                s("File: ").concat(file_path).concat("\nSize: ").concat(file_size_text).concat(
                    "\nThis may take a long time to transfer.",
                ),
            ),
            transfer_id: Some(s(transfer_id)),
            operation: Some(operation),
            status: None,
            actions,
            context: Vec::new(),
            timestamp: now_secs,
            requires_response: true,
        };
        proof {
            assert(r.actions@.map_values(|a: PromptAction| a@) =~= seq![
                ActionView { id: "proceed"@, label: "Proceed"@, style: "primary"@, is_default: true },
                ActionView { id: "cancel"@, label: "Cancel"@, style: "secondary"@, is_default: false },
            ]);
        }
        r
    }
}

} // verus!
