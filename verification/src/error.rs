//! What can go wrong in the engine, and how it is told.

use vstd::prelude::*;
use crate::text::{concat2, concat3, concat5, i64_text, signed_decimal};

verus! {

/// The programs that the engine has run for it.
#[derive(Debug, Clone, Copy, PartialEq, Eq)]
pub enum Tool {
    /// The tool that copies an image from a registry.
    Copy,
    /// The tool that unpacks an image into a bundle.
    Unpack,
    /// The runtime that steers containers.
    Runtime,
}

/// A failure of the engine.
#[derive(Debug, Clone, PartialEq, Eq)]
pub enum EngineError {
    /// The image specification was empty.
    EmptySpec,
    /// A tool exited with a failure. `command` is its command line, `stderr`
    /// what it wrote to its standard error.
    ToolFailed { tool: Tool, command: String, stderr: String },
    /// The start signal could not be written to the monitor. `stderr` holds
    /// what the monitor wrote if it then exited with a failure.
    SignalFailed { stderr: Option<String> },
    /// The monitor exited with a failure while it set the container up.
    SetupFailed { stderr: String },
    /// Nothing could be read from the sync pipe.
    SyncUnreadable,
    /// What was read from the sync pipe is not a report of the monitor.
    SyncMalformed,
    /// The monitor reported that the container did not come up.
    SyncReported { status: i32, message: String },
    /// No container of that name is registered.
    NotFound { name: String },
    /// What a program wrote is not valid UTF-8.
    InvalidUtf8,
    /// The runtime's reply is not a container state.
    InvalidState { reason: String },
    /// The exit file does not hold a decimal exit code.
    InvalidExitCode,
    /// An event was handed to an exchange that did not wait for it.
    OutOfTurn,
    /// A file, pipe or socket operation failed.
    Io { message: String },
}

/// What an [`EngineError`] stands for.
pub enum ErrorView {
    EmptySpec,
    ToolFailed { tool: Tool, command: Seq<char>, stderr: Seq<char> },
    SignalFailed { stderr: Option<Seq<char>> },
    SetupFailed { stderr: Seq<char> },
    SyncUnreadable,
    SyncMalformed,
    SyncReported { status: i32, message: Seq<char> },
    NotFound { name: Seq<char> },
    InvalidUtf8,
    InvalidState { reason: Seq<char> },
    InvalidExitCode,
    OutOfTurn,
    Io { message: Seq<char> },
}

impl View for EngineError {
    type V = ErrorView;

    open spec fn view(&self) -> ErrorView {
        match self {
            EngineError::EmptySpec => ErrorView::EmptySpec,
            EngineError::ToolFailed { tool, command, stderr } => ErrorView::ToolFailed {
                tool: *tool,
                command: command@,
                stderr: stderr@,
            },
            EngineError::SignalFailed { stderr } => ErrorView::SignalFailed {
                stderr: match stderr {
                    Some(s) => Some(s@),
                    None => None,
                },
            },
            EngineError::SetupFailed { stderr } => ErrorView::SetupFailed { stderr: stderr@ },
            EngineError::SyncUnreadable => ErrorView::SyncUnreadable,
            EngineError::SyncMalformed => ErrorView::SyncMalformed,
            EngineError::SyncReported { status, message } => ErrorView::SyncReported {
                status: *status,
                message: message@,
            },
            EngineError::NotFound { name } => ErrorView::NotFound { name: name@ },
            EngineError::InvalidUtf8 => ErrorView::InvalidUtf8,
            EngineError::InvalidState { reason } => ErrorView::InvalidState { reason: reason@ },
            EngineError::InvalidExitCode => ErrorView::InvalidExitCode,
            EngineError::OutOfTurn => ErrorView::OutOfTurn,
            EngineError::Io { message } => ErrorView::Io { message: message@ },
        }
    }
}

/// The message of an error.
pub open spec fn error_text(e: ErrorView) -> Seq<char> {
    match e {
        ErrorView::EmptySpec => "container specification cannot be empty"@,
        ErrorView::ToolFailed { tool: Tool::Copy, command, stderr } =>
            "failed to fetch container, `"@ + command + "` returned non-zero exit status: ["@
            + stderr + "]"@,
        ErrorView::ToolFailed { tool: Tool::Unpack, command, stderr } =>
            "failed to unpack OCI container, `"@ + command
            + "` returned non-zero exit status: ["@ + stderr + "]"@,
        ErrorView::ToolFailed { tool: Tool::Runtime, command, stderr } => "`"@ + command
            + "` returned: ["@ + stderr + "]"@,
        ErrorView::SignalFailed { stderr: None } => "failed to send ready signal to `conmon`"@,
        ErrorView::SignalFailed { stderr: Some(stderr) } =>
            "failed to send ready signal to `conmon`, `conmon` exited with non-zero status: ["@
            + stderr + "]"@,
        ErrorView::SetupFailed { stderr } =>
            "failed to create container, `conmon` exited with non-zero status: ["@ + stderr + "]"@,
        ErrorView::SyncUnreadable => "failed to read from SyncPipe"@,
        ErrorView::SyncMalformed => "failed to parse SyncInfo object"@,
        ErrorView::SyncReported { status, message } =>
            "failed to read container PID from `conmon`, returned status "@ + signed_decimal(
            status as int,
        ) + ": ["@ + message + "]"@,
        ErrorView::NotFound { name } => "container \""@ + name + "\" does not exist"@,
        ErrorView::InvalidUtf8 => "output is not valid UTF-8"@,
        ErrorView::InvalidState { reason } => "invalid container state: "@ + reason,
        ErrorView::InvalidExitCode => "exit file does not hold an exit code"@,
        ErrorView::OutOfTurn => "event does not fit the state of the exchange"@,
        ErrorView::Io { message } => message,
    }
}

impl EngineError {
    /// The message that is shown for this error.
    pub fn message(&self) -> (r: String)
        ensures
            r@ == error_text(self@),
    {
        match self {
            EngineError::EmptySpec => String::from_str("container specification cannot be empty"),
            EngineError::ToolFailed { tool: Tool::Copy, command, stderr } => concat5(
                "failed to fetch container, `",
                command.as_str(),
                "` returned non-zero exit status: [",
                stderr.as_str(),
                "]",
            ),
            EngineError::ToolFailed { tool: Tool::Unpack, command, stderr } => concat5(
                "failed to unpack OCI container, `",
                command.as_str(),
                "` returned non-zero exit status: [",
                stderr.as_str(),
                "]",
            ),
            EngineError::ToolFailed { tool: Tool::Runtime, command, stderr } => concat5(
                "`",
                command.as_str(),
                "` returned: [",
                stderr.as_str(),
                "]",
            ),
            EngineError::SignalFailed { stderr: None } => String::from_str(
                "failed to send ready signal to `conmon`",
            ),
            EngineError::SignalFailed { stderr: Some(stderr) } => concat3(
                "failed to send ready signal to `conmon`, `conmon` exited with non-zero status: [",
                stderr.as_str(),
                "]",
            ),
            EngineError::SetupFailed { stderr } => concat3(
                "failed to create container, `conmon` exited with non-zero status: [",
                stderr.as_str(),
                "]",
            ),
            EngineError::SyncUnreadable => String::from_str("failed to read from SyncPipe"),
            EngineError::SyncMalformed => String::from_str("failed to parse SyncInfo object"),
            EngineError::SyncReported { status, message } => {
                let number = i64_text(*status as i64);
                concat5(
                    "failed to read container PID from `conmon`, returned status ",
                    number.as_str(),
                    ": [",
                    message.as_str(),
                    "]",
                )
            },
            EngineError::NotFound { name } => concat3(
                "container \"",
                name.as_str(),
                "\" does not exist",
            ),
            EngineError::InvalidUtf8 => String::from_str("output is not valid UTF-8"),
            EngineError::InvalidState { reason } => concat2(
                "invalid container state: ",
                reason.as_str(),
            ),
            EngineError::InvalidExitCode => String::from_str(
                "exit file does not hold an exit code",
            ),
            EngineError::OutOfTurn => String::from_str(
                "event does not fit the state of the exchange",
            ),
            EngineError::Io { message } => message.clone(),
        }
    }
}

} // verus!
