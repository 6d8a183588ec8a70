//! The ways in which a transfer fails.

use crate::supervisor::{SpawnStage, Tool};
use crate::text::{integer_text, join, push_integer};
use vstd::prelude::*;
use vstd::string::*;

verus! {

/// Why a transfer did not complete.
#[derive(Debug, PartialEq, Eq)]
pub enum TransferError {
    /// A path of the request is empty.
    EmptyPath,
    /// Nothing exists at the source path.
    SourceNotFound(String),
    /// The transfer tool could not be found or started.
    SpawnFailed { tool: Tool, stage: SpawnStage, reason: String },
    /// The supervisor reported an error while the tool ran.
    ProcessRuntimeError(String),
    /// The tool ended with an exit code other than zero, or without one.
    NonZeroExit(Option<i32>),
    /// A move could not rename the source, and copying was no way out.
    MoveFailed(String),
    /// A move copied the source and then failed to delete it.
    PostCopyCleanupFailed(String),
}

/// The mathematical content of a [`TransferError`].
pub enum TransferErrorView {
    EmptyPath,
    SourceNotFound(Seq<char>),
    SpawnFailed { tool: Tool, stage: SpawnStage, reason: Seq<char> },
    ProcessRuntimeError(Seq<char>),
    NonZeroExit(Option<i32>),
    MoveFailed(Seq<char>),
    PostCopyCleanupFailed(Seq<char>),
}

impl View for TransferError {
    type V = TransferErrorView;

    open spec fn view(&self) -> TransferErrorView {
        match self {
            TransferError::EmptyPath => TransferErrorView::EmptyPath,
            TransferError::SourceNotFound(path) => TransferErrorView::SourceNotFound(path@),
            TransferError::SpawnFailed { tool, stage, reason } => TransferErrorView::SpawnFailed {
                tool: *tool,
                stage: *stage,
                reason: reason@,
            },
            TransferError::ProcessRuntimeError(reason) => TransferErrorView::ProcessRuntimeError(
                reason@,
            ),
            TransferError::NonZeroExit(code) => TransferErrorView::NonZeroExit(*code),
            TransferError::MoveFailed(reason) => TransferErrorView::MoveFailed(reason@),
            TransferError::PostCopyCleanupFailed(reason) => {
                TransferErrorView::PostCopyCleanupFailed(reason@)
            },
        }
    }
}

impl DeepView for TransferError {
    type V = TransferErrorView;

    open spec fn deep_view(&self) -> TransferErrorView {
        self@
    }
}

/// An exit code as it is shown to the user: `Some(3)`, `Some(-1)`, `None`.
pub open spec fn exit_code_text(code: Option<i32>) -> Seq<char> {
    match code {
        Some(value) => "Some("@ + integer_text(value as int) + ")"@,
        None => "None"@,
    }
}

/// The sentence that reports a failure to the user.
pub open spec fn failure_text(error: TransferErrorView) -> Seq<char> {
    match error {
        TransferErrorView::EmptyPath => "Source and destination paths must not be empty"@,
        TransferErrorView::SourceNotFound(path) => "Source path does not exist: "@ + path,
        TransferErrorView::SpawnFailed { tool, stage, reason } => match stage {
            SpawnStage::Locate => "Failed to access "@ + tool.name_text() + " sidecar: "@ + reason,
            SpawnStage::Start => "Failed to spawn "@ + tool.name_text() + ": "@ + reason,
        },
        TransferErrorView::ProcessRuntimeError(reason) => "Process error: "@ + reason,
        TransferErrorView::NonZeroExit(code) => "Transfer failed with exit code: "@
            + exit_code_text(code),
        TransferErrorView::MoveFailed(reason) => "Failed to move file: "@ + reason,
        TransferErrorView::PostCopyCleanupFailed(reason) =>
            "Failed to delete original file after copy: "@ + reason,
    }
}

impl TransferError {
    /// An independent copy of this error.
    pub fn duplicate(&self) -> (copy: TransferError)
        ensures
            copy@ == self@,
    {
        match self {
            TransferError::EmptyPath => TransferError::EmptyPath,
            TransferError::SourceNotFound(path) => TransferError::SourceNotFound(path.clone()),
            TransferError::SpawnFailed { tool, stage, reason } => TransferError::SpawnFailed {
                tool: *tool,
                stage: *stage,
                reason: reason.clone(),
            },
            TransferError::ProcessRuntimeError(reason) => TransferError::ProcessRuntimeError(
                reason.clone(),
            ),
            TransferError::NonZeroExit(code) => TransferError::NonZeroExit(*code),
            TransferError::MoveFailed(reason) => TransferError::MoveFailed(reason.clone()),
            TransferError::PostCopyCleanupFailed(reason) => TransferError::PostCopyCleanupFailed(
                reason.clone(),
            ),
        }
    }

    /// The sentence that reports this failure to the user.
    pub fn message(&self) -> (text: String)
        ensures
            text@ == failure_text(self@),
    {
        match self {
            TransferError::EmptyPath => String::from_str(
                "Source and destination paths must not be empty",
            ),
            TransferError::SourceNotFound(path) => join(
                "Source path does not exist: ",
                path.as_str(),
            ),
            TransferError::SpawnFailed { tool, stage, reason } => {
                let mut text = match stage {
                    SpawnStage::Locate => {
                        let mut text = join("Failed to access ", tool.name());
                        text.append(" sidecar: ");
                        text
                    },
                    SpawnStage::Start => {
                        let mut text = join("Failed to spawn ", tool.name());
                        text.append(": ");
                        text
                    },
                };
                text.append(reason.as_str());
                text
            },
            TransferError::ProcessRuntimeError(reason) => join("Process error: ", reason.as_str()),
            TransferError::NonZeroExit(code) => {
                let mut text = String::from_str("Transfer failed with exit code: ");
                match code {
                    Some(value) => {
                        text.append("Some(");
                        push_integer(&mut text, *value);
                        text.append(")");
                        assert(text@ =~= failure_text(self@));
                    },
                    None => {
                        text.append("None");
                    },
                }
                text
            },
            TransferError::MoveFailed(reason) => join("Failed to move file: ", reason.as_str()),
            TransferError::PostCopyCleanupFailed(reason) => join(
                "Failed to delete original file after copy: ",
                reason.as_str(),
            ),
        }
    }
}

} // verus!
