//! Orchestration core of a desktop file-transfer utility.
//!
//! The crate decides how a copy or a move is carried out by an external
//! transfer tool, turns the tool's raw output into lines, classifies the
//! tool's lifecycle events into progress events for a user interface, and
//! prepares directory listings, drive lists and file-manager commands.
//! It performs no input or output itself: a thin shell around it runs the
//! actions that the crate hands out and reports back what happened.

pub mod boundary;
pub mod collision;
pub mod copy;
pub mod decoder;
pub mod error;
pub mod files;
pub mod orchestrator;
pub mod platform;
pub mod progress;
pub mod supervisor;
pub mod text;

use crate::copy::{issue, issued};
use crate::error::TransferError;
use crate::orchestrator::{Action, Transfer, TransferMode};
use crate::platform::Platform;
use crate::supervisor::Tool;
use vstd::prelude::*;

verus! {

/// Requests a copy of `source` to `dest` with rsync, which reports its
/// overall progress as it goes.
///
/// The request is refused where a path is empty. Otherwise the orchestrator
/// comes back together with its first action, the look at the source.
pub fn transfer_file(source: String, dest: String) -> (result: Result<
    (Transfer, Vec<Action>),
    TransferError,
>)
    ensures
        match result {
            Ok(started) => issued(
                source@,
                dest@,
                TransferMode::Copy,
                Tool::Rsync,
                Platform::Other,
            ) == Some((started.0@, started.1.deep_view())),
            Err(error) => (source@.len() == 0 || dest@.len() == 0) && error
                == TransferError::EmptyPath,
        },
{
    issue(source, dest, TransferMode::Copy, Tool::Rsync, Platform::Other)
}

} // verus!
