//! The requests that the user interface issues: copy and move.
//!
//! Each call makes the orchestrator for one transfer and issues its request.
//! What comes back is the orchestrator and its first actions; the caller
//! carries them out and feeds the outcomes to [`Transfer::step`].

use crate::error::TransferError;
use crate::orchestrator::{
    initial, next, Action, Input, InputView, Transfer, TransferMode, TransferRequest,
    TransferRequestView,
};
use crate::platform::Platform;
use crate::supervisor::Tool;
use vstd::prelude::*;
use vstd::string::*;

verus! {

/// What a freshly issued request amounts to: nothing where a path is empty,
/// else the orchestrator after the request and its first actions.
pub open spec fn issued(
    source: Seq<char>,
    destination: Seq<char>,
    mode: TransferMode,
    tool: Tool,
    platform: Platform,
) -> Option<(crate::orchestrator::TransferView, Seq<crate::orchestrator::ActionView>)> {
    if source.len() == 0 || destination.len() == 0 {
        None
    } else {
        Some(
            next(
                initial(TransferRequestView { source, destination, mode }, tool, platform),
                InputView::Request,
            ),
        )
    }
}

/// Makes the orchestrator of a transfer and issues the request to it.
pub fn issue(
    source: String,
    destination: String,
    mode: TransferMode,
    tool: Tool,
    platform: Platform,
) -> (result: Result<(Transfer, Vec<Action>), TransferError>)
    ensures
        match result {
            Ok(started) => issued(source@, destination@, mode, tool, platform) == Some(
                (started.0@, started.1.deep_view()),
            ),
            Err(error) => issued(source@, destination@, mode, tool, platform) is None && error
                == TransferError::EmptyPath,
        },
{
    match TransferRequest::new(source, destination, mode) {
        Ok(request) => Ok(Transfer::new(request, tool, platform).step(Input::Request)),
        Err(error) => Err(error),
    }
}

/// Requests a copy of `source` to `destination` with rclone.
///
/// The request is refused where a path is empty. Otherwise the orchestrator
/// comes back together with its first action, the look at the source. A copy
/// onto the source itself is later written beside it, under a new name.
pub fn clone(source: &str, destination: &str) -> (result: Result<
    (Transfer, Vec<Action>),
    TransferError,
>)
    ensures
        match result {
            Ok(started) => issued(
                source@,
                destination@,
                TransferMode::Copy,
                Tool::Rclone,
                Platform::Other,
            ) == Some((started.0@, started.1.deep_view())),
            Err(error) => (source@.len() == 0 || destination@.len() == 0) && error
                == TransferError::EmptyPath,
        },
{
    issue(
        String::from_str(source),
        String::from_str(destination),
        TransferMode::Copy,
        Tool::Rclone,
        Platform::Other,
    )
}

/// Requests a move of `source` to `destination`.
///
/// The request is refused where a path is empty. Otherwise the orchestrator
/// comes back together with its first action, the look at the source. The
/// move is then tried as a rename; rclone copies only where the rename
/// fails and `platform` or the failure calls for the fallback.
pub fn cut(platform: Platform, source: String, destination: String) -> (result: Result<
    (Transfer, Vec<Action>),
    TransferError,
>)
    ensures
        match result {
            Ok(started) => issued(
                source@,
                destination@,
                TransferMode::Move,
                Tool::Rclone,
                platform,
            ) == Some((started.0@, started.1.deep_view())),
            Err(error) => (source@.len() == 0 || destination@.len() == 0) && error
                == TransferError::EmptyPath,
        },
{
    issue(source, destination, TransferMode::Move, Tool::Rclone, platform)
}

} // verus!
