//! Progress events and their publication to the user interface.
//!
//! The orchestrator describes what happened as a [`ProgressEvent`]. The
//! publisher turns each event into a named [`Notification`]; delivering it is
//! the embedding application's business, and a failed delivery never changes
//! the course of a transfer.

use crate::error::{failure_text, TransferError, TransferErrorView};
use crate::supervisor::Channel;
use vstd::prelude::*;
use vstd::string::*;

verus! {

/// One step in the visible life of a transfer.
#[derive(Debug, PartialEq, Eq)]
pub enum ProgressEvent {
    /// A line that the tool wrote to its standard output.
    Stdout(String),
    /// A line that the tool wrote to its standard error.
    Stderr(String),
    /// The transfer is done; the tool's exit code is carried along.
    Completed(i32),
    /// The transfer failed, and why.
    Failed(TransferError),
}

/// The mathematical content of a [`ProgressEvent`].
pub enum ProgressEventView {
    Stdout(Seq<char>),
    Stderr(Seq<char>),
    Completed(i32),
    Failed(TransferErrorView),
}

impl View for ProgressEvent {
    type V = ProgressEventView;

    open spec fn view(&self) -> ProgressEventView {
        match self {
            ProgressEvent::Stdout(line) => ProgressEventView::Stdout(line@),
            ProgressEvent::Stderr(line) => ProgressEventView::Stderr(line@),
            ProgressEvent::Completed(code) => ProgressEventView::Completed(*code),
            ProgressEvent::Failed(error) => ProgressEventView::Failed(error@),
        }
    }
}

impl DeepView for ProgressEvent {
    type V = ProgressEventView;

    open spec fn deep_view(&self) -> ProgressEventView {
        self@
    }
}

/// The event that carries one line of output from `channel`.
pub open spec fn line_event(channel: Channel, line: Seq<char>) -> ProgressEventView {
    match channel {
        Channel::Stdout => ProgressEventView::Stdout(line),
        Channel::Stderr => ProgressEventView::Stderr(line),
    }
}

impl ProgressEventView {
    /// Whether the event ends the transfer: nothing follows a terminal event.
    pub open spec fn is_terminal(self) -> bool {
        self is Completed || self is Failed
    }
}

impl ProgressEvent {
    /// The event that carries one line of output from `channel`.
    pub fn line(channel: Channel, text: String) -> (event: ProgressEvent)
        ensures
            event@ == line_event(channel, text@),
    {
        match channel {
            Channel::Stdout => ProgressEvent::Stdout(text),
            Channel::Stderr => ProgressEvent::Stderr(text),
        }
    }

    /// Whether the event ends the transfer.
    pub fn is_terminal(&self) -> (r: bool)
        ensures
            r == self@.is_terminal(),
    {
        match self {
            ProgressEvent::Completed(_) => true,
            ProgressEvent::Failed(_) => true,
            _ => false,
        }
    }
}

/// A named message for the user interface.
#[derive(Debug, PartialEq, Eq)]
pub struct Notification {
    pub channel: String,
    pub payload: String,
}

/// The mathematical content of a [`Notification`].
pub struct NotificationView {
    pub channel: Seq<char>,
    pub payload: Seq<char>,
}

impl View for Notification {
    type V = NotificationView;

    open spec fn view(&self) -> NotificationView {
        NotificationView { channel: self.channel@, payload: self.payload@ }
    }
}

/// The notification that announces an event: output and error lines go out
/// as they are, completion and failure as a sentence.
pub open spec fn notification_of(event: ProgressEventView) -> NotificationView {
    match event {
        ProgressEventView::Stdout(line) => NotificationView {
            channel: "transfer-output"@,
            payload: line,
        },
        ProgressEventView::Stderr(line) => NotificationView {
            channel: "transfer-error"@,
            payload: line,
        },
        ProgressEventView::Completed(_) => NotificationView {
            channel: "transfer-complete"@,
            payload: "Transfer completed successfully"@,
        },
        ProgressEventView::Failed(error) => NotificationView {
            channel: "transfer-failed"@,
            payload: failure_text(error),
        },
    }
}

/// Builds the notification that announces `event`.
pub fn publish(event: &ProgressEvent) -> (notification: Notification)
    ensures
        notification@ == notification_of(event@),
{
    match event {
        ProgressEvent::Stdout(line) => Notification {
            channel: String::from_str("transfer-output"),
            payload: line.clone(),
        },
        ProgressEvent::Stderr(line) => Notification {
            channel: String::from_str("transfer-error"),
            payload: line.clone(),
        },
        ProgressEvent::Completed(_) => Notification {
            channel: String::from_str("transfer-complete"),
            payload: String::from_str("Transfer completed successfully"),
        },
        ProgressEvent::Failed(error) => Notification {
            channel: String::from_str("transfer-failed"),
            payload: error.message(),
        },
    }
}

} // verus!
