//! The interface to the process supervisor: the command line that it is asked
//! to start and the events that it reports about the running process.

use vstd::prelude::*;
use vstd::string::*;

verus! {

/// A program and its arguments, each a token of its own: nothing is ever
/// joined into one shell line.
#[derive(Debug, PartialEq, Eq)]
pub struct CommandLine {
    pub program: String,
    pub args: Vec<String>,
}

/// The mathematical content of a [`CommandLine`].
pub struct CommandLineView {
    pub program: Seq<char>,
    pub args: Seq<Seq<char>>,
}

impl View for CommandLine {
    type V = CommandLineView;

    open spec fn view(&self) -> CommandLineView {
        CommandLineView { program: self.program@, args: self.args.deep_view() }
    }
}

impl DeepView for CommandLine {
    type V = CommandLineView;

    open spec fn deep_view(&self) -> CommandLineView {
        self@
    }
}

/// The external transfer tools that the application ships.
#[derive(Clone, Copy, Debug, PartialEq, Eq, Structural)]
pub enum Tool {
    Rclone,
    Rsync,
}

impl Tool {
    /// The name under which the tool's binary is resolved.
    pub open spec fn name_text(self) -> Seq<char> {
        match self {
            Tool::Rclone => "rclone"@,
            Tool::Rsync => "rsync"@,
        }
    }

    /// The arguments that make the tool copy `source` to `destination` and
    /// report its progress. The paths are tokens of their own, so no
    /// character in them is ever read as syntax.
    pub open spec fn copy_args(self, source: Seq<char>, destination: Seq<char>) -> Seq<Seq<char>> {
        match self {
            Tool::Rclone => seq!["copy"@, source, destination, "-P"@],
            Tool::Rsync => seq!["-av"@, "--info=progress2"@, source, destination],
        }
    }

    /// The command line of a copy from `source` to `destination`.
    pub open spec fn copy_command(self, source: Seq<char>, destination: Seq<char>)
        -> CommandLineView {
        CommandLineView { program: self.name_text(), args: self.copy_args(source, destination) }
    }

    /// The name under which the tool's binary is resolved.
    pub fn name(self) -> (name: &'static str)
        ensures
            name@ == self.name_text(),
    {
        match self {
            Tool::Rclone => "rclone",
            Tool::Rsync => "rsync",
        }
    }

    /// Builds the command line of a copy from `source` to `destination`.
    pub fn command_line(self, source: &str, destination: &str) -> (command: CommandLine)
        ensures
            command@ == self.copy_command(source@, destination@),
    {
        let mut args: Vec<String> = Vec::new();
        match self {
            Tool::Rclone => {
                args.push(String::from_str("copy"));
                args.push(String::from_str(source));
                args.push(String::from_str(destination));
                args.push(String::from_str("-P"));
            },
            Tool::Rsync => {
                args.push(String::from_str("-av"));
                args.push(String::from_str("--info=progress2"));
                args.push(String::from_str(source));
                args.push(String::from_str(destination));
            },
        }
        assert(args.deep_view() =~= self.copy_args(source@, destination@));
        CommandLine { program: String::from_str(self.name()), args }
    }
}

/// The step at which starting a tool can fail.
#[derive(Clone, Copy, Debug, PartialEq, Eq, Structural)]
pub enum SpawnStage {
    /// The tool's binary could not be found beside the application.
    Locate,
    /// The binary was found and the host refused to start the process.
    Start,
}

/// The two channels on which a process writes its output.
#[derive(Clone, Copy, Debug, PartialEq, Eq, Structural)]
pub enum Channel {
    Stdout,
    Stderr,
}

/// What the supervisor reports about a process that it started.
#[derive(Debug, PartialEq, Eq)]
pub enum SupervisorEvent {
    /// A chunk of the process's standard output, cut wherever the pipe cut it.
    Stdout(Vec<u8>),
    /// A chunk of the process's standard error.
    Stderr(Vec<u8>),
    /// The process ended. The exit code is absent where a signal ended it.
    Terminated(Option<i32>),
    /// The supervisor itself failed while the process ran.
    Error(String),
}

/// The mathematical content of a [`SupervisorEvent`].
pub enum SupervisorEventView {
    Stdout(Seq<u8>),
    Stderr(Seq<u8>),
    Terminated(Option<i32>),
    Error(Seq<char>),
}

impl View for SupervisorEvent {
    type V = SupervisorEventView;

    open spec fn view(&self) -> SupervisorEventView {
        match self {
            SupervisorEvent::Stdout(bytes) => SupervisorEventView::Stdout(bytes@),
            SupervisorEvent::Stderr(bytes) => SupervisorEventView::Stderr(bytes@),
            SupervisorEvent::Terminated(code) => SupervisorEventView::Terminated(*code),
            SupervisorEvent::Error(reason) => SupervisorEventView::Error(reason@),
        }
    }
}

} // verus!
