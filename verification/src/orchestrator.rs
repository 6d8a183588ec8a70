//! The transfer orchestrator: a state machine from what has happened so far
//! and what happens next to the new state and the actions to carry out.
//!
//! The orchestrator performs nothing itself. Whoever embeds it runs each
//! [`Action`] (look at the source, rename, start the tool, delete, publish,
//! answer the caller) and reports the outcome back as the next [`Input`].
//!
//! ```text
//! Idle -> CollisionCheck -> Spawning -> Streaming -> Completed | Failed
//!                   \-> Renaming -/                \-> Cleanup -/
//! ```

use crate::collision::{effective_destination, resolve_collision};
use crate::decoder::{
    complete_lines, decoded, lemma_chunking_is_invisible, remainder_text, trailing, LineDecoder,
};
use crate::error::{TransferError, TransferErrorView};
use crate::platform::Platform;
use crate::progress::{line_event, ProgressEvent, ProgressEventView};
use crate::supervisor::{
    Channel, CommandLine, CommandLineView, SpawnStage, SupervisorEvent, SupervisorEventView,
    Tool,
};
use vstd::prelude::*;
use vstd::string::*;

verus! {

/// What a transfer does with the source once the destination holds it.
#[derive(Clone, Copy, Debug, PartialEq, Eq, Structural)]
pub enum TransferMode {
    /// The source stays.
    Copy,
    /// The source goes.
    Move,
}

/// A request to transfer `source` to `destination`. Both paths are non-empty.
#[derive(Debug, PartialEq, Eq)]
pub struct TransferRequest {
    source: String,
    destination: String,
    mode: TransferMode,
}

/// The mathematical content of a [`TransferRequest`].
pub struct TransferRequestView {
    pub source: Seq<char>,
    pub destination: Seq<char>,
    pub mode: TransferMode,
}

impl View for TransferRequest {
    type V = TransferRequestView;

    closed spec fn view(&self) -> TransferRequestView {
        TransferRequestView {
            source: self.source@,
            destination: self.destination@,
            mode: self.mode,
        }
    }
}

impl TransferRequest {
    #[verifier::type_invariant]
    spec fn names_both_paths(&self) -> bool {
        self.source@.len() > 0 && self.destination@.len() > 0
    }

    /// Makes a request. It is refused exactly when one of the paths is empty.
    pub fn new(source: String, destination: String, mode: TransferMode) -> (result: Result<
        TransferRequest,
        TransferError,
    >)
        ensures
            match result {
                Ok(request) => source@.len() > 0 && destination@.len() > 0 && request@ == (
                TransferRequestView { source: source@, destination: destination@, mode }),
                Err(error) => (source@.len() == 0 || destination@.len() == 0) && error
                    == TransferError::EmptyPath,
            },
    {
        if source.as_str().is_empty() || destination.as_str().is_empty() {
            Err(TransferError::EmptyPath)
        } else {
            Ok(TransferRequest { source, destination, mode })
        }
    }

    /// The path to transfer from.
    pub fn source(&self) -> (source: &String)
        ensures
            source@ == self@.source,
            source@.len() > 0,
    {
        proof {
            use_type_invariant(self);
        }
        &self.source
    }

    /// The path to transfer to, as it was asked for.
    pub fn destination(&self) -> (destination: &String)
        ensures
            destination@ == self@.destination,
            destination@.len() > 0,
    {
        proof {
            use_type_invariant(self);
        }
        &self.destination
    }

    /// Whether the source stays or goes.
    pub fn mode(&self) -> (mode: TransferMode)
        ensures
            mode == self@.mode,
    {
        self.mode
    }
}

/// Where a transfer stands.
#[derive(Debug, PartialEq, Eq)]
pub enum Phase {
    /// Nothing has been asked yet.
    Idle,
    /// The request is in; the source is being looked at.
    CollisionCheck,
    /// A move waits for the outcome of the rename.
    Renaming,
    /// The transfer tool is being started.
    Spawning,
    /// The tool runs and its output is passed on.
    Streaming,
    /// A move that had to copy waits for the source to be deleted.
    Cleanup,
    /// The transfer is done.
    Completed,
    /// The transfer failed, and why.
    Failed(TransferError),
}

/// The mathematical content of a [`Phase`].
pub enum PhaseView {
    Idle,
    CollisionCheck,
    Renaming,
    Spawning,
    Streaming,
    Cleanup,
    Completed,
    Failed(TransferErrorView),
}

impl View for Phase {
    type V = PhaseView;

    open spec fn view(&self) -> PhaseView {
        match self {
            Phase::Idle => PhaseView::Idle,
            Phase::CollisionCheck => PhaseView::CollisionCheck,
            Phase::Renaming => PhaseView::Renaming,
            Phase::Spawning => PhaseView::Spawning,
            Phase::Streaming => PhaseView::Streaming,
            Phase::Cleanup => PhaseView::Cleanup,
            Phase::Completed => PhaseView::Completed,
            Phase::Failed(error) => PhaseView::Failed(error@),
        }
    }
}

impl PhaseView {
    /// Whether the transfer has ended. An ended transfer never moves again.
    pub open spec fn is_terminal(self) -> bool {
        self is Completed || self is Failed
    }
}

/// What happened since the last step.
#[derive(Debug, PartialEq, Eq)]
pub enum Input {
    /// The user interface issued the request.
    Request,
    /// The source was looked at.
    SourceProbed { exists: bool },
    /// The rename went through: the move is done.
    RenameSucceeded,
    /// The rename failed. `cross_volume` says whether the failure is the one
    /// that a rename across volumes gives.
    RenameFailed { cross_volume: bool, reason: String },
    /// The transfer tool runs.
    SpawnSucceeded,
    /// The transfer tool could not be found or started; `stage` says which.
    SpawnFailed { stage: SpawnStage, reason: String },
    /// The supervisor reported about the running tool.
    Process(SupervisorEvent),
    /// The source of a move was deleted.
    SourceDeleted,
    /// The source of a move could not be deleted.
    DeleteFailed { reason: String },
    /// A notification could not be delivered to the user interface.
    DeliveryFailed { reason: String },
}

/// The mathematical content of an [`Input`].
pub enum InputView {
    Request,
    SourceProbed { exists: bool },
    RenameSucceeded,
    RenameFailed { cross_volume: bool, reason: Seq<char> },
    SpawnSucceeded,
    SpawnFailed { stage: SpawnStage, reason: Seq<char> },
    Process(SupervisorEventView),
    SourceDeleted,
    DeleteFailed { reason: Seq<char> },
    DeliveryFailed { reason: Seq<char> },
}

impl View for Input {
    type V = InputView;

    open spec fn view(&self) -> InputView {
        match self {
            Input::Request => InputView::Request,
            Input::SourceProbed { exists } => InputView::SourceProbed { exists: *exists },
            Input::RenameSucceeded => InputView::RenameSucceeded,
            Input::RenameFailed { cross_volume, reason } => InputView::RenameFailed {
                cross_volume: *cross_volume,
                reason: reason@,
            },
            Input::SpawnSucceeded => InputView::SpawnSucceeded,
            Input::SpawnFailed { stage, reason } => InputView::SpawnFailed {
                stage: *stage,
                reason: reason@,
            },
            Input::Process(event) => InputView::Process(event@),
            Input::SourceDeleted => InputView::SourceDeleted,
            Input::DeleteFailed { reason } => InputView::DeleteFailed { reason: reason@ },
            Input::DeliveryFailed { reason } => InputView::DeliveryFailed { reason: reason@ },
        }
    }
}

/// What the embedding application is to do next.
#[derive(Debug, PartialEq, Eq)]
pub enum Action {
    /// Find out whether anything exists at `path`.
    ProbeSource { path: String },
    /// Rename `from` to `to` in one step.
    Rename { from: String, to: String },
    /// Start the transfer tool with this command line.
    Spawn(CommandLine),
    /// Delete the source of a move.
    DeleteSource { path: String },
    /// Tell the user interface.
    Publish(ProgressEvent),
    /// Answer the call that issued the request.
    Reply(Result<(), TransferError>),
}

/// The mathematical content of an [`Action`].
pub enum ActionView {
    ProbeSource { path: Seq<char> },
    Rename { from: Seq<char>, to: Seq<char> },
    Spawn(CommandLineView),
    DeleteSource { path: Seq<char> },
    Publish(ProgressEventView),
    Reply(Result<(), TransferErrorView>),
}

impl View for Action {
    type V = ActionView;

    open spec fn view(&self) -> ActionView {
        match self {
            Action::ProbeSource { path } => ActionView::ProbeSource { path: path@ },
            Action::Rename { from, to } => ActionView::Rename { from: from@, to: to@ },
            Action::Spawn(command) => ActionView::Spawn(command@),
            Action::DeleteSource { path } => ActionView::DeleteSource { path: path@ },
            Action::Publish(event) => ActionView::Publish(event@),
            Action::Reply(answer) => ActionView::Reply(
                match answer {
                    Ok(_) => Ok(()),
                    Err(error) => Err(error@),
                },
            ),
        }
    }
}

impl DeepView for Action {
    type V = ActionView;

    open spec fn deep_view(&self) -> ActionView {
        self@
    }
}

/// The mathematical content of a [`Transfer`].
pub struct TransferView {
    pub source: Seq<char>,
    /// The destination in force: as requested until the collision check,
    /// effective after it.
    pub destination: Seq<char>,
    pub mode: TransferMode,
    pub tool: Tool,
    pub platform: Platform,
    pub phase: PhaseView,
    /// The bytes of the standard-output line that is not complete yet.
    pub stdout_pending: Seq<u8>,
    /// The bytes of the standard-error line that is not complete yet.
    pub stderr_pending: Seq<u8>,
}

impl TransferView {
    /// The same transfer in another phase.
    pub open spec fn at(self, phase: PhaseView) -> TransferView {
        TransferView { phase, ..self }
    }

    /// The command line that copies for this transfer.
    pub open spec fn copy_command(self) -> CommandLineView {
        self.tool.copy_command(self.source, self.destination)
    }

    /// The bytes of the line of `channel` that is not complete yet.
    pub open spec fn pending(self, channel: Channel) -> Seq<u8> {
        match channel {
            Channel::Stdout => self.stdout_pending,
            Channel::Stderr => self.stderr_pending,
        }
    }

    /// The same transfer with `held` as the incomplete line of `channel`.
    pub open spec fn holding(self, channel: Channel, held: Seq<u8>) -> TransferView {
        match channel {
            Channel::Stdout => TransferView { stdout_pending: held, ..self },
            Channel::Stderr => TransferView { stderr_pending: held, ..self },
        }
    }

    /// The same transfer with no incomplete line on either channel.
    pub open spec fn drained(self) -> TransferView {
        TransferView { stdout_pending: Seq::empty(), stderr_pending: Seq::empty(), ..self }
    }
}

/// A transfer that ends here in failure and says so through `actions`.
pub open spec fn failing(t: TransferView, error: TransferErrorView, actions: Seq<ActionView>) -> (
    TransferView,
    Seq<ActionView>,
) {
    (t.at(PhaseView::Failed(error)), actions)
}

/// A step that changes nothing and asks for nothing.
pub open spec fn staying(t: TransferView) -> (TransferView, Seq<ActionView>) {
    (t, Seq::empty())
}

/// One published line of `channel` per given line, in order.
pub open spec fn line_actions(channel: Channel, lines: Seq<Seq<char>>) -> Seq<ActionView> {
    lines.map_values(|line: Seq<char>| ActionView::Publish(line_event(channel, line)))
}

/// What is published of a channel when the output ends: the bytes still held,
/// as one last line, or nothing where none are held.
pub open spec fn last_line(channel: Channel, held: Seq<u8>) -> Seq<ActionView> {
    match remainder_text(held) {
        Some(text) => seq![ActionView::Publish(line_event(channel, text))],
        None => Seq::empty(),
    }
}

/// What is published when the output of the process ends: the last line of
/// standard output, then that of standard error, each only if bytes are held.
pub open spec fn remainders(t: TransferView) -> Seq<ActionView> {
    last_line(Channel::Stdout, t.stdout_pending) + last_line(Channel::Stderr, t.stderr_pending)
}

/// From `Idle`: the request starts the look at the source.
pub open spec fn on_idle(t: TransferView, input: InputView) -> (TransferView, Seq<ActionView>) {
    match input {
        InputView::Request => (
            t.at(PhaseView::CollisionCheck),
            seq![ActionView::ProbeSource { path: t.source }],
        ),
        _ => staying(t),
    }
}

/// From `CollisionCheck`: a missing source ends the transfer before anything
/// is started. Otherwise the collision policy fixes the destination; a copy
/// goes on to start the tool, a move to try the rename.
pub open spec fn on_collision_check(t: TransferView, input: InputView) -> (
    TransferView,
    Seq<ActionView>,
) {
    match input {
        InputView::SourceProbed { exists } => {
            if !exists {
                failing(
                    t,
                    TransferErrorView::SourceNotFound(t.source),
                    seq![ActionView::Reply(Err(TransferErrorView::SourceNotFound(t.source)))],
                )
            } else {
                let settled = TransferView {
                    destination: effective_destination(t.source, t.destination),
                    ..t
                };
                match t.mode {
                    TransferMode::Copy => (
                        settled.at(PhaseView::Spawning),
                        seq![ActionView::Spawn(settled.copy_command())],
                    ),
                    TransferMode::Move => (
                        settled.at(PhaseView::Renaming),
                        seq![ActionView::Rename { from: settled.source, to: settled.destination }],
                    ),
                }
            }
        },
        _ => staying(t),
    }
}

/// Whether a failed rename is answered by copying: always on a platform
/// where renames across volumes are known to fail, elsewhere only where the
/// failure is that of a rename across volumes.
pub open spec fn falls_back_to_copy(platform: Platform, cross_volume: bool) -> bool {
    cross_volume || platform.rename_needs_fallback()
}

/// From `Renaming`: a rename that went through completes the move without
/// the tool. A failed one falls back to copying where that can help, and
/// ends the transfer where it cannot.
pub open spec fn on_renaming(t: TransferView, input: InputView) -> (
    TransferView,
    Seq<ActionView>,
) {
    match input {
        InputView::RenameSucceeded => (t.at(PhaseView::Completed), seq![ActionView::Reply(Ok(()))]),
        InputView::RenameFailed { cross_volume, reason } => {
            if falls_back_to_copy(t.platform, cross_volume) {
                (t.at(PhaseView::Spawning), seq![ActionView::Spawn(t.copy_command())])
            } else {
                failing(
                    t,
                    TransferErrorView::MoveFailed(reason),
                    seq![ActionView::Reply(Err(TransferErrorView::MoveFailed(reason)))],
                )
            }
        },
        _ => staying(t),
    }
}

/// From `Spawning`: once the tool runs the caller is answered and streaming
/// begins. A tool that could not be started ends the transfer; the failure
/// is returned to the caller, and nothing is published.
pub open spec fn on_spawning(t: TransferView, input: InputView) -> (
    TransferView,
    Seq<ActionView>,
) {
    match input {
        InputView::SpawnSucceeded => (t.at(PhaseView::Streaming), seq![ActionView::Reply(Ok(()))]),
        InputView::SpawnFailed { stage, reason } => {
            let error = TransferErrorView::SpawnFailed { tool: t.tool, stage, reason };
            failing(t, error, seq![ActionView::Reply(Err(error))])
        },
        _ => staying(t),
    }
}

/// From `Streaming` on a chunk of output: the chunk goes through the line
/// decoder of its channel, each line that it completes is published, and
/// what follows the last line feed is held for the next chunk.
pub open spec fn on_output(t: TransferView, channel: Channel, bytes: Seq<u8>) -> (
    TransferView,
    Seq<ActionView>,
) {
    let seen = t.pending(channel) + bytes;
    (t.holding(channel, trailing(seen)), line_actions(channel, decoded(complete_lines(seen))))
}

/// From `Streaming` on the end of the process: what the channels still hold
/// is published first. Then exit code zero completes a copy and sends a move
/// to delete its source; anything else fails the transfer with that code.
pub open spec fn on_terminated(t: TransferView, code: Option<i32>) -> (
    TransferView,
    Seq<ActionView>,
) {
    if code == Some(0i32) {
        match t.mode {
            TransferMode::Copy => (
                t.drained().at(PhaseView::Completed),
                remainders(t).push(ActionView::Publish(ProgressEventView::Completed(0))),
            ),
            TransferMode::Move => (
                t.drained().at(PhaseView::Cleanup),
                remainders(t).push(ActionView::DeleteSource { path: t.source }),
            ),
        }
    } else {
        failing(
            t.drained(),
            TransferErrorView::NonZeroExit(code),
            remainders(t).push(
                ActionView::Publish(ProgressEventView::Failed(TransferErrorView::NonZeroExit(code))),
            ),
        )
    }
}

/// From `Streaming` on an error of the supervisor: what the channels still
/// hold is published, and the transfer fails at once.
pub open spec fn on_supervisor_error(t: TransferView, reason: Seq<char>) -> (
    TransferView,
    Seq<ActionView>,
) {
    failing(
        t.drained(),
        TransferErrorView::ProcessRuntimeError(reason),
        remainders(t).push(
            ActionView::Publish(
                ProgressEventView::Failed(TransferErrorView::ProcessRuntimeError(reason)),
            ),
        ),
    )
}

/// From `Streaming`: output chunks are decoded and published line by line;
/// the end of the process and an error of the supervisor end the streaming.
pub open spec fn on_streaming(t: TransferView, input: InputView) -> (
    TransferView,
    Seq<ActionView>,
) {
    match input {
        InputView::Process(SupervisorEventView::Stdout(bytes)) => on_output(
            t,
            Channel::Stdout,
            bytes,
        ),
        InputView::Process(SupervisorEventView::Stderr(bytes)) => on_output(
            t,
            Channel::Stderr,
            bytes,
        ),
        InputView::Process(SupervisorEventView::Terminated(code)) => on_terminated(t, code),
        InputView::Process(SupervisorEventView::Error(reason)) => on_supervisor_error(t, reason),
        _ => staying(t),
    }
}

/// From `Cleanup`: with the source deleted the move is complete; a source
/// that could not be deleted fails it, though the copy stands.
pub open spec fn on_cleanup(t: TransferView, input: InputView) -> (TransferView, Seq<ActionView>) {
    match input {
        InputView::SourceDeleted => (
            t.at(PhaseView::Completed),
            seq![ActionView::Publish(ProgressEventView::Completed(0))],
        ),
        InputView::DeleteFailed { reason } => failing(
            t,
            TransferErrorView::PostCopyCleanupFailed(reason),
            seq![
                ActionView::Publish(
                    ProgressEventView::Failed(TransferErrorView::PostCopyCleanupFailed(reason)),
                ),
            ],
        ),
        _ => staying(t),
    }
}

/// The transition function: the state after `input` and the actions that the
/// step asks for, in the order in which they are to be carried out. An input
/// that the phase does not expect, a failed delivery among them, changes
/// nothing. A transfer that has ended stays as it is.
pub open spec fn next(t: TransferView, input: InputView) -> (TransferView, Seq<ActionView>) {
    match t.phase {
        PhaseView::Idle => on_idle(t, input),
        PhaseView::CollisionCheck => on_collision_check(t, input),
        PhaseView::Renaming => on_renaming(t, input),
        PhaseView::Spawning => on_spawning(t, input),
        PhaseView::Streaming => on_streaming(t, input),
        PhaseView::Cleanup => on_cleanup(t, input),
        PhaseView::Completed => staying(t),
        PhaseView::Failed(_) => staying(t),
    }
}

/// One transfer, from request to its end.
#[derive(Debug)]
pub struct Transfer {
    source: String,
    destination: String,
    mode: TransferMode,
    tool: Tool,
    platform: Platform,
    phase: Phase,
    stdout: LineDecoder,
    stderr: LineDecoder,
}

impl View for Transfer {
    type V = TransferView;

    closed spec fn view(&self) -> TransferView {
        TransferView {
            source: self.source@,
            destination: self.destination@,
            mode: self.mode,
            tool: self.tool,
            platform: self.platform,
            phase: self.phase@,
            stdout_pending: self.stdout@,
            stderr_pending: self.stderr@,
        }
    }
}

/// The transfer that `request` describes, before anything has happened.
pub open spec fn initial(request: TransferRequestView, tool: Tool, platform: Platform)
    -> TransferView {
    TransferView {
        source: request.source,
        destination: request.destination,
        mode: request.mode,
        tool,
        platform,
        phase: PhaseView::Idle,
        stdout_pending: Seq::empty(),
        stderr_pending: Seq::empty(),
    }
}

fn publish_lines(channel: Channel, lines: Vec<String>) -> (actions: Vec<Action>)
    ensures
        actions.deep_view() == line_actions(channel, lines.deep_view()),
{
    let ghost all = lines.deep_view();
    let mut actions: Vec<Action> = Vec::new();
    for line in it: lines
        invariant
            it.seq().len() == all.len(),
            forall|i: int| 0 <= i < all.len() ==> (#[trigger] it.seq()[i])@ == all[i],
            actions.deep_view() == line_actions(channel, all.take(it.index() as int)),
    {
        let ghost done = actions.deep_view();
        let ghost n = it.index() as int;
        assert(line@ == all[n]);
        actions.push(Action::Publish(ProgressEvent::line(channel, line)));
        assert(actions.deep_view() =~= done.push(
            ActionView::Publish(line_event(channel, all[n])),
        ));
        assert(all.take(n + 1) =~= all.take(n).push(all[n]));
        assert(actions.deep_view() =~= line_actions(channel, all.take(n + 1)));
    }
    assert(all.take(all.len() as int) =~= all);
    actions
}

fn publish_last(channel: Channel, last: Option<String>, actions: &mut Vec<Action>)
    ensures
        final(actions).deep_view() == old(actions).deep_view() + (match last.deep_view() {
            Some(text) => seq![ActionView::Publish(line_event(channel, text))],
            None => Seq::empty(),
        }),
{
    let ghost before = actions.deep_view();
    match last {
        Some(text) => {
            actions.push(Action::Publish(ProgressEvent::line(channel, text)));
            assert(actions.deep_view() =~= before + seq![
                ActionView::Publish(line_event(channel, text@)),
            ]);
        },
        None => {
            assert(actions.deep_view() =~= before + Seq::<ActionView>::empty());
        },
    }
}

fn followed_by(actions: Vec<Action>, last: Action) -> (all: Vec<Action>)
    ensures
        all.deep_view() == actions.deep_view().push(last@),
{
    let ghost before = actions.deep_view();
    let mut all = actions;
    all.push(last);
    assert(all.deep_view() =~= before.push(last@));
    all
}

fn one(action: Action) -> (actions: Vec<Action>)
    ensures
        actions.deep_view() == seq![action@],
{
    let mut actions: Vec<Action> = Vec::new();
    actions.push(action);
    assert(actions.deep_view() =~= seq![action@]);
    actions
}

fn none() -> (actions: Vec<Action>)
    ensures
        actions.deep_view() == Seq::<ActionView>::empty(),
{
    let actions: Vec<Action> = Vec::new();
    assert(actions.deep_view() =~= Seq::<ActionView>::empty());
    actions
}

impl Transfer {
    /// A transfer for `request`, carried out by `tool` on `platform`. It
    /// waits in `Idle` for the request to be issued.
    pub fn new(request: TransferRequest, tool: Tool, platform: Platform) -> (transfer: Transfer)
        ensures
            transfer@ == initial(request@, tool, platform),
    {
        Transfer {
            source: request.source,
            destination: request.destination,
            mode: request.mode,
            tool,
            platform,
            phase: Phase::Idle,
            stdout: LineDecoder::new(),
            stderr: LineDecoder::new(),
        }
    }

    /// Where the transfer stands.
    pub fn phase(&self) -> (phase: &Phase)
        ensures
            phase@ == self@.phase,
    {
        &self.phase
    }

    /// Whether the transfer has ended.
    pub fn is_terminal(&self) -> (r: bool)
        ensures
            r == self@.phase.is_terminal(),
    {
        match &self.phase {
            Phase::Completed => true,
            Phase::Failed(_) => true,
            _ => false,
        }
    }

    /// The path that the transfer reads from.
    pub fn source(&self) -> (source: &String)
        ensures
            source@ == self@.source,
    {
        &self.source
    }

    /// The path that the transfer writes to.
    pub fn destination(&self) -> (destination: &String)
        ensures
            destination@ == self@.destination,
    {
        &self.destination
    }

    fn fail(self, error: TransferError, actions: Vec<Action>) -> (result: (Transfer, Vec<Action>))
        ensures
            (result.0@, result.1.deep_view()) == failing(self@, error@, actions.deep_view()),
    {
        (Transfer { phase: Phase::Failed(error), ..self }, actions)
    }

    fn spawn_copy(self) -> (result: (Transfer, Vec<Action>))
        ensures
            (result.0@, result.1.deep_view()) == (
                self@.at(PhaseView::Spawning),
                seq![ActionView::Spawn(self@.copy_command())],
            ),
    {
        let command = self.tool.command_line(self.source.as_str(), self.destination.as_str());
        (Transfer { phase: Phase::Spawning, ..self }, one(Action::Spawn(command)))
    }

    fn step_idle(self, input: Input) -> (result: (Transfer, Vec<Action>))
        ensures
            (result.0@, result.1.deep_view()) == on_idle(self@, input@),
    {
        match input {
            Input::Request => {
                let probe = Action::ProbeSource { path: self.source.clone() };
                (Transfer { phase: Phase::CollisionCheck, ..self }, one(probe))
            },
            _ => (self, none()),
        }
    }

    fn step_collision_check(self, input: Input) -> (result: (Transfer, Vec<Action>))
        ensures
            (result.0@, result.1.deep_view()) == on_collision_check(self@, input@),
    {
        match input {
            Input::SourceProbed { exists } => {
                if !exists {
                    let error = TransferError::SourceNotFound(self.source.clone());
                    let reply = Action::Reply(Err(error.duplicate()));
                    self.fail(error, one(reply))
                } else {
                    let Transfer { source, destination, mode, tool, platform, phase, stdout, stderr } =
                        self;
                    let destination = resolve_collision(source.as_str(), destination);
                    match mode {
                        TransferMode::Copy => {
                            let settled = Transfer {
                                source,
                                destination,
                                mode,
                                tool,
                                platform,
                                phase,
                                stdout,
                                stderr,
                            };
                            settled.spawn_copy()
                        },
                        TransferMode::Move => {
                            let rename = Action::Rename {
                                from: source.clone(),
                                to: destination.clone(),
                            };
                            (
                                Transfer {
                                    source,
                                    destination,
                                    mode,
                                    tool,
                                    platform,
                                    phase: Phase::Renaming,
                                    stdout,
                                    stderr,
                                },
                                one(rename),
                            )
                        },
                    }
                }
            },
            _ => (self, none()),
        }
    }

    fn step_renaming(self, input: Input) -> (result: (Transfer, Vec<Action>))
        ensures
            (result.0@, result.1.deep_view()) == on_renaming(self@, input@),
    {
        match input {
            Input::RenameSucceeded => (
                Transfer { phase: Phase::Completed, ..self },
                one(Action::Reply(Ok(()))),
            ),
            Input::RenameFailed { cross_volume, reason } => {
                if cross_volume || self.platform.always_falls_back() {
                    self.spawn_copy()
                } else {
                    let error = TransferError::MoveFailed(reason);
                    let reply = Action::Reply(Err(error.duplicate()));
                    self.fail(error, one(reply))
                }
            },
            _ => (self, none()),
        }
    }

    fn step_spawning(self, input: Input) -> (result: (Transfer, Vec<Action>))
        ensures
            (result.0@, result.1.deep_view()) == on_spawning(self@, input@),
    {
        match input {
            Input::SpawnSucceeded => (
                Transfer { phase: Phase::Streaming, ..self },
                one(Action::Reply(Ok(()))),
            ),
            Input::SpawnFailed { stage, reason } => {
                let error = TransferError::SpawnFailed { tool: self.tool, stage, reason };
                let reply = Action::Reply(Err(error.duplicate()));
                self.fail(error, one(reply))
            },
            _ => (self, none()),
        }
    }

    fn step_output(self, channel: Channel, bytes: Vec<u8>) -> (result: (Transfer, Vec<Action>))
        ensures
            (result.0@, result.1.deep_view()) == on_output(self@, channel, bytes@),
    {
        let mut moved = self;
        let lines = match channel {
            Channel::Stdout => moved.stdout.push(bytes.as_slice()),
            Channel::Stderr => moved.stderr.push(bytes.as_slice()),
        };
        (moved, publish_lines(channel, lines))
    }

    fn drain(self) -> (result: (Transfer, Vec<Action>))
        ensures
            (result.0@, result.1.deep_view()) == (self@.drained(), remainders(self@)),
    {
        let mut moved = self;
        let last_out = moved.stdout.finish();
        let last_err = moved.stderr.finish();
        let mut actions = none();
        publish_last(Channel::Stdout, last_out, &mut actions);
        publish_last(Channel::Stderr, last_err, &mut actions);
        assert(actions.deep_view() =~= remainders(self@));
        (moved, actions)
    }

    fn step_terminated(self, code: Option<i32>) -> (result: (Transfer, Vec<Action>))
        ensures
            (result.0@, result.1.deep_view()) == on_terminated(self@, code),
    {
        let (drained, remainders) = self.drain();
        let clean = match code {
            Some(value) => value == 0,
            None => false,
        };
        if clean {
            match drained.mode {
                TransferMode::Copy => (
                    Transfer { phase: Phase::Completed, ..drained },
                    followed_by(remainders, Action::Publish(ProgressEvent::Completed(0))),
                ),
                TransferMode::Move => {
                    let delete = Action::DeleteSource { path: drained.source.clone() };
                    (Transfer { phase: Phase::Cleanup, ..drained }, followed_by(remainders, delete))
                },
            }
        } else {
            let error = TransferError::NonZeroExit(code);
            let publish = Action::Publish(ProgressEvent::Failed(error.duplicate()));
            drained.fail(error, followed_by(remainders, publish))
        }
    }

    fn step_supervisor_error(self, reason: String) -> (result: (Transfer, Vec<Action>))
        ensures
            (result.0@, result.1.deep_view()) == on_supervisor_error(self@, reason@),
    {
        let (drained, remainders) = self.drain();
        let error = TransferError::ProcessRuntimeError(reason);
        let publish = Action::Publish(ProgressEvent::Failed(error.duplicate()));
        drained.fail(error, followed_by(remainders, publish))
    }

    fn step_streaming(self, input: Input) -> (result: (Transfer, Vec<Action>))
        ensures
            (result.0@, result.1.deep_view()) == on_streaming(self@, input@),
    {
        match input {
            Input::Process(SupervisorEvent::Stdout(bytes)) => self.step_output(
                Channel::Stdout,
                bytes,
            ),
            Input::Process(SupervisorEvent::Stderr(bytes)) => self.step_output(
                Channel::Stderr,
                bytes,
            ),
            Input::Process(SupervisorEvent::Terminated(code)) => self.step_terminated(code),
            Input::Process(SupervisorEvent::Error(reason)) => self.step_supervisor_error(reason),
            _ => (self, none()),
        }
    }

    fn step_cleanup(self, input: Input) -> (result: (Transfer, Vec<Action>))
        ensures
            (result.0@, result.1.deep_view()) == on_cleanup(self@, input@),
    {
        match input {
            Input::SourceDeleted => (
                Transfer { phase: Phase::Completed, ..self },
                one(Action::Publish(ProgressEvent::Completed(0))),
            ),
            Input::DeleteFailed { reason } => {
                let error = TransferError::PostCopyCleanupFailed(reason);
                let publish = Action::Publish(ProgressEvent::Failed(error.duplicate()));
                self.fail(error, one(publish))
            },
            _ => (self, none()),
        }
    }

    /// Takes one step: the transfer after `input`, and the actions to carry
    /// out, in order.
    pub fn step(self, input: Input) -> (result: (Transfer, Vec<Action>))
        ensures
            (result.0@, result.1.deep_view()) == next(self@, input@),
    {
        match &self.phase {
            Phase::Idle => self.step_idle(input),
            Phase::CollisionCheck => self.step_collision_check(input),
            Phase::Renaming => self.step_renaming(input),
            Phase::Spawning => self.step_spawning(input),
            Phase::Streaming => self.step_streaming(input),
            Phase::Cleanup => self.step_cleanup(input),
            Phase::Completed => (self, none()),
            Phase::Failed(_) => (self, none()),
        }
    }
}

/// The state after a whole sequence of inputs, and all the actions that the
/// steps asked for, in order.
pub open spec fn run(t: TransferView, inputs: Seq<InputView>) -> (TransferView, Seq<ActionView>)
    decreases inputs.len(),
{
    if inputs.len() == 0 {
        (t, Seq::empty())
    } else {
        let (middle, earlier) = run(t, inputs.drop_last());
        let (end, last) = next(middle, inputs.last());
        (end, earlier + last)
    }
}

/// Whether an action publishes an event that ends the transfer.
pub open spec fn publishes_the_end(action: ActionView) -> bool {
    action matches ActionView::Publish(event) && event.is_terminal()
}

/// A transfer that has ended takes no further step: whatever comes in, the
/// state stays and nothing is asked for.
pub proof fn lemma_the_end_is_final(t: TransferView, inputs: Seq<InputView>)
    requires
        t.phase.is_terminal(),
    ensures
        run(t, inputs) == (t, Seq::<ActionView>::empty()),
    decreases inputs.len(),
{
    if inputs.len() > 0 {
        lemma_the_end_is_final(t, inputs.drop_last());
        assert(Seq::<ActionView>::empty() + Seq::<ActionView>::empty() =~= Seq::<
            ActionView,
        >::empty());
    }
}

/// A notification that could not be delivered changes nothing: the transfer
/// stays where it is and no action follows.
pub proof fn lemma_failed_delivery_changes_nothing(t: TransferView, reason: Seq<char>)
    ensures
        next(t, InputView::DeliveryFailed { reason }) == (t, Seq::<ActionView>::empty()),
{
}

/// Within one step an event that ends the transfer is the last thing asked
/// for, and the transfer has ended once it is out.
pub proof fn lemma_step_ends_with_the_end(t: TransferView, input: InputView, i: int)
    requires
        0 <= i < next(t, input).1.len(),
        publishes_the_end(next(t, input).1[i]),
    ensures
        i == next(t, input).1.len() - 1,
        next(t, input).0.phase.is_terminal(),
{
}

/// Over any sequence of inputs, an event that ends the transfer is the last
/// action of all: at most one such event is ever published, nothing is
/// published or done after it, and the transfer has ended.
pub proof fn lemma_nothing_follows_the_end(t: TransferView, inputs: Seq<InputView>, i: int)
    requires
        0 <= i < run(t, inputs).1.len(),
        publishes_the_end(run(t, inputs).1[i]),
    ensures
        i == run(t, inputs).1.len() - 1,
        run(t, inputs).0.phase.is_terminal(),
    decreases inputs.len(),
{
    let (middle, earlier) = run(t, inputs.drop_last());
    let (end, last) = next(middle, inputs.last());
    if i < earlier.len() {
        lemma_nothing_follows_the_end(t, inputs.drop_last(), i);
        lemma_the_end_is_final(middle, seq![inputs.last()]);
        assert(seq![inputs.last()].drop_last() =~= Seq::<InputView>::empty());
        assert(last =~= Seq::<ActionView>::empty());
    } else {
        lemma_step_ends_with_the_end(middle, inputs.last(), i - earlier.len());
    }
}

/// Whether the call that issued the request still waits for its answer in
/// this phase.
pub open spec fn awaits_answer(phase: PhaseView) -> bool {
    phase is Idle || phase is CollisionCheck || phase is Renaming || phase is Spawning
}

/// A step answers the caller at most once, only while the caller waits, and
/// the caller no longer waits after the answer. A step never makes the
/// caller wait again.
pub proof fn lemma_step_answers_once(t: TransferView, input: InputView, i: int)
    requires
        0 <= i < next(t, input).1.len(),
        next(t, input).1[i] is Reply,
    ensures
        awaits_answer(t.phase),
        !awaits_answer(next(t, input).0.phase),
        forall|j: int|
            0 <= j < next(t, input).1.len() && j != i ==> !(#[trigger] next(t, input).1[j]
                is Reply),
{
}

/// Over any sequence of inputs the caller is answered at most once.
pub proof fn lemma_caller_is_answered_once(
    t: TransferView,
    inputs: Seq<InputView>,
    i: int,
    j: int,
)
    requires
        0 <= i < j < run(t, inputs).1.len(),
        run(t, inputs).1[i] is Reply,
    ensures
        !(run(t, inputs).1[j] is Reply),
        !awaits_answer(run(t, inputs).0.phase),
    decreases inputs.len(),
{
    let (middle, earlier) = run(t, inputs.drop_last());
    let (end, last) = next(middle, inputs.last());
    if j < earlier.len() {
        lemma_caller_is_answered_once(t, inputs.drop_last(), i, j);
        lemma_waiting_never_resumes(middle, inputs.last());
    } else if i < earlier.len() {
        lemma_answered_stays_answered(t, inputs.drop_last(), i);
        lemma_waiting_never_resumes(middle, inputs.last());
        if last[j - earlier.len()] is Reply {
            lemma_step_answers_once(middle, inputs.last(), j - earlier.len());
        }
    } else {
        lemma_step_answers_once(middle, inputs.last(), i - earlier.len());
    }
}

/// Once a run has answered the caller, the caller no longer waits.
pub proof fn lemma_answered_stays_answered(t: TransferView, inputs: Seq<InputView>, i: int)
    requires
        0 <= i < run(t, inputs).1.len(),
        run(t, inputs).1[i] is Reply,
    ensures
        !awaits_answer(run(t, inputs).0.phase),
    decreases inputs.len(),
{
    let (middle, earlier) = run(t, inputs.drop_last());
    if i < earlier.len() {
        lemma_answered_stays_answered(t, inputs.drop_last(), i);
        lemma_waiting_never_resumes(middle, inputs.last());
    } else {
        lemma_step_answers_once(middle, inputs.last(), i - earlier.len());
    }
}

/// A caller that no longer waits is never made to wait again.
pub proof fn lemma_waiting_never_resumes(t: TransferView, input: InputView)
    requires
        !awaits_answer(t.phase),
    ensures
        !awaits_answer(next(t, input).0.phase),
{
}

/// From a request to a missing source: the source is looked at, the caller
/// is told that it was not found, and the transfer has ended. No tool is
/// started, now or later.
pub proof fn lemma_missing_source_starts_nothing(
    request: TransferRequestView,
    tool: Tool,
    platform: Platform,
    later: Seq<InputView>,
)
    ensures
        ({
            let asked = next(initial(request, tool, platform), InputView::Request);
            let probed = next(asked.0, InputView::SourceProbed { exists: false });
            let missing = TransferErrorView::SourceNotFound(request.source);
            &&& asked.1 == seq![ActionView::ProbeSource { path: request.source }]
            &&& probed.1 == seq![ActionView::Reply(Err(missing))]
            &&& probed.0.phase == PhaseView::Failed(missing)
            &&& run(probed.0, later).1 == Seq::<ActionView>::empty()
        }),
{
    let asked = next(initial(request, tool, platform), InputView::Request);
    let probed = next(asked.0, InputView::SourceProbed { exists: false });
    lemma_the_end_is_final(probed.0, later);
}

/// Once the source is known to exist, the destination in force is the
/// effective destination of the request. It is never the source: a request
/// onto the source itself is renamed once and then no longer collides.
pub proof fn lemma_collision_is_settled(t: TransferView)
    requires
        t.phase is CollisionCheck,
    ensures
        ({
            let after = next(t, InputView::SourceProbed { exists: true }).0;
            &&& after.destination == effective_destination(t.source, t.destination)
            &&& after.destination != t.source
            &&& after.source == t.source
            &&& t.mode == TransferMode::Copy ==> next(
                t,
                InputView::SourceProbed { exists: true },
            ).1 == seq![
                ActionView::Spawn(t.tool.copy_command(t.source, after.destination)),
            ]
        }),
{
    crate::collision::lemma_effective_destination_is_free(t.source, t.destination);
}

/// A copy never touches its source: whatever happens, it asks neither for a
/// rename nor for a deletion.
pub proof fn lemma_copy_keeps_the_source(t: TransferView, inputs: Seq<InputView>, i: int)
    requires
        t.mode == TransferMode::Copy,
        0 <= i < run(t, inputs).1.len(),
    ensures
        !(run(t, inputs).1[i] is DeleteSource),
        !(run(t, inputs).1[i] is Rename),
        run(t, inputs).0.mode == TransferMode::Copy,
    decreases inputs.len(),
{
    let (middle, earlier) = run(t, inputs.drop_last());
    lemma_run_keeps_the_mode(t, inputs.drop_last());
    if i < earlier.len() {
        lemma_copy_keeps_the_source(t, inputs.drop_last(), i);
    }
}

/// A run keeps the mode of the transfer.
pub proof fn lemma_run_keeps_the_mode(t: TransferView, inputs: Seq<InputView>)
    ensures
        run(t, inputs).0.mode == t.mode,
    decreases inputs.len(),
{
    if inputs.len() > 0 {
        lemma_run_keeps_the_mode(t, inputs.drop_last());
    }
}

/// What is published when the output ends is lines only: none of it ends
/// the transfer.
pub proof fn lemma_remainders_are_lines(t: TransferView, i: int)
    requires
        0 <= i < remainders(t).len(),
    ensures
        remainders(t)[i] is Publish,
        !publishes_the_end(remainders(t)[i]),
{
}

/// While a copy streams, exit code zero publishes what the channels still
/// hold and then the one event that completes the copy; the transfer has
/// ended and nothing happens after.
pub proof fn lemma_zero_exit_completes_a_copy(t: TransferView, later: Seq<InputView>)
    requires
        t.phase is Streaming,
        t.mode == TransferMode::Copy,
    ensures
        ({
            let ended = next(t, InputView::Process(SupervisorEventView::Terminated(Some(0i32))));
            &&& ended.0 == t.drained().at(PhaseView::Completed)
            &&& ended.1 == remainders(t).push(
                ActionView::Publish(ProgressEventView::Completed(0)),
            )
            &&& run(ended.0, later) == (ended.0, Seq::<ActionView>::empty())
        }),
{
    lemma_the_end_is_final(t.drained().at(PhaseView::Completed), later);
}

/// While a move streams its fallback copy, exit code zero publishes what the
/// channels still hold and asks for the source to be deleted, and the
/// deletion publishes the one event that completes the move; nothing happens
/// after.
pub proof fn lemma_zero_exit_completes_a_move(t: TransferView, later: Seq<InputView>)
    requires
        t.phase is Streaming,
        t.mode == TransferMode::Move,
    ensures
        ({
            let copied = next(t, InputView::Process(SupervisorEventView::Terminated(Some(0i32))));
            let ended = next(copied.0, InputView::SourceDeleted);
            &&& copied.0 == t.drained().at(PhaseView::Cleanup)
            &&& copied.1 == remainders(t).push(ActionView::DeleteSource { path: t.source })
            &&& ended.0 == t.drained().at(PhaseView::Completed)
            &&& ended.1 == seq![ActionView::Publish(ProgressEventView::Completed(0))]
            &&& run(ended.0, later) == (ended.0, Seq::<ActionView>::empty())
        }),
{
    lemma_the_end_is_final(t.drained().at(PhaseView::Completed), later);
}

/// While a transfer streams, any exit other than code zero publishes what
/// the channels still hold and then the one event that fails the transfer,
/// carrying that code; the transfer has ended and nothing happens after.
pub proof fn lemma_nonzero_exit_fails(t: TransferView, code: Option<i32>, later: Seq<InputView>)
    requires
        t.phase is Streaming,
        code != Some(0i32),
    ensures
        ({
            let ended = next(t, InputView::Process(SupervisorEventView::Terminated(code)));
            let failure = TransferErrorView::NonZeroExit(code);
            &&& ended.0 == t.drained().at(PhaseView::Failed(failure))
            &&& ended.1 == remainders(t).push(
                ActionView::Publish(ProgressEventView::Failed(failure)),
            )
            &&& run(ended.0, later) == (ended.0, Seq::<ActionView>::empty())
        }),
{
    lemma_the_end_is_final(
        t.drained().at(PhaseView::Failed(TransferErrorView::NonZeroExit(code))),
        later,
    );
}

/// A tool that cannot be found or started fails the transfer before
/// anything is published: the caller is told why, and that is all that ever
/// happens.
pub proof fn lemma_failed_spawn_publishes_nothing(
    t: TransferView,
    stage: SpawnStage,
    reason: Seq<char>,
    later: Seq<InputView>,
)
    requires
        t.phase is Spawning,
    ensures
        ({
            let ended = next(t, InputView::SpawnFailed { stage, reason });
            let failure = TransferErrorView::SpawnFailed { tool: t.tool, stage, reason };
            &&& ended.0 == t.at(PhaseView::Failed(failure))
            &&& ended.1 == seq![ActionView::Reply(Err(failure))]
            &&& run(ended.0, later) == (ended.0, Seq::<ActionView>::empty())
        }),
{
    lemma_the_end_is_final(
        t.at(PhaseView::Failed(TransferErrorView::SpawnFailed { tool: t.tool, stage, reason })),
        later,
    );
}

/// A move whose rename goes through is complete at once: the caller is
/// answered and the transfer tool is never started.
pub proof fn lemma_rename_completes_a_move(t: TransferView, later: Seq<InputView>)
    requires
        t.phase is Renaming,
    ensures
        ({
            let ended = next(t, InputView::RenameSucceeded);
            &&& ended.0 == t.at(PhaseView::Completed)
            &&& ended.1 == seq![ActionView::Reply(Ok(()))]
            &&& run(ended.0, later) == (ended.0, Seq::<ActionView>::empty())
        }),
{
    lemma_the_end_is_final(t.at(PhaseView::Completed), later);
}

/// A move whose rename fails as renames across volumes do falls back to
/// copying, on every platform.
pub proof fn lemma_cross_volume_move_falls_back(t: TransferView, reason: Seq<char>)
    requires
        t.phase is Renaming,
    ensures
        next(t, InputView::RenameFailed { cross_volume: true, reason }) == (
            t.at(PhaseView::Spawning),
            seq![ActionView::Spawn(t.copy_command())],
        ),
{
}

/// The source is deleted only once the copy has succeeded: a step asks for
/// the deletion only when a streaming move sees its tool end with exit code
/// zero, and then as the last thing it asks for.
pub proof fn lemma_source_deleted_only_after_copy(t: TransferView, input: InputView, i: int)
    requires
        0 <= i < next(t, input).1.len(),
        next(t, input).1[i] is DeleteSource,
    ensures
        t.phase is Streaming,
        t.mode == TransferMode::Move,
        input == InputView::Process(SupervisorEventView::Terminated(Some(0i32))),
        next(t, input).1 == remainders(t).push(ActionView::DeleteSource { path: t.source }),
        i == next(t, input).1.len() - 1,
{
    if t.phase is Streaming && input == InputView::Process(
        SupervisorEventView::Terminated(Some(0i32)),
    ) && i < remainders(t).len() {
        lemma_remainders_are_lines(t, i);
    }
}

/// The input that reports a chunk of output on `channel`.
pub open spec fn output(channel: Channel, bytes: Seq<u8>) -> InputView {
    match channel {
        Channel::Stdout => InputView::Process(SupervisorEventView::Stdout(bytes)),
        Channel::Stderr => InputView::Process(SupervisorEventView::Stderr(bytes)),
    }
}

/// How the tool's output is cut into chunks does not show in the window:
/// while a transfer streams, two chunks of a channel in a row publish the
/// lines, and leave the state, that the two would as one chunk.
pub proof fn lemma_output_chunking_is_invisible(
    t: TransferView,
    channel: Channel,
    first: Seq<u8>,
    second: Seq<u8>,
)
    requires
        t.phase is Streaming,
    ensures
        ({
            let halfway = next(t, output(channel, first));
            let apart = next(halfway.0, output(channel, second));
            let joined = next(t, output(channel, first + second));
            &&& apart.0 == joined.0
            &&& halfway.1 + apart.1 == joined.1
        }),
{
    let held = t.pending(channel);
    lemma_chunking_is_invisible(held + first, second);
    assert(held + (first + second) =~= (held + first) + second);
    let early = complete_lines(held + first);
    let late = complete_lines(trailing(held + first) + second);
    assert(line_actions(channel, decoded(early)) + line_actions(channel, decoded(late))
        =~= line_actions(channel, decoded(early + late)));
}

/// A line of valid UTF-8 is published as the text that it encodes, wherever
/// the chunks were cut: the text of each line that a chunk completes is the
/// plain UTF-8 reading of the line's bytes.
pub proof fn lemma_valid_lines_are_published_exactly(
    t: TransferView,
    channel: Channel,
    bytes: Seq<u8>,
    i: int,
)
    requires
        t.phase is Streaming,
        0 <= i < complete_lines(t.pending(channel) + bytes).len(),
        vstd::utf8::valid_utf8(complete_lines(t.pending(channel) + bytes)[i]),
    ensures
        next(t, output(channel, bytes)).1.len() == complete_lines(t.pending(channel) + bytes).len(),
        next(t, output(channel, bytes)).1[i] == ActionView::Publish(
            line_event(
                channel,
                vstd::utf8::decode_utf8(complete_lines(t.pending(channel) + bytes)[i]),
            ),
        ),
{
}

} // verus!
