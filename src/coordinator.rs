//! The coordinator: a single consumer that owns the pipeline's `Stage` and
//! applies queued commands to it one at a time, in arrival order.
//!
//! `CoordinatorState::handle_command` is the whole decision procedure of the
//! consumer loop. It returns a `Directive` telling the loop which action to
//! start or stop; after starting one, the loop reports whether capture really
//! began through `CoordinatorState::complete_start`.
use vstd::prelude::*;
use crate::actions::{action_for, action_of, ActionKind};
use crate::text::same_text;
use vstd::string::*;

verus! {

/// Presses closer together than this, in nanoseconds, are dropped.
pub const DEBOUNCE_NANOS: u64 = 30_000_000;

/// The pipeline's lifecycle.
#[derive(Debug)]
pub enum Stage {
    Idle,
    /// Capturing audio for the named binding.
    Recording(String),
    /// A stop-side pipeline run is in flight.
    Processing,
}

/// `Stage` with the binding identifier seen as characters.
pub enum StageView {
    Idle,
    Recording(Seq<char>),
    Processing,
}

impl View for Stage {
    type V = StageView;

    open spec fn view(&self) -> StageView {
        match self {
            Stage::Idle => StageView::Idle,
            Stage::Recording(id) => StageView::Recording(id@),
            Stage::Processing => StageView::Processing,
        }
    }
}

/// A command queued for the coordinator.
#[derive(Debug)]
pub enum Command {
    /// A press or release of a binding's trigger.
    Input { binding_id: String, hotkey_string: String, is_pressed: bool, push_to_talk: bool },
    /// A request to abandon the current recording.
    Cancel { recording_was_active: bool },
    /// The stop-side pipeline run has ended, however it ended.
    ProcessingFinished,
}

/// `Command` with its texts seen as characters.
pub enum CommandView {
    Input { binding_id: Seq<char>, hotkey_string: Seq<char>, is_pressed: bool, push_to_talk: bool },
    Cancel { recording_was_active: bool },
    ProcessingFinished,
}

impl View for Command {
    type V = CommandView;

    open spec fn view(&self) -> CommandView {
        match self {
            Command::Input { binding_id, hotkey_string, is_pressed, push_to_talk } =>
                CommandView::Input {
                binding_id: binding_id@,
                hotkey_string: hotkey_string@,
                is_pressed: *is_pressed,
                push_to_talk: *push_to_talk,
            },
            Command::Cancel { recording_was_active } => CommandView::Cancel {
                recording_was_active: *recording_was_active,
            },
            Command::ProcessingFinished => CommandView::ProcessingFinished,
        }
    }
}

impl Command {
    /// An input command carrying copies of the given texts.
    pub fn input(binding_id: &str, hotkey_string: &str, is_pressed: bool, push_to_talk: bool) -> (r:
        Command)
        ensures
            r@ == (CommandView::Input {
                binding_id: binding_id@,
                hotkey_string: hotkey_string@,
                is_pressed,
                push_to_talk,
            }),
    {
        Command::Input {
            binding_id: String::from_str(binding_id),
            hotkey_string: String::from_str(hotkey_string),
            is_pressed,
            push_to_talk,
        }
    }
}

/// What the consumer loop must do after a command was applied.
#[derive(Debug)]
pub enum Directive {
    Nothing,
    /// Run the action's start, then report through `complete_start`.
    Start { action: ActionKind, binding_id: String, hotkey_string: String },
    /// Run the action's stop; the stage is already `Processing`.
    Stop { action: ActionKind, binding_id: String, hotkey_string: String },
}

/// `Directive` with its texts seen as characters.
pub enum DirectiveView {
    Nothing,
    Start { action: ActionKind, binding_id: Seq<char>, hotkey_string: Seq<char> },
    Stop { action: ActionKind, binding_id: Seq<char>, hotkey_string: Seq<char> },
}

impl View for Directive {
    type V = DirectiveView;

    open spec fn view(&self) -> DirectiveView {
        match self {
            Directive::Nothing => DirectiveView::Nothing,
            Directive::Start { action, binding_id, hotkey_string } => DirectiveView::Start {
                action: *action,
                binding_id: binding_id@,
                hotkey_string: hotkey_string@,
            },
            Directive::Stop { action, binding_id, hotkey_string } => DirectiveView::Stop {
                action: *action,
                binding_id: binding_id@,
                hotkey_string: hotkey_string@,
            },
        }
    }
}

/// The state the consumer loop owns: the stage, and the time of the last
/// accepted press, shared by all bindings.
pub struct CoordinatorState {
    pub stage: Stage,
    pub last_press: Option<u64>,
}

/// The coordinator state as the contracts see it.
pub struct CoordinatorView {
    pub stage: StageView,
    pub last_press: Option<u64>,
}

impl View for CoordinatorState {
    type V = CoordinatorView;

    open spec fn view(&self) -> CoordinatorView {
        CoordinatorView { stage: self.stage@, last_press: self.last_press }
    }
}

/// Whether a press at `now` falls within the debounce window of the last
/// accepted press. Time that runs backwards counts as no time at all.
pub open spec fn press_debounced(last_press: Option<u64>, now: u64) -> bool {
    match last_press {
        Some(t) => now < t + DEBOUNCE_NANOS,
        None => false,
    }
}

/// What an accepted input asks of the stage.
pub enum Decision {
    Ignore,
    Start,
    Stop,
}

/// Push-to-talk: a press starts from `Idle`, a release stops the binding
/// that records. Toggle: a press starts from `Idle` or stops the binding that
/// records; releases are ignored.
pub open spec fn decide(stage: StageView, binding_id: Seq<char>, is_pressed: bool, push_to_talk: bool) -> Decision {
    if push_to_talk {
        if is_pressed && stage is Idle {
            Decision::Start
        } else if !is_pressed && stage == StageView::Recording(binding_id) {
            Decision::Stop
        } else {
            Decision::Ignore
        }
    } else if is_pressed {
        match stage {
            StageView::Idle => Decision::Start,
            StageView::Recording(id) => if id == binding_id {
                Decision::Stop
            } else {
                Decision::Ignore
            },
            StageView::Processing => Decision::Ignore,
        }
    } else {
        Decision::Ignore
    }
}

/// A cancel resets to `Idle` unless a pipeline is in flight, and only when a
/// recording was active by the caller's word or by the stage.
pub open spec fn stage_after_cancel(stage: StageView, recording_was_active: bool) -> StageView {
    if !(stage is Processing) && (recording_was_active || stage is Recording) {
        StageView::Idle
    } else {
        stage
    }
}

/// The effect of one command received at `now`.
pub open spec fn step(s: CoordinatorView, c: CommandView, now: u64) -> (CoordinatorView, DirectiveView) {
    match c {
        CommandView::Input { binding_id, hotkey_string, is_pressed, push_to_talk } => {
            if is_pressed && press_debounced(s.last_press, now) {
                (s, DirectiveView::Nothing)
            } else {
                let last = if is_pressed {
                    Some(now)
                } else {
                    s.last_press
                };
                let kept = CoordinatorView { stage: s.stage, last_press: last };
                match (decide(s.stage, binding_id, is_pressed, push_to_talk), action_of(binding_id)) {
                    (Decision::Start, Some(a)) => (
                        kept,
                        DirectiveView::Start { action: a, binding_id, hotkey_string },
                    ),
                    (Decision::Stop, Some(a)) => (
                        CoordinatorView { stage: StageView::Processing, last_press: last },
                        DirectiveView::Stop { action: a, binding_id, hotkey_string },
                    ),
                    _ => (kept, DirectiveView::Nothing),
                }
            }
        },
        CommandView::Cancel { recording_was_active } => (
            CoordinatorView {
                stage: stage_after_cancel(s.stage, recording_was_active),
                last_press: s.last_press,
            },
            DirectiveView::Nothing,
        ),
        CommandView::ProcessingFinished => (
            CoordinatorView { stage: StageView::Idle, last_press: s.last_press },
            DirectiveView::Nothing,
        ),
    }
}

/// The stage once a started action reports whether capture began: it
/// records only if capture is active and nothing else holds the stage.
pub open spec fn stage_after_start(stage: StageView, binding_id: Seq<char>, recording_active: bool) -> StageView {
    if recording_active && stage is Idle {
        StageView::Recording(binding_id)
    } else {
        stage
    }
}

impl CoordinatorState {
    /// The state at startup: `Idle`, no press seen.
    pub fn new() -> (r: CoordinatorState)
        ensures
            r@.stage is Idle,
            r@.last_press is None,
    {
        CoordinatorState { stage: Stage::Idle, last_press: None }
    }

    /// Applies one command received at `now` (nanoseconds on a monotonic
    /// clock) and says what the loop must do next.
    pub fn handle_command(&mut self, cmd: Command, now: u64) -> (d: Directive)
        ensures
            (final(self)@, d@) == step(old(self)@, cmd@, now),
    {
        match cmd {
            Command::Input { binding_id, hotkey_string, is_pressed, push_to_talk } => {
                if is_pressed {
                    let debounced = match self.last_press {
                        Some(t) => now <= t || now - t < DEBOUNCE_NANOS,
                        None => false,
                    };
                    if debounced {
                        return Directive::Nothing;
                    }
                    self.last_press = Some(now);
                }
                let decision = self.decide(binding_id.as_str(), is_pressed, push_to_talk);
                match decision {
                    Decision::Start => match action_for(binding_id.as_str()) {
                        Some(action) => Directive::Start { action, binding_id, hotkey_string },
                        None => Directive::Nothing,
                    },
                    Decision::Stop => match action_for(binding_id.as_str()) {
                        Some(action) => {
                            self.stage = Stage::Processing;
                            Directive::Stop { action, binding_id, hotkey_string }
                        },
                        None => Directive::Nothing,
                    },
                    Decision::Ignore => Directive::Nothing,
                }
            },
            Command::Cancel { recording_was_active } => {
                let resets = match &self.stage {
                    Stage::Idle => recording_was_active,
                    Stage::Recording(_) => true,
                    Stage::Processing => false,
                };
                if resets {
                    self.stage = Stage::Idle;
                }
                Directive::Nothing
            },
            Command::ProcessingFinished => {
                self.stage = Stage::Idle;
                Directive::Nothing
            },
        }
    }

    /// The decision an accepted input makes in the current stage.
    fn decide(&self, binding_id: &str, is_pressed: bool, push_to_talk: bool) -> (r: Decision)
        ensures
            r == decide(self.stage@, binding_id@, is_pressed, push_to_talk),
    {
        match &self.stage {
            Stage::Idle => if is_pressed {
                Decision::Start
            } else {
                Decision::Ignore
            },
            Stage::Recording(id) => {
                let same = same_text(id.as_str(), binding_id);
                if push_to_talk {
                    if !is_pressed && same {
                        Decision::Stop
                    } else {
                        Decision::Ignore
                    }
                } else if is_pressed && same {
                    Decision::Stop
                } else {
                    Decision::Ignore
                }
            },
            Stage::Processing => Decision::Ignore,
        }
    }

    /// Records the outcome of a start: whether capture is now active.
    pub fn complete_start(&mut self, binding_id: &str, recording_active: bool)
        ensures
            final(self)@.stage == stage_after_start(old(self)@.stage, binding_id@, recording_active),
            final(self)@.last_press == old(self)@.last_press,
    {
        if recording_active {
            if let Stage::Idle = self.stage {
                self.stage = Stage::Recording(String::from_str(binding_id));
            }
        }
    }

    /// Whether the stage is `Idle`.
    pub fn is_idle(&self) -> (r: bool)
        ensures
            r == (self@.stage is Idle),
    {
        matches!(self.stage, Stage::Idle)
    }

    /// Whether the stage is `Processing`.
    pub fn is_processing(&self) -> (r: bool)
        ensures
            r == (self@.stage is Processing),
    {
        matches!(self.stage, Stage::Processing)
    }

    /// The binding that records, if any.
    pub fn recording_binding(&self) -> (r: Option<&str>)
        ensures
            match self@.stage {
                StageView::Recording(id) => r is Some && r->0@ == id,
                _ => r is None,
            },
    {
        match &self.stage {
            Stage::Recording(id) => Some(id.as_str()),
            _ => None,
        }
    }
}

#[verifier::external_type_specification]
#[verifier::external_body]
#[verifier::reject_recursive_types(T)]
pub struct ExSender<T>(std::sync::mpsc::Sender<T>);

/// Relies on `std::sync::mpsc::Sender::send`: queues the command without
/// blocking; when the receiving end is gone it fails and hands the command
/// back inside `SendError`.
#[verifier::external_body]
fn enqueue(tx: &std::sync::mpsc::Sender<Command>, cmd: Command) -> (unsent: Option<Command>)
    ensures
        unsent matches Some(c) ==> c@ == cmd@,
{
    match tx.send(cmd) {
        Ok(()) => None,
        Err(e) => Some(e.0),
    }
}

/// The command an input event is queued as.
pub open spec fn input_command(
    binding_id: Seq<char>,
    hotkey_string: Seq<char>,
    is_pressed: bool,
    push_to_talk: bool,
) -> CommandView {
    CommandView::Input { binding_id, hotkey_string, is_pressed, push_to_talk }
}

/// The producers' handle on the coordinator: every call queues one command
/// for the consumer loop and returns at once. A command sent after the
/// consumer has gone is dropped and handed back as the error.
pub struct TranscriptionCoordinator {
    tx: std::sync::mpsc::Sender<Command>,
}

impl TranscriptionCoordinator {
    /// A handle that feeds the consumer listening on the other end of `tx`.
    pub fn new(tx: std::sync::mpsc::Sender<Command>) -> (r: TranscriptionCoordinator) {
        TranscriptionCoordinator { tx }
    }

    /// Queues an input event for a binding. For signal-driven toggles, pass
    /// `is_pressed: true` and `push_to_talk: false`. The command built is
    /// `Command::input` of the arguments; it comes back as the error if the
    /// consumer is gone.
    pub fn send_input(&self, binding_id: &str, hotkey_string: &str, is_pressed: bool, push_to_talk: bool) -> (r: Result<(), Command>)
        ensures
            r matches Err(c) ==> c@ == input_command(binding_id@, hotkey_string@, is_pressed, push_to_talk),
    {
        let cmd = Command::input(binding_id, hotkey_string, is_pressed, push_to_talk);
        match enqueue(&self.tx, cmd) {
            None => Ok(()),
            Some(c) => Err(c),
        }
    }

    /// Queues a cancel; the command comes back as the error if the consumer
    /// is gone.
    pub fn notify_cancel(&self, recording_was_active: bool) -> (r: Result<(), Command>)
        ensures
            r matches Err(c) ==> c@ == (CommandView::Cancel { recording_was_active }),
    {
        match enqueue(&self.tx, Command::Cancel { recording_was_active }) {
            None => Ok(()),
            Some(c) => Err(c),
        }
    }

    /// Queues the end of a pipeline run; the command comes back as the error
    /// if the consumer is gone.
    pub fn notify_processing_finished(&self) -> (r: Result<(), Command>)
        ensures
            r matches Err(c) ==> c@ == CommandView::ProcessingFinished,
    {
        match enqueue(&self.tx, Command::ProcessingFinished) {
            None => Ok(()),
            Some(c) => Err(c),
        }
    }
}

} // verus!
