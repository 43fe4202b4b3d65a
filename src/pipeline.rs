//! The stop-side pipeline run as a state machine: retrieve the audio,
//! transcribe, convert the script where the locale asks, post-process where
//! the binding asks, deliver, reset the interface, finish. The caller performs
//! each step and reports its outcome as the next event.
use vstd::prelude::*;
use vstd::string::*;
use crate::script::{convert_script, text_after_conversion};

verus! {

/// Where a pipeline run stands.
#[derive(Clone, Copy, Debug, PartialEq, Eq, Structural)]
pub enum Phase {
    AwaitingAudio,
    AwaitingTranscript,
    AwaitingPostProcess,
    AwaitingDelivery,
    AwaitingUiReset,
    Done,
}

/// The outcome of the step the run asked for last.
#[derive(Debug)]
pub enum PipelineEvent {
    /// Whether stopping the recording yielded captured audio.
    AudioCaptured(bool),
    /// The transcription, or `None` if transcribing failed.
    Transcribed(Option<String>),
    /// The refined text, or `None` to keep the text as it was.
    PostProcessed(Option<String>),
    /// Whether delivery succeeded; the run goes on the same way.
    Delivered(bool),
    /// The overlay is hidden and the idle indicator restored.
    UiReset,
}

/// `PipelineEvent` with its texts seen as characters.
pub enum PipelineEventView {
    AudioCaptured(bool),
    Transcribed(Option<Seq<char>>),
    PostProcessed(Option<Seq<char>>),
    Delivered(bool),
    UiReset,
}

/// An optional text seen as characters.
pub open spec fn opt_view(o: Option<String>) -> Option<Seq<char>> {
    match o {
        Some(s) => Some(s@),
        None => None,
    }
}

impl View for PipelineEvent {
    type V = PipelineEventView;

    open spec fn view(&self) -> PipelineEventView {
        match self {
            PipelineEvent::AudioCaptured(b) => PipelineEventView::AudioCaptured(*b),
            PipelineEvent::Transcribed(t) => PipelineEventView::Transcribed(opt_view(*t)),
            PipelineEvent::PostProcessed(t) => PipelineEventView::PostProcessed(opt_view(*t)),
            PipelineEvent::Delivered(b) => PipelineEventView::Delivered(*b),
            PipelineEvent::UiReset => PipelineEventView::UiReset,
        }
    }
}

/// What the caller must do next.
#[derive(Debug)]
pub enum PipelineStep {
    /// Nothing: the event did not fit the phase.
    Nothing,
    /// Transcribe the captured audio.
    Transcribe,
    /// Show the processing indicator and run the post-processing ladder on
    /// this text.
    PostProcess(String),
    /// Deliver this text, on the interface thread.
    Deliver(String),
    /// Hide the overlay and restore the idle indicator.
    ResetUi,
    /// End the run: the coordinator is told that processing finished.
    Finish,
}

/// `PipelineStep` with its texts seen as characters.
pub enum PipelineStepView {
    Nothing,
    Transcribe,
    PostProcess(Seq<char>),
    Deliver(Seq<char>),
    ResetUi,
    Finish,
}

impl View for PipelineStep {
    type V = PipelineStepView;

    open spec fn view(&self) -> PipelineStepView {
        match self {
            PipelineStep::Nothing => PipelineStepView::Nothing,
            PipelineStep::Transcribe => PipelineStepView::Transcribe,
            PipelineStep::PostProcess(t) => PipelineStepView::PostProcess(t@),
            PipelineStep::Deliver(t) => PipelineStepView::Deliver(t@),
            PipelineStep::ResetUi => PipelineStepView::ResetUi,
            PipelineStep::Finish => PipelineStepView::Finish,
        }
    }
}

/// One pipeline run for one stop event.
pub struct Orchestrator {
    phase: Phase,
    post_process: bool,
    language: String,
    text: String,
}

/// A run as the contracts see it.
pub struct OrchestratorView {
    pub phase: Phase,
    pub post_process: bool,
    pub language: Seq<char>,
    pub text: Seq<char>,
}

impl View for Orchestrator {
    type V = OrchestratorView;

    closed spec fn view(&self) -> OrchestratorView {
        OrchestratorView {
            phase: self.phase,
            post_process: self.post_process,
            language: self.language@,
            text: self.text@,
        }
    }
}

/// The same run in another phase, holding another text.
pub open spec fn moved(o: OrchestratorView, phase: Phase, text: Seq<char>) -> OrchestratorView {
    OrchestratorView { phase, post_process: o.post_process, language: o.language, text }
}

/// The effect of one event on a run. Missing audio, a failed or empty
/// transcription, and a finished delivery all lead to the interface reset,
/// and the reset to the end of the run. Post-processing that yields nothing
/// keeps the text it was given.
pub open spec fn advance_of(o: OrchestratorView, e: PipelineEventView) -> (OrchestratorView, PipelineStepView) {
    let reset = (moved(o, Phase::AwaitingUiReset, o.text), PipelineStepView::ResetUi);
    let ignored = (o, PipelineStepView::Nothing);
    match (o.phase, e) {
        (Phase::AwaitingAudio, PipelineEventView::AudioCaptured(captured)) => if captured {
            (moved(o, Phase::AwaitingTranscript, o.text), PipelineStepView::Transcribe)
        } else {
            reset
        },
        (Phase::AwaitingTranscript, PipelineEventView::Transcribed(t)) => match t {
            Some(t) => if t.len() == 0 {
                reset
            } else {
                let c = text_after_conversion(o.language, t);
                if o.post_process {
                    (moved(o, Phase::AwaitingPostProcess, c), PipelineStepView::PostProcess(c))
                } else {
                    (moved(o, Phase::AwaitingDelivery, c), PipelineStepView::Deliver(c))
                }
            },
            None => reset,
        },
        (Phase::AwaitingPostProcess, PipelineEventView::PostProcessed(r)) => {
            let f = match r {
                Some(p) => p,
                None => o.text,
            };
            (moved(o, Phase::AwaitingDelivery, f), PipelineStepView::Deliver(f))
        },
        (Phase::AwaitingDelivery, PipelineEventView::Delivered(_)) => reset,
        (Phase::AwaitingUiReset, PipelineEventView::UiReset) => (
            moved(o, Phase::Done, o.text),
            PipelineStepView::Finish,
        ),
        _ => ignored,
    }
}

impl Orchestrator {
    /// A run for a binding that does (`post_process`) or does not ask for
    /// post-processing, under the given locale. Its first step is to stop
    /// the recording and report `AudioCaptured`.
    pub fn new(post_process: bool, language: &str) -> (r: Orchestrator)
        ensures
            r@ == (OrchestratorView {
                phase: Phase::AwaitingAudio,
                post_process,
                language: language@,
                text: Seq::<char>::empty(),
            }),
    {
        Orchestrator {
            phase: Phase::AwaitingAudio,
            post_process,
            language: String::from_str(language),
            text: String::new(),
        }
    }

    pub fn phase(&self) -> (r: Phase)
        ensures
            r == self@.phase,
    {
        self.phase
    }

    /// Applies the outcome of the last step and returns the next one.
    pub fn advance(&mut self, event: PipelineEvent) -> (step: PipelineStep)
        ensures
            (final(self)@, step@) == advance_of(old(self)@, event@),
    {
        match (self.phase, event) {
            (Phase::AwaitingAudio, PipelineEvent::AudioCaptured(captured)) => if captured {
                self.phase = Phase::AwaitingTranscript;
                PipelineStep::Transcribe
            } else {
                self.phase = Phase::AwaitingUiReset;
                PipelineStep::ResetUi
            },
            (Phase::AwaitingTranscript, PipelineEvent::Transcribed(t)) => match t {
                Some(t) => if t.unicode_len() == 0 {
                    self.phase = Phase::AwaitingUiReset;
                    PipelineStep::ResetUi
                } else {
                    let converted = convert_script(self.language.as_str(), t);
                    self.text = converted.clone();
                    if self.post_process {
                        self.phase = Phase::AwaitingPostProcess;
                        PipelineStep::PostProcess(converted)
                    } else {
                        self.phase = Phase::AwaitingDelivery;
                        PipelineStep::Deliver(converted)
                    }
                },
                None => {
                    self.phase = Phase::AwaitingUiReset;
                    PipelineStep::ResetUi
                },
            },
            (Phase::AwaitingPostProcess, PipelineEvent::PostProcessed(r)) => {
                if let Some(p) = r {
                    self.text = p;
                }
                self.phase = Phase::AwaitingDelivery;
                PipelineStep::Deliver(self.text.clone())
            },
            (Phase::AwaitingDelivery, PipelineEvent::Delivered(_)) => {
                self.phase = Phase::AwaitingUiReset;
                PipelineStep::ResetUi
            },
            (Phase::AwaitingUiReset, PipelineEvent::UiReset) => {
                self.phase = Phase::Done;
                PipelineStep::Finish
            },
            _ => PipelineStep::Nothing,
        }
    }
}

/// A run finishes exactly once: `Finish` is the step of the one event that
/// takes it into `Done`, and once done, no event changes it or asks for
/// anything.
pub proof fn lemma_finish_exactly_once(o: OrchestratorView, e: PipelineEventView)
    ensures
        (advance_of(o, e).1 is Finish) <==> (o.phase != Phase::Done && advance_of(o, e).0.phase
            == Phase::Done),
        o.phase == Phase::Done ==> advance_of(o, e) == (o, PipelineStepView::Nothing),
{
}

/// A run that gets no audio asks for no transcription: it resets the
/// interface, then finishes.
pub proof fn lemma_no_audio_skips_to_reset(o: OrchestratorView)
    requires
        o.phase == Phase::AwaitingAudio,
    ensures
        advance_of(o, PipelineEventView::AudioCaptured(false)).1 is ResetUi,
        advance_of(advance_of(o, PipelineEventView::AudioCaptured(false)).0, PipelineEventView::UiReset).1 is Finish,
{
}

/// Without post-processing, and under a locale that asks for no script
/// conversion, a non-empty transcription is delivered exactly as it came.
pub proof fn lemma_plain_transcription_delivered_verbatim(o: OrchestratorView, t: Seq<char>)
    requires
        o.phase == Phase::AwaitingTranscript,
        !o.post_process,
        crate::script::variant_of(o.language) is None,
        t.len() > 0,
    ensures
        advance_of(o, PipelineEventView::Transcribed(Some(t))).1 == PipelineStepView::Deliver(t),
{
}

} // verus!
