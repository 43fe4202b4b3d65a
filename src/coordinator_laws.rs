//! Properties of the coordinator's stage machine, over every state and every
//! command.
use vstd::prelude::*;
use crate::actions::action_of;
use crate::coordinator::{
    press_debounced, stage_after_start, step, CommandView, CoordinatorView, DirectiveView,
    StageView,
};

verus! {

/// One thing that happens to the consumer loop: a command received at a
/// time, or the report of a start on whether capture began.
pub enum LoopEvent {
    Received(CommandView, u64),
    StartReported(Seq<char>, bool),
}

/// The state after one loop event.
pub open spec fn apply_event(s: CoordinatorView, e: LoopEvent) -> CoordinatorView {
    match e {
        LoopEvent::Received(c, now) => step(s, c, now).0,
        LoopEvent::StartReported(id, active) => CoordinatorView {
            stage: stage_after_start(s.stage, id, active),
            last_press: s.last_press,
        },
    }
}

/// The state after a run of loop events, applied in order.
pub open spec fn run(s: CoordinatorView, es: Seq<LoopEvent>) -> CoordinatorView
    decreases es.len(),
{
    if es.len() == 0 {
        s
    } else {
        apply_event(run(s, es.drop_last()), es.last())
    }
}

/// No single event turns a recording of one binding into a recording of
/// another: a `Recording` stage is entered only from `Idle`.
pub proof fn lemma_recording_entered_only_from_idle(s: CoordinatorView, e: LoopEvent)
    ensures
        apply_event(s, e).stage is Recording ==> (s.stage is Idle || apply_event(s, e).stage
            == s.stage),
{
}

/// Mutual exclusion: along any run of events during which the stage never
/// leaves `Recording`, it stays the recording of the same binding; so two
/// bindings never record at once, and switching between them passes through a
/// stage that does not record.
pub proof fn lemma_recording_is_exclusive(s: CoordinatorView, es: Seq<LoopEvent>)
    requires
        forall|k: int| 0 <= k <= es.len() ==> (#[trigger] run(s, es.take(k))).stage is Recording,
    ensures
        run(s, es).stage == s.stage,
    decreases es.len(),
{
    assert(es.take(0) =~= Seq::<LoopEvent>::empty());
    assert(run(s, es.take(0)).stage is Recording);
    if es.len() > 0 {
        let prefix = es.drop_last();
        assert forall|k: int| 0 <= k <= prefix.len() implies (#[trigger] run(s, prefix.take(k))).stage is Recording by {
            assert(prefix.take(k) =~= es.take(k));
        }
        lemma_recording_is_exclusive(s, prefix);
        assert(es.take(es.len() as int) =~= es);
        lemma_recording_entered_only_from_idle(run(s, prefix), es.last());
    }
}

/// A press within the debounce window of the last accepted press is
/// dropped whatever its binding: nothing changes and nothing is done.
pub proof fn lemma_debounced_press_dropped(
    s: CoordinatorView,
    binding_id: Seq<char>,
    hotkey_string: Seq<char>,
    push_to_talk: bool,
    now: u64,
)
    requires
        press_debounced(s.last_press, now),
    ensures
        step(
            s,
            CommandView::Input { binding_id, hotkey_string, is_pressed: true, push_to_talk },
            now,
        ) == (s, DirectiveView::Nothing),
{
}

/// Toggle mode: from `Idle`, a press of a known binding starts it; once
/// capture has begun, a second (not debounced) press of the same binding
/// stops it, and the stage becomes `Processing`.
pub proof fn lemma_toggle_starts_then_stops(
    s: CoordinatorView,
    binding_id: Seq<char>,
    first_hotkey: Seq<char>,
    second_hotkey: Seq<char>,
    first_at: u64,
    second_at: u64,
)
    requires
        s.stage is Idle,
        action_of(binding_id) is Some,
        !press_debounced(s.last_press, first_at),
        !press_debounced(Some(first_at), second_at),
    ensures
        ({
            let (s1, d1) = step(
                s,
                CommandView::Input { binding_id, hotkey_string: first_hotkey, is_pressed: true, push_to_talk: false },
                first_at,
            );
            let started = apply_event(s1, LoopEvent::StartReported(binding_id, true));
            let (s2, d2) = step(
                started,
                CommandView::Input { binding_id, hotkey_string: second_hotkey, is_pressed: true, push_to_talk: false },
                second_at,
            );
            &&& d1 == DirectiveView::Start {
                action: action_of(binding_id)->0,
                binding_id,
                hotkey_string: first_hotkey,
            }
            &&& started.stage == StageView::Recording(binding_id)
            &&& d2 == DirectiveView::Stop {
                action: action_of(binding_id)->0,
                binding_id,
                hotkey_string: second_hotkey,
            }
            &&& s2.stage is Processing
        }),
{
}

/// Toggle mode: while one binding records, any input of another binding
/// leaves the stage as it is and does nothing.
pub proof fn lemma_toggle_other_binding_ignored(
    s: CoordinatorView,
    binding_id: Seq<char>,
    hotkey_string: Seq<char>,
    is_pressed: bool,
    now: u64,
)
    requires
        s.stage is Recording,
        s.stage != StageView::Recording(binding_id),
    ensures
        ({
            let (s1, d) = step(
                s,
                CommandView::Input { binding_id, hotkey_string, is_pressed, push_to_talk: false },
                now,
            );
            s1.stage == s.stage && d == DirectiveView::Nothing
        }),
{
}

/// Push-to-talk: a release of a binding other than the one that records
/// changes nothing and does nothing.
pub proof fn lemma_push_to_talk_foreign_release_ignored(
    s: CoordinatorView,
    binding_id: Seq<char>,
    hotkey_string: Seq<char>,
    now: u64,
)
    requires
        s.stage != StageView::Recording(binding_id),
    ensures
        step(
            s,
            CommandView::Input { binding_id, hotkey_string, is_pressed: false, push_to_talk: true },
            now,
        ) == (s, DirectiveView::Nothing),
{
}

/// A cancel that does not claim an active recording leaves `Idle` as it
/// is, and no cancel at all leaves `Processing`: only the end of the
/// pipeline run does.
pub proof fn lemma_cancel_respects_idle_and_processing(
    s: CoordinatorView,
    recording_was_active: bool,
    now: u64,
)
    ensures
        s.stage is Idle ==> step(s, CommandView::Cancel { recording_was_active: false }, now).0
            == s,
        s.stage is Processing ==> step(s, CommandView::Cancel { recording_was_active }, now).0
            == s,
        step(s, CommandView::ProcessingFinished, now).0.stage is Idle,
{
}

/// The end of a pipeline run brings every state back to `Idle`, however the
/// run ended.
pub proof fn lemma_processing_finished_resets(s: CoordinatorView, now: u64)
    ensures
        step(s, CommandView::ProcessingFinished, now) == (
            CoordinatorView { stage: StageView::Idle, last_press: s.last_press },
            DirectiveView::Nothing,
        ),
{
}

} // verus!
