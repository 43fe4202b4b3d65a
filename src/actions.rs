//! The binding dispatch table: which action a binding identifier names.
use vstd::prelude::*;
use crate::text::same_text;

verus! {

/// The fixed set of actions a binding can trigger.
#[derive(Clone, Copy, Debug, PartialEq, Eq, Structural)]
pub enum ActionKind {
    /// Record, then transcribe; with `post_process`, refine the text with a
    /// language model before delivery.
    Transcribe { post_process: bool },
    /// Abort the current recording.
    Cancel,
    /// A diagnostic action that only reports its invocations.
    Test,
}

/// The action bound to an identifier, if any.
pub open spec fn action_of(id: Seq<char>) -> Option<ActionKind> {
    if id == "transcribe"@ {
        Some(ActionKind::Transcribe { post_process: false })
    } else if id == "transcribe_with_post_process"@ {
        Some(ActionKind::Transcribe { post_process: true })
    } else if id == "cancel"@ {
        Some(ActionKind::Cancel)
    } else if id == "test"@ {
        Some(ActionKind::Test)
    } else {
        None
    }
}

/// Looks a binding identifier up in the dispatch table.
pub fn action_for(binding_id: &str) -> (r: Option<ActionKind>)
    ensures
        r == action_of(binding_id@),
{
    if same_text(binding_id, "transcribe") {
        Some(ActionKind::Transcribe { post_process: false })
    } else if same_text(binding_id, "transcribe_with_post_process") {
        Some(ActionKind::Transcribe { post_process: true })
    } else if same_text(binding_id, "cancel") {
        Some(ActionKind::Cancel)
    } else if same_text(binding_id, "test") {
        Some(ActionKind::Test)
    } else {
        None
    }
}

/// Whether an identifier names one of the two transcription bindings.
pub fn is_transcribe_binding(id: &str) -> (r: bool)
    ensures
        r == (id@ == "transcribe"@ || id@ == "transcribe_with_post_process"@),
        r == (action_of(id@) matches Some(ActionKind::Transcribe { .. })),
{
    proof {
        reveal_strlit("transcribe");
        reveal_strlit("transcribe_with_post_process");
        reveal_strlit("cancel");
        reveal_strlit("test");
    }
    same_text(id, "transcribe") || same_text(id, "transcribe_with_post_process")
}

} // verus!
