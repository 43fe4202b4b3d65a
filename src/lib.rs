//! Event-serialising core of a voice-dictation pipeline: the coordinator's
//! stage machine, the binding dispatch table, the stop-side orchestrator and
//! the post-processing fallback ladder.

pub mod actions;
pub mod coordinator;
pub mod coordinator_laws;
pub mod overlay;
pub mod pipeline;
pub mod post_process;
pub mod script;
pub mod shortcut;
pub mod signals;
pub mod text;
