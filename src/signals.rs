//! External triggers that toggle a transcription binding.
use vstd::prelude::*;
use crate::coordinator::{input_command, Command, TranscriptionCoordinator};

verus! {

/// The two user signals that toggle transcription.
#[derive(Clone, Copy, Debug, PartialEq, Eq, Structural)]
pub enum UserSignal {
    /// Toggles transcription with post-processing.
    Usr1,
    /// Toggles plain transcription.
    Usr2,
}

/// The binding a user signal toggles, and the name it is reported under.
pub fn signal_binding(sig: UserSignal) -> (r: (&'static str, &'static str))
    ensures
        sig == UserSignal::Usr1 ==> r.0@ == "transcribe_with_post_process"@ && r.1@ == "SIGUSR1"@,
        sig == UserSignal::Usr2 ==> r.0@ == "transcribe"@ && r.1@ == "SIGUSR2"@,
{
    match sig {
        UserSignal::Usr1 => ("transcribe_with_post_process", "SIGUSR1"),
        UserSignal::Usr2 => ("transcribe", "SIGUSR2"),
    }
}

/// Sends a toggle-mode press for a binding from an external trigger (a
/// signal, a command-line flag) named by `source`; the command comes back as
/// the error if the consumer is gone.
pub fn send_transcription_input(coordinator: &TranscriptionCoordinator, binding_id: &str, source: &str) -> (r: Result<(), Command>)
    ensures
        r matches Err(c) ==> c@ == input_command(binding_id@, source@, true, false),
{
    coordinator.send_input(binding_id, source, true, false)
}

} // verus!
