//! The supervisor's one operation: launch the kernel and report how it went.

use vstd::prelude::*;
use crate::command::{kernel_argv, kernel_command, LaunchCommand};
use crate::launch_result::{
    lemma_failure_reply_carries_description, LaunchResult, FAILURE_PREFIX, SPAWNED_REPLY,
};

verus! {

/// Launches the kernel through `spawn` and reports the outcome.
///
/// `spawn` is the process-creation routine: it asks the operating system to
/// start the command it is given and returns as soon as that request is
/// answered, with `Ok` when a process was created and otherwise with the
/// operating system's description of the failure. It is called once, with the
/// kernel's command, and its answer alone decides the result. The supervisor
/// keeps nothing of the process and nothing from one call to the next.
pub fn start_kernel<F>(spawn: F) -> (result: LaunchResult) where
    F: FnOnce(LaunchCommand) -> Result<(), String>,

    requires
        forall|command: LaunchCommand|
            command.argv() == kernel_argv() ==> call_requires(spawn, (command,)),
    ensures
        exists|command: LaunchCommand, outcome: Result<(), String>|
            command.argv() == kernel_argv()
            && #[trigger] call_ensures(spawn, (command,), outcome)
            && result == LaunchResult::of(outcome),
        (forall|command: LaunchCommand, outcome: Result<(), String>|
            command.argv() == kernel_argv() && #[trigger] call_ensures(spawn, (command,), outcome)
                ==> outcome is Ok) ==> result.reply_text() == SPAWNED_REPLY@,
        (forall|command: LaunchCommand, outcome: Result<(), String>|
            command.argv() == kernel_argv() && #[trigger] call_ensures(spawn, (command,), outcome)
                ==> outcome is Err) ==> FAILURE_PREFIX@.is_prefix_of(result.reply_text()),
{
    let command = kernel_command();
    let result = LaunchResult::from_outcome(spawn(command));
    proof {
        if result is SpawnFailed {
            lemma_failure_reply_carries_description(result->SpawnFailed_0);
        }
    }
    result
}

} // verus!
