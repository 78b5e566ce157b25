//! The outcome of one launch and the reply that reports it.

use vstd::prelude::*;
use vstd::string::StringExecFns;

verus! {

/// Reply for a launch that created the kernel process.
pub const SPAWNED_REPLY: &'static str = "Kernel Process Spawned (API Mode)";

/// What every reply for a failed launch begins with; the operating system's
/// description of the failure follows it.
pub const FAILURE_PREFIX: &'static str = "Failed to spawn kernel: ";

/// Outcome of one launch request.
#[derive(Debug, Clone, PartialEq, Eq)]
pub enum LaunchResult {
    /// The operating system created the process. No handle to it is kept.
    Spawned,
    /// The operating system created no process and described why.
    SpawnFailed(String),
}

impl LaunchResult {
    /// The result that stands for an outcome of the creation call: success
    /// with nothing more to say, or the description of the failure.
    pub open spec fn of(outcome: Result<(), String>) -> LaunchResult {
        match outcome {
            Ok(_) => LaunchResult::Spawned,
            Err(description) => LaunchResult::SpawnFailed(description),
        }
    }

    /// Text of the reply for this result.
    pub open spec fn reply_text(self) -> Seq<char> {
        match self {
            LaunchResult::Spawned => SPAWNED_REPLY@,
            LaunchResult::SpawnFailed(description) => FAILURE_PREFIX@ + description@,
        }
    }

    /// Turns what the creation call reported into a launch result. The
    /// description of a failure is kept as it came.
    pub fn from_outcome(outcome: Result<(), String>) -> (result: LaunchResult)
        ensures
            result == LaunchResult::of(outcome),
    {
        match outcome {
            Ok(_) => LaunchResult::Spawned,
            Err(description) => LaunchResult::SpawnFailed(description),
        }
    }

    /// The reply for the front end: the fixed confirmation after a launch,
    /// and after a failure the fixed prefix followed by the description.
    pub fn reply(&self) -> (text: String)
        ensures
            text@ == self.reply_text(),
    {
        match self {
            LaunchResult::Spawned => String::from_str(SPAWNED_REPLY),
            LaunchResult::SpawnFailed(description) => {
                String::from_str(FAILURE_PREFIX).concat(description.as_str())
            },
        }
    }
}

/// A failure reply begins with the fixed prefix, and what follows the prefix
/// is the description, character for character.
pub proof fn lemma_failure_reply_carries_description(description: String)
    ensures
        FAILURE_PREFIX@.is_prefix_of(LaunchResult::SpawnFailed(description).reply_text()),
        LaunchResult::SpawnFailed(description).reply_text().skip(FAILURE_PREFIX@.len() as int)
            == description@,
{
    let text = LaunchResult::SpawnFailed(description).reply_text();
    assert(text.subrange(0, FAILURE_PREFIX@.len() as int) =~= FAILURE_PREFIX@);
    assert(text.skip(FAILURE_PREFIX@.len() as int) =~= description@);
}

/// The confirmation does not begin with the failure prefix, so no reply can
/// be read both ways.
pub proof fn lemma_confirmation_is_no_failure_reply()
    ensures
        !FAILURE_PREFIX@.is_prefix_of(SPAWNED_REPLY@),
{
    reveal_strlit("Kernel Process Spawned (API Mode)");
    reveal_strlit("Failed to spawn kernel: ");
    if FAILURE_PREFIX@.is_prefix_of(SPAWNED_REPLY@) {
        assert(SPAWNED_REPLY@.subrange(0, FAILURE_PREFIX@.len() as int)[0] == FAILURE_PREFIX@[0]);
    }
}

/// Two results whose replies read the same are the same outcome: both
/// launched, or both failed with the same description.
pub proof fn lemma_reply_tells_result(a: LaunchResult, b: LaunchResult)
    requires
        a.reply_text() == b.reply_text(),
    ensures
        a is Spawned <==> b is Spawned,
        a matches LaunchResult::SpawnFailed(x) ==> (b matches LaunchResult::SpawnFailed(y) && x@ == y@),
{
    lemma_confirmation_is_no_failure_reply();
    match (a, b) {
        (LaunchResult::SpawnFailed(x), LaunchResult::SpawnFailed(y)) => {
            lemma_failure_reply_carries_description(x);
            lemma_failure_reply_carries_description(y);
        },
        (LaunchResult::SpawnFailed(x), LaunchResult::Spawned) => {
            lemma_failure_reply_carries_description(x);
        },
        (LaunchResult::Spawned, LaunchResult::SpawnFailed(y)) => {
            lemma_failure_reply_carries_description(y);
        },
        _ => {},
    }
}

} // verus!
