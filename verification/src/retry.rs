//! Trying again a bounded number of times, with a fixed pause.
//!
//! An operation is attempted; after a failure there is a pause, and the
//! operation is attempted again unless the allowed number of attempts is
//! used up. The pause is also kept after the last failure. The caller
//! performs the attempts and the pauses and reports each as an event.

use vstd::prelude::*;

verus! {

/// How often an operation is attempted and how long the pause after a
/// failure is.
#[derive(Clone, Copy, Debug, PartialEq, Eq, Structural)]
pub struct RetryPolicy {
    pub attempts: u64,
    pub pause_secs: u64,
}

/// Where a retried operation stands.
#[derive(Clone, Copy, Debug, PartialEq, Eq, Structural)]
pub enum RetryState {
    /// An attempt is under way; `failed` attempts came before it.
    Trying { failed: u64 },
    /// The pause after the failure number `failed` is under way.
    Resting { failed: u64 },
    /// An attempt went through.
    Succeeded,
    /// Every allowed attempt failed.
    Exhausted,
}

/// What the caller reports.
#[derive(Clone, Copy, Debug, PartialEq, Eq, Structural)]
pub enum RetryEvent {
    AttemptSucceeded,
    AttemptFailed,
    Rested,
}

/// What the caller is to do next.
#[derive(Clone, Copy, Debug, PartialEq, Eq, Structural)]
pub enum RetryAction {
    /// Attempt the operation.
    Attempt,
    /// Pause for this many seconds.
    Rest { secs: u64 },
    /// Nothing more: the operation went through.
    Done,
    /// Nothing more: report that the operation failed for good.
    GiveUp,
    /// The event does not belong to the state: do nothing.
    Ignore,
}

/// The policy for pulling artifacts or the configuration from a node.
pub open spec fn rsync_policy() -> RetryPolicy {
    RetryPolicy { attempts: 5, pause_secs: 60 }
}

/// The policy for fetching an executable.
pub open spec fn download_policy() -> RetryPolicy {
    RetryPolicy { attempts: 3, pause_secs: 10 }
}

/// The first step: an attempt, unless none is allowed.
pub open spec fn retry_begin(policy: RetryPolicy) -> (RetryState, RetryAction) {
    if policy.attempts == 0 {
        (RetryState::Exhausted, RetryAction::GiveUp)
    } else {
        (RetryState::Trying { failed: 0 }, RetryAction::Attempt)
    }
}

/// The transition of a retried operation.
pub open spec fn retry_transition(policy: RetryPolicy, state: RetryState, event: RetryEvent) -> (
    RetryState,
    RetryAction,
) {
    match (state, event) {
        (RetryState::Trying { failed }, RetryEvent::AttemptSucceeded) => (
            RetryState::Succeeded,
            RetryAction::Done,
        ),
        (RetryState::Trying { failed }, RetryEvent::AttemptFailed) => if failed
            < policy.attempts {
            (
                RetryState::Resting { failed: (failed + 1) as u64 },
                RetryAction::Rest { secs: policy.pause_secs },
            )
        } else {
            (state, RetryAction::Ignore)
        },
        (RetryState::Resting { failed }, RetryEvent::Rested) => if failed < policy.attempts {
            (RetryState::Trying { failed }, RetryAction::Attempt)
        } else {
            (RetryState::Exhausted, RetryAction::GiveUp)
        },
        _ => (state, RetryAction::Ignore),
    }
}

/// The state after a run of attempts with the given outcomes, each failure
/// followed by its pause, starting while an attempt is under way.
pub open spec fn retry_run(policy: RetryPolicy, state: RetryState, outcomes: Seq<bool>)
    -> RetryState
    decreases outcomes.len(),
{
    if outcomes.len() == 0 || !(state is Trying) {
        state
    } else {
        let event = if outcomes[0] {
            RetryEvent::AttemptSucceeded
        } else {
            RetryEvent::AttemptFailed
        };
        let attempted = retry_transition(policy, state, event).0;
        let rested = if attempted is Resting {
            retry_transition(policy, attempted, RetryEvent::Rested).0
        } else {
            attempted
        };
        retry_run(policy, rested, outcomes.drop_first())
    }
}

/// Whether the attempt at position `at` is the first that goes through.
pub open spec fn first_success(outcomes: Seq<bool>, at: int) -> bool {
    0 <= at < outcomes.len() && outcomes[at] && forall|j: int| 0 <= j < at ==> !outcomes[j]
}

/// From an attempt that `failed` failures precede, a run ends in success
/// exactly if one of the attempts that are still allowed goes through, and
/// in exhaustion exactly if all of them fail.
pub proof fn lemma_retry_run(policy: RetryPolicy, failed: u64, outcomes: Seq<bool>)
    requires
        failed < policy.attempts,
    ensures
        retry_run(policy, RetryState::Trying { failed }, outcomes) is Succeeded <==> exists|
            at: int,
        |
            first_success(outcomes, at) && failed + at < policy.attempts,
        retry_run(policy, RetryState::Trying { failed }, outcomes) is Exhausted <==> failed
            + outcomes.len() >= policy.attempts && forall|j: int|
            0 <= j < policy.attempts - failed ==> !outcomes[j],
        retry_run(policy, RetryState::Trying { failed }, outcomes) matches RetryState::Trying {
            failed: now,
        } ==> now == failed + outcomes.len() && forall|j: int|
            0 <= j < outcomes.len() ==> !outcomes[j],
        !(retry_run(policy, RetryState::Trying { failed }, outcomes) is Resting),
    decreases outcomes.len(),
{
    let state = RetryState::Trying { failed };
    let end = retry_run(policy, state, outcomes);
    if outcomes.len() == 0 {
    } else if outcomes[0] {
        assert(first_success(outcomes, 0));
        assert(retry_run(policy, RetryState::Succeeded, outcomes.drop_first())
            == RetryState::Succeeded);
    } else {
        let rest = outcomes.drop_first();
        if failed + 1 < policy.attempts {
            lemma_retry_run(policy, (failed + 1) as u64, rest);
            assert(end == retry_run(policy, RetryState::Trying { failed: (failed + 1) as u64 }, rest));
            if exists|at: int| first_success(rest, at) && failed + 1 + at < policy.attempts {
                let at = choose|at: int|
                    first_success(rest, at) && failed + 1 + at < policy.attempts;
                assert forall|j: int| 0 <= j < at + 1 implies !outcomes[j] by {
                    if j > 0 {
                        assert(rest[j - 1] == outcomes[j]);
                    }
                }
                assert(rest[at] == outcomes[at + 1]);
                assert(first_success(outcomes, at + 1));
            }
            if exists|at: int| first_success(outcomes, at) && failed + at < policy.attempts {
                let at = choose|at: int|
                    first_success(outcomes, at) && failed + at < policy.attempts;
                assert(at > 0);
                assert forall|j: int| 0 <= j < at - 1 implies !rest[j] by {
                    assert(rest[j] == outcomes[j + 1]);
                }
                assert(rest[at - 1] == outcomes[at]);
                assert(first_success(rest, at - 1));
            }
            if failed + outcomes.len() >= policy.attempts && forall|j: int|
                0 <= j < policy.attempts - failed ==> !outcomes[j] {
                assert forall|j: int| 0 <= j < policy.attempts - (failed + 1) implies !rest[j] by {
                    assert(rest[j] == outcomes[j + 1]);
                }
            }
            if failed + 1 + rest.len() >= policy.attempts && forall|j: int|
                0 <= j < policy.attempts - (failed + 1) ==> !rest[j] {
                assert forall|j: int| 0 <= j < policy.attempts - failed implies !outcomes[j] by {
                    if j > 0 {
                        assert(rest[j - 1] == outcomes[j]);
                    }
                }
            }
            if end matches RetryState::Trying { failed: now } {
                assert forall|j: int| 0 <= j < outcomes.len() implies !outcomes[j] by {
                    if j > 0 {
                        assert(rest[j - 1] == outcomes[j]);
                    }
                }
            }
        } else {
            assert(retry_run(policy, RetryState::Exhausted, rest) == RetryState::Exhausted);
            assert(end == RetryState::Exhausted);
            if exists|at: int| first_success(outcomes, at) && failed + at < policy.attempts {
                let at = choose|at: int|
                    first_success(outcomes, at) && failed + at < policy.attempts;
                assert(at == 0);
            }
        }
    }
}

/// An operation that is retried under a policy makes no more attempts
/// than the policy allows: it has succeeded exactly if one of the first
/// `attempts` attempts went through, and it is given up exactly if the
/// first `attempts` attempts all failed.
pub proof fn lemma_bounded_retry(policy: RetryPolicy, outcomes: Seq<bool>)
    ensures
        retry_run(policy, retry_begin(policy).0, outcomes) is Succeeded <==> exists|at: int|
            first_success(outcomes, at) && at < policy.attempts,
        retry_run(policy, retry_begin(policy).0, outcomes) is Exhausted <==> outcomes.len()
            >= policy.attempts && forall|j: int| 0 <= j < policy.attempts ==> !outcomes[j],
{
    if policy.attempts > 0 {
        lemma_retry_run(policy, 0, outcomes);
    }
}

/// The policy for pulling artifacts or the configuration from a node: five
/// attempts, a minute apart.
pub fn rsync_retries() -> (policy: RetryPolicy)
    ensures
        policy == rsync_policy(),
{
    RetryPolicy { attempts: 5, pause_secs: 60 }
}

/// The policy for fetching an executable: three attempts, ten seconds
/// apart.
pub fn download_retries() -> (policy: RetryPolicy)
    ensures
        policy == download_policy(),
{
    RetryPolicy { attempts: 3, pause_secs: 10 }
}

/// Starts a retried operation.
pub fn retry_start(policy: RetryPolicy) -> (next: (RetryState, RetryAction))
    ensures
        next == retry_begin(policy),
{
    if policy.attempts == 0 {
        (RetryState::Exhausted, RetryAction::GiveUp)
    } else {
        (RetryState::Trying { failed: 0 }, RetryAction::Attempt)
    }
}

/// Advances a retried operation by one event and says what is to be done
/// next.
pub fn retry_step(policy: RetryPolicy, state: RetryState, event: RetryEvent) -> (next: (
    RetryState,
    RetryAction,
))
    ensures
        next == retry_transition(policy, state, event),
{
    match (state, event) {
        (RetryState::Trying { failed }, RetryEvent::AttemptSucceeded) => (
            RetryState::Succeeded,
            RetryAction::Done,
        ),
        (RetryState::Trying { failed }, RetryEvent::AttemptFailed) => {
            if failed < policy.attempts {
                (
                    RetryState::Resting { failed: failed + 1 },
                    RetryAction::Rest { secs: policy.pause_secs },
                )
            } else {
                (state, RetryAction::Ignore)
            }
        },
        (RetryState::Resting { failed }, RetryEvent::Rested) => {
            if failed < policy.attempts {
                (RetryState::Trying { failed }, RetryAction::Attempt)
            } else {
                (RetryState::Exhausted, RetryAction::GiveUp)
            }
        },
        _ => (state, RetryAction::Ignore),
    }
}

} // verus!
