//! Bounded, fixed-delay polling.
//!
//! A [`Poller`] decides; it never waits or queries by itself. The caller
//! evaluates the readiness condition, reports the outcome with
//! [`Poller::observe`], and performs the step that comes back. Between any
//! two steps the caller may give up with [`Poller::cancel`].

use vstd::prelude::*;

verus! {

/// Attempts granted to the wait for a session's pod to appear.
pub const POD_APPEARANCE_ATTEMPTS: u32 = 4;

/// Attempts granted to the wait for a container to leave the waiting phase.
pub const CONTAINER_START_ATTEMPTS: u32 = 300;

/// Seconds between two attempts, in both policies.
pub const POLL_DELAY_SECS: u64 = 2;

/// How many times a condition is evaluated at most, and the pause between
/// two evaluations.
#[derive(Clone, Copy, Debug, PartialEq, Eq, Structural)]
pub struct PollPolicy {
    pub max_attempts: u32,
    pub delay_secs: u64,
}

/// Where a poll stands.
#[derive(Clone, Copy, Debug, PartialEq, Eq, Structural)]
pub enum PollStatus {
    /// The condition is to be evaluated (again).
    Evaluating,
    /// The condition held at the last evaluation.
    Ready,
    /// The attempts are used up and the condition never held.
    TimedOut,
    /// The caller gave up before the poll had ended.
    Cancelled,
}

/// What the caller does next.
#[derive(Clone, Copy, Debug, PartialEq, Eq, Structural)]
pub enum PollStep {
    /// Evaluate the condition now.
    Evaluate,
    /// Pause for this many seconds, then evaluate the condition.
    Sleep(u64),
    /// Stop: the condition holds.
    Ready,
    /// Stop: the attempts are used up.
    TimedOut,
    /// Stop: the poll was cancelled.
    Cancelled,
}

/// The mathematical state of a poll: what has been done so far.
pub struct PollState {
    pub evaluations: nat,
    pub sleeps: nat,
    pub status: PollStatus,
}

/// The state before anything was evaluated. A policy without attempts is
/// timed out from the start.
pub open spec fn poll_start(policy: PollPolicy) -> PollState {
    PollState {
        evaluations: 0,
        sleeps: 0,
        status: if policy.max_attempts == 0 {
            PollStatus::TimedOut
        } else {
            PollStatus::Evaluating
        },
    }
}

/// The state after one evaluation with the given outcome. A finished poll
/// stays as it is.
pub open spec fn poll_observe(policy: PollPolicy, state: PollState, satisfied: bool) -> PollState {
    if state.status != PollStatus::Evaluating {
        state
    } else if satisfied {
        PollState { evaluations: state.evaluations + 1, status: PollStatus::Ready, ..state }
    } else if state.evaluations + 1 >= policy.max_attempts {
        PollState { evaluations: state.evaluations + 1, status: PollStatus::TimedOut, ..state }
    } else {
        PollState { evaluations: state.evaluations + 1, sleeps: state.sleeps + 1, ..state }
    }
}

/// The state after the caller gave up. A finished poll stays as it is.
pub open spec fn poll_cancel(state: PollState) -> PollState {
    if state.status == PollStatus::Evaluating {
        PollState { status: PollStatus::Cancelled, ..state }
    } else {
        state
    }
}

/// The step that a state asks for: evaluating before an evaluation, pausing
/// after one.
pub open spec fn poll_step_of(policy: PollPolicy, state: PollState, evaluated: bool) -> PollStep {
    match state.status {
        PollStatus::Evaluating => if evaluated {
            PollStep::Sleep(policy.delay_secs)
        } else {
            PollStep::Evaluate
        },
        PollStatus::Ready => PollStep::Ready,
        PollStatus::TimedOut => PollStep::TimedOut,
        PollStatus::Cancelled => PollStep::Cancelled,
    }
}

/// The state after the outcomes in `outcomes` were reported in order, one per
/// evaluation, for as long as the poll asks for one.
pub open spec fn poll_run(policy: PollPolicy, state: PollState, outcomes: Seq<bool>) -> PollState
    decreases outcomes.len(),
{
    if outcomes.len() == 0 || state.status != PollStatus::Evaluating {
        state
    } else {
        poll_run(policy, poll_observe(policy, state, outcomes[0]), outcomes.drop_first())
    }
}

/// What a state must satisfy to be reachable under a policy.
pub open spec fn poll_state_valid(policy: PollPolicy, state: PollState) -> bool {
    &&& state.evaluations <= policy.max_attempts
    &&& state.sleeps <= state.evaluations
    &&& state.status == PollStatus::Evaluating ==> state.evaluations < policy.max_attempts
        && state.sleeps == state.evaluations
    &&& state.status == PollStatus::Ready ==> state.evaluations >= 1 && state.sleeps
        == state.evaluations - 1
    &&& state.status == PollStatus::TimedOut ==> state.evaluations == policy.max_attempts
        && (state.sleeps == state.evaluations - 1 || state.evaluations == 0)
    &&& state.status == PollStatus::Cancelled ==> state.evaluations < policy.max_attempts
        && state.sleeps == state.evaluations
}

/// The policy for "has any pod appeared yet": few attempts.
pub fn pod_appearance_policy() -> (policy: PollPolicy)
    ensures
        policy == (PollPolicy {
            max_attempts: POD_APPEARANCE_ATTEMPTS,
            delay_secs: POLL_DELAY_SECS,
        }),
{
    PollPolicy { max_attempts: POD_APPEARANCE_ATTEMPTS, delay_secs: POLL_DELAY_SECS }
}

/// The policy for "has the container left the waiting phase": many attempts.
pub fn container_start_policy() -> (policy: PollPolicy)
    ensures
        policy == (PollPolicy {
            max_attempts: CONTAINER_START_ATTEMPTS,
            delay_secs: POLL_DELAY_SECS,
        }),
{
    PollPolicy { max_attempts: CONTAINER_START_ATTEMPTS, delay_secs: POLL_DELAY_SECS }
}

/// A poll in progress.
#[derive(Clone, Copy, Debug)]
pub struct Poller {
    policy: PollPolicy,
    evaluations: u32,
    sleeps: u32,
    status: PollStatus,
}

impl View for Poller {
    type V = PollState;

    closed spec fn view(&self) -> PollState {
        PollState {
            evaluations: self.evaluations as nat,
            sleeps: self.sleeps as nat,
            status: self.status,
        }
    }
}

impl Poller {
    /// The policy this poll runs under.
    pub closed spec fn spec_policy(&self) -> PollPolicy {
        self.policy
    }

    #[verifier::type_invariant]
    closed spec fn inv(&self) -> bool {
        poll_state_valid(self.policy, self@)
    }

    /// A poll that has evaluated nothing yet.
    pub fn new(policy: PollPolicy) -> (poller: Poller)
        ensures
            poller@ == poll_start(policy),
            poller.spec_policy() == policy,
    {
        let status = if policy.max_attempts == 0 {
            PollStatus::TimedOut
        } else {
            PollStatus::Evaluating
        };
        Poller { policy, evaluations: 0, sleeps: 0, status }
    }

    /// The policy this poll runs under.
    #[verifier::when_used_as_spec(spec_policy)]
    pub fn policy(&self) -> (policy: PollPolicy)
        ensures
            policy == self.spec_policy(),
    {
        self.policy
    }

    /// How often the condition has been evaluated.
    pub fn evaluations(&self) -> (n: u32)
        ensures
            n == self@.evaluations,
    {
        self.evaluations
    }

    /// How often the caller was told to pause.
    pub fn sleeps(&self) -> (n: u32)
        ensures
            n == self@.sleeps,
    {
        self.sleeps
    }

    /// Where the poll stands.
    pub fn status(&self) -> (status: PollStatus)
        ensures
            status == self@.status,
    {
        self.status
    }

    /// The first step: evaluate, unless the policy grants no attempt.
    pub fn first_step(&self) -> (step: PollStep)
        ensures
            step == poll_step_of(self.spec_policy(), self@, false),
    {
        match self.status {
            PollStatus::Evaluating => PollStep::Evaluate,
            PollStatus::Ready => PollStep::Ready,
            PollStatus::TimedOut => PollStep::TimedOut,
            PollStatus::Cancelled => PollStep::Cancelled,
        }
    }

    /// Reports the outcome of one evaluation and says what to do next.
    pub fn observe(&mut self, satisfied: bool) -> (step: PollStep)
        ensures
            final(self)@ == poll_observe(old(self).spec_policy(), old(self)@, satisfied),
            final(self).spec_policy() == old(self).spec_policy(),
            step == poll_step_of(old(self).spec_policy(), final(self)@, true),
    {
        proof {
            use_type_invariant(&*self);
        }
        match self.status {
            PollStatus::Evaluating => {
                let evaluations: u32 = self.evaluations + 1;
                if satisfied {
                    *self = Poller { evaluations, status: PollStatus::Ready, ..*self };
                    PollStep::Ready
                } else if evaluations >= self.policy.max_attempts {
                    *self = Poller { evaluations, status: PollStatus::TimedOut, ..*self };
                    PollStep::TimedOut
                } else {
                    let sleeps: u32 = self.sleeps + 1;
                    *self = Poller { evaluations, sleeps, ..*self };
                    PollStep::Sleep(self.policy.delay_secs)
                }
            },
            PollStatus::Ready => PollStep::Ready,
            PollStatus::TimedOut => PollStep::TimedOut,
            PollStatus::Cancelled => PollStep::Cancelled,
        }
    }

    /// Gives up: a poll that has not ended is cancelled, and nothing is
    /// evaluated or paused for after that.
    pub fn cancel(&mut self) -> (step: PollStep)
        ensures
            final(self)@ == poll_cancel(old(self)@),
            final(self).spec_policy() == old(self).spec_policy(),
            step == poll_step_of(old(self).spec_policy(), final(self)@, true),
            step != PollStep::Evaluate && !(step is Sleep),
    {
        proof {
            use_type_invariant(&*self);
        }
        match self.status {
            PollStatus::Evaluating => {
                *self = Poller { status: PollStatus::Cancelled, ..*self };
                PollStep::Cancelled
            },
            PollStatus::Ready => PollStep::Ready,
            PollStatus::TimedOut => PollStep::TimedOut,
            PollStatus::Cancelled => PollStep::Cancelled,
        }
    }
}

/// Every state that a poll reaches is valid for its policy.
pub proof fn lemma_poll_observe_valid(policy: PollPolicy, state: PollState, satisfied: bool)
    requires
        poll_state_valid(policy, state),
    ensures
        poll_state_valid(policy, poll_observe(policy, state, satisfied)),
{
}

/// A poll that is cancelled stays cancelled: no outcome reported later is
/// counted, and no pause is asked for.
pub proof fn lemma_cancelled_poll_stays(policy: PollPolicy, state: PollState, satisfied: bool)
    ensures
        poll_observe(policy, poll_cancel(state), satisfied) == poll_cancel(state),
        poll_cancel(poll_cancel(state)) == poll_cancel(state),
        poll_cancel(state).status != PollStatus::Evaluating,
        poll_state_valid(policy, state) ==> poll_state_valid(policy, poll_cancel(state)),
{
}

/// A condition that never holds is evaluated exactly as often as the policy
/// allows, with one pause between two evaluations, and the poll then times
/// out; further outcomes change nothing.
pub proof fn lemma_poll_never_ready_times_out(policy: PollPolicy, outcomes: Seq<bool>)
    requires
        outcomes.len() >= policy.max_attempts,
        forall|i: int| 0 <= i < policy.max_attempts ==> !outcomes[i],
    ensures
        poll_run(policy, poll_start(policy), outcomes).status == PollStatus::TimedOut,
        poll_run(policy, poll_start(policy), outcomes).evaluations == policy.max_attempts,
        poll_run(policy, poll_start(policy), outcomes).sleeps == if policy.max_attempts == 0 {
            0
        } else {
            policy.max_attempts - 1
        },
{
    if policy.max_attempts > 0 {
        lemma_poll_run_until(policy, poll_start(policy), outcomes, policy.max_attempts as nat);
    }
}

/// A condition that first holds at evaluation `k`, within the policy's
/// attempts, makes the poll ready after exactly `k` evaluations and `k - 1`
/// pauses; nothing is evaluated and no pause is made after that.
pub proof fn lemma_poll_ready_at(policy: PollPolicy, outcomes: Seq<bool>, k: nat)
    requires
        1 <= k <= policy.max_attempts,
        outcomes.len() >= k,
        forall|i: int| 0 <= i < k - 1 ==> !outcomes[i],
        outcomes[k - 1],
    ensures
        poll_run(policy, poll_start(policy), outcomes).status == PollStatus::Ready,
        poll_run(policy, poll_start(policy), outcomes).evaluations == k,
        poll_run(policy, poll_start(policy), outcomes).sleeps == k - 1,
{
    lemma_poll_run_until(policy, poll_start(policy), outcomes, k);
}

/// From an evaluating state, outcomes that stay false up to the evaluation
/// numbered `stop` (counted over the whole poll) lead to that evaluation,
/// which ends the poll: as ready if its outcome is true, as timed out if it
/// is the last one allowed.
proof fn lemma_poll_run_until(policy: PollPolicy, state: PollState, outcomes: Seq<bool>, stop: nat)
    requires
        poll_state_valid(policy, state),
        state.status == PollStatus::Evaluating,
        state.evaluations < stop <= policy.max_attempts,
        outcomes.len() >= stop - state.evaluations,
        forall|i: int| 0 <= i < stop - state.evaluations - 1 ==> !outcomes[i],
        outcomes[stop - state.evaluations - 1] || stop == policy.max_attempts,
    ensures
        poll_run(policy, state, outcomes).evaluations == stop,
        poll_run(policy, state, outcomes).sleeps == stop - 1,
        poll_run(policy, state, outcomes).status == if outcomes[stop - state.evaluations - 1] {
            PollStatus::Ready
        } else {
            PollStatus::TimedOut
        },
    decreases outcomes.len(),
{
    let next = poll_observe(policy, state, outcomes[0]);
    let rest = outcomes.drop_first();
    if state.evaluations + 1 == stop {
        assert(next.status != PollStatus::Evaluating);
        if rest.len() > 0 {
            assert(poll_run(policy, next, rest) == next);
        }
    } else {
        assert(!outcomes[0]);
        assert(forall|i: int| 0 <= i < stop - next.evaluations - 1 ==> !rest[i]) by {
            assert(forall|i: int| 0 <= i < rest.len() ==> rest[i] == outcomes[i + 1]);
        }
        assert(rest[stop - next.evaluations - 1] == outcomes[stop - state.evaluations - 1]);
        lemma_poll_run_until(policy, next, rest, stop);
    }
}

} // verus!
