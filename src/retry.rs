//! Bounded retry policy for one logical request.
//!
//! The policy is a small state machine: the caller dispatches an attempt, hands
//! its outcome to [`RetryPolicy::observe`], and either reissues the same request
//! as a fresh payload or returns the terminal outcome.

use vstd::prelude::*;
use crate::error::{ClientResult, Error, is_transient_outcome};

verus! {

/// What to do after an attempt.
#[derive(Debug, PartialEq, Eq)]
pub enum RetryStep {
    /// Dispatch the same method, url and body again as a fresh payload.
    Reissue,
    /// The logical request is over: hand this outcome to the caller.
    Finish(ClientResult),
}

/// Attempt state of one logical request; never shared between requests.
#[derive(Debug)]
pub struct RetryPolicy {
    budget: usize,
    remaining: usize,
}

/// Retry budget left after an attempt with `outcome`, when the policy reissues;
/// `None` when the outcome is terminal.
pub open spec fn next_budget(remaining: nat, outcome: ClientResult) -> Option<nat> {
    if is_transient_outcome(outcome) && remaining > 0 {
        Some((remaining - 1) as nat)
    } else {
        None
    }
}

/// Terminal outcome and number of attempts of a logical request that starts
/// with `remaining` retries, when successive attempts yield `outcomes`.
/// The outcome is `None` when the attempts run out before a terminal one.
pub open spec fn resolution(remaining: nat, outcomes: Seq<ClientResult>) -> (Option<ClientResult>, nat)
    decreases outcomes.len(),
{
    if outcomes.len() == 0 {
        (None, 0)
    } else {
        match next_budget(remaining, outcomes[0]) {
            None => (Some(outcomes[0]), 1),
            Some(rest) => {
                let (r, n) = resolution(rest, outcomes.drop_first());
                (r, n + 1)
            },
        }
    }
}

impl RetryPolicy {
    pub closed spec fn budget(&self) -> nat {
        self.budget as nat
    }

    pub closed spec fn remaining(&self) -> nat {
        self.remaining as nat
    }

    pub closed spec fn wf(&self) -> bool {
        self.remaining <= self.budget
    }

    /// A fresh attempt state with `max_retries` retries on top of the first attempt.
    pub fn new(max_retries: usize) -> (p: Self)
        ensures
            p.wf(),
            p.budget() == max_retries,
            p.remaining() == max_retries,
    {
        RetryPolicy { budget: max_retries, remaining: max_retries }
    }

    /// Retries still allowed.
    pub fn remaining_retries(&self) -> (r: usize)
        ensures
            r == self.remaining(),
    {
        self.remaining
    }

    /// Retries performed so far: one warning was due for each.
    pub fn retries_made(&self) -> (r: usize)
        requires
            self.wf(),
        ensures
            r == self.budget() - self.remaining(),
    {
        self.budget - self.remaining
    }

    /// Decides on the outcome of the attempt just made. A transient network
    /// failure is retried while budget is left; any other outcome, or a network
    /// failure with no budget left, is returned verbatim.
    pub fn observe(&mut self, outcome: ClientResult) -> (step: RetryStep)
        requires
            old(self).wf(),
        ensures
            final(self).wf(),
            final(self).budget() == old(self).budget(),
            match next_budget(old(self).remaining(), outcome) {
                Some(rest) => step == RetryStep::Reissue && final(self).remaining() == rest,
                None => step == RetryStep::Finish(outcome) && final(self).remaining() == old(self).remaining(),
            },
    {
        let transient = match &outcome {
            Err(e) => e.is_transient(),
            Ok(_) => false,
        };
        if transient && self.remaining > 0 {
            self.remaining = self.remaining - 1;
            RetryStep::Reissue
        } else {
            RetryStep::Finish(outcome)
        }
    }
}

/// A logical request resolves to the first outcome that is not a transient
/// failure, provided it comes within the retry budget, after one attempt for
/// it and one for each failure before it.
pub proof fn lemma_first_terminal_outcome_wins(max_retries: nat, k: nat, outcomes: Seq<ClientResult>)
    requires
        k <= max_retries,
        k < outcomes.len(),
        forall|i: int| 0 <= i < k ==> is_transient_outcome(#[trigger] outcomes[i]),
        !is_transient_outcome(outcomes[k as int]),
    ensures
        resolution(max_retries, outcomes) == (Some(outcomes[k as int]), k + 1),
    decreases k,
{
    if k > 0 {
        assert(is_transient_outcome(outcomes[0]));
        let rest = outcomes.drop_first();
        assert forall|i: int| 0 <= i < k - 1 implies is_transient_outcome(#[trigger] rest[i]) by {
            assert(rest[i] == outcomes[i + 1]);
        }
        assert(rest[k - 1] == outcomes[k as int]);
        lemma_first_terminal_outcome_wins((max_retries - 1) as nat, (k - 1) as nat, rest);
    }
}

/// A success after some transient failures within the budget reaches the
/// caller, with one retry per failure.
pub proof fn lemma_bounded_retry_success(max_retries: nat, k: nat, outcomes: Seq<ClientResult>)
    requires
        k <= max_retries,
        k < outcomes.len(),
        forall|i: int| 0 <= i < k ==> is_transient_outcome(#[trigger] outcomes[i]),
        outcomes[k as int] is Ok,
    ensures
        resolution(max_retries, outcomes).0 == Some(outcomes[k as int]),
        resolution(max_retries, outcomes).0.unwrap() is Ok,
        resolution(max_retries, outcomes).1 == k + 1,
{
    lemma_first_terminal_outcome_wins(max_retries, k, outcomes);
}

/// When every attempt fails with a network error, the caller gets the last
/// network error after the initial attempt and `max_retries` retries.
pub proof fn lemma_retry_exhaustion(max_retries: nat, outcomes: Seq<ClientResult>)
    requires
        max_retries < outcomes.len(),
        forall|i: int| 0 <= i < outcomes.len() ==> is_transient_outcome(#[trigger] outcomes[i]),
    ensures
        resolution(max_retries, outcomes) == (Some(outcomes[max_retries as int]), max_retries + 1),
        resolution(max_retries, outcomes).0.unwrap() matches Err(Error::Network(_)),
    decreases max_retries,
{
    assert(is_transient_outcome(outcomes[0]));
    if max_retries > 0 {
        let rest = outcomes.drop_first();
        assert forall|i: int| 0 <= i < rest.len() implies is_transient_outcome(#[trigger] rest[i]) by {
            assert(rest[i] == outcomes[i + 1]);
        }
        lemma_retry_exhaustion((max_retries - 1) as nat, rest);
        assert(rest[max_retries - 1] == outcomes[max_retries as int]);
    }
}

/// An outcome that is not a transient failure on the first attempt is
/// returned as it is, with no retry, whatever the budget.
pub proof fn lemma_non_retryable_first_outcome(max_retries: nat, outcomes: Seq<ClientResult>)
    requires
        outcomes.len() > 0,
        !is_transient_outcome(outcomes[0]),
    ensures
        resolution(max_retries, outcomes) == (Some(outcomes[0]), 1nat),
{
}

/// With no retry budget exactly one attempt is made, and its outcome is
/// returned as it is.
pub proof fn lemma_zero_budget_single_attempt(outcomes: Seq<ClientResult>)
    requires
        outcomes.len() > 0,
    ensures
        resolution(0, outcomes) == (Some(outcomes[0]), 1nat),
{
}

} // verus!
