//! Rolling accuracy tracking for verifier consensus agreement.
//!
//! Verifiers are judged by how often they agree with consensus over a rolling
//! window, not by single votes. This module holds the records, the rolling
//! window with its counts, and the actions; the ratios themselves are
//! computed by the application.

use std::collections::VecDeque;
use vstd::prelude::*;

use crate::types::{Id, Timestamp};

verus! {

/// Result of a single verification from this verifier's perspective
#[derive(Clone, Copy, Debug)]
pub struct VerificationOutcome {
    /// Did this verifier agree with consensus?
    pub agreed_with_consensus: bool,
    /// The solution this was for
    pub solution_id: Id,
    /// When this occurred
    pub timestamp: Timestamp,
}

/// Accuracy status for a verifier
#[derive(Clone, Copy, Debug, PartialEq, Eq, Structural)]
pub enum AccuracyStatus {
    /// Not enough data to evaluate
    Probationary,
    /// Accuracy above warning threshold
    Good,
    /// Accuracy between warning and slash thresholds
    Warning,
    /// Accuracy below slash threshold: active slashing
    Slashing,
    /// Accuracy below critical threshold: slash and deactivate
    Critical,
}

/// What action to take based on accuracy
#[derive(Clone, Copy, Debug, PartialEq, Eq, Structural)]
pub enum SlashAction {
    /// No slashing needed
    NoAction,
    /// Slash a percentage of stake
    Slash {
        /// Percentage to slash
        percent: u8,
    },
    /// Slash and deactivate the verifier
    SlashAndDeactivate {
        /// Percentage to slash
        percent: u8,
    },
}

/// The action that a status calls for, given the two slash percentages.
pub open spec fn action_for(status: AccuracyStatus, slash_percent: u8, critical_slash_percent: u8) -> SlashAction {
    match status {
        AccuracyStatus::Slashing => SlashAction::Slash { percent: slash_percent },
        AccuracyStatus::Critical => SlashAction::SlashAndDeactivate {
            percent: critical_slash_percent,
        },
        _ => SlashAction::NoAction,
    }
}

/// The action that a status calls for: a slash while slashing, a slash and
/// deactivation when critical, and nothing otherwise.
pub fn slash_action_for(status: AccuracyStatus, slash_percent: u8, critical_slash_percent: u8) -> (r:
    SlashAction)
    ensures
        r == action_for(status, slash_percent, critical_slash_percent),
{
    match status {
        AccuracyStatus::Slashing => SlashAction::Slash { percent: slash_percent },
        AccuracyStatus::Critical => SlashAction::SlashAndDeactivate {
            percent: critical_slash_percent,
        },
        _ => SlashAction::NoAction,
    }
}

/// How many of some outcomes agreed with consensus.
pub open spec fn agreed_in(outcomes: Seq<VerificationOutcome>) -> nat
    decreases outcomes.len(),
{
    if outcomes.len() == 0 {
        0
    } else if outcomes.last().agreed_with_consensus {
        agreed_in(outcomes.drop_last()) + 1
    } else {
        agreed_in(outcomes.drop_last())
    }
}

/// The last `size` of some outcomes; all of them where there are no more.
pub open spec fn windowed(outcomes: Seq<VerificationOutcome>, size: usize) -> Seq<
    VerificationOutcome,
> {
    if outcomes.len() <= size {
        outcomes
    } else {
        outcomes.subrange(outcomes.len() - size, outcomes.len() as int)
    }
}

/// No more outcomes agreed than there are.
pub proof fn lemma_agreed_bound(outcomes: Seq<VerificationOutcome>)
    ensures
        agreed_in(outcomes) <= outcomes.len(),
    decreases outcomes.len(),
{
    if outcomes.len() > 0 {
        lemma_agreed_bound(outcomes.drop_last());
    }
}

/// Without the oldest outcome, the agreements are one fewer where it agreed,
/// and as many where it did not.
pub proof fn lemma_agreed_without_first(outcomes: Seq<VerificationOutcome>)
    requires
        outcomes.len() > 0,
    ensures
        agreed_in(outcomes) == agreed_in(outcomes.subrange(1, outcomes.len() as int)) + if outcomes[0].agreed_with_consensus {
            1nat
        } else {
            0nat
        },
    decreases outcomes.len(),
{
    let rest = outcomes.subrange(1, outcomes.len() as int);
    if outcomes.len() == 1 {
        assert(outcomes.drop_last() =~= Seq::<VerificationOutcome>::empty());
        assert(rest =~= Seq::<VerificationOutcome>::empty());
    } else {
        let front = outcomes.drop_last();
        lemma_agreed_without_first(front);
        assert(front.subrange(1, front.len() as int) =~= rest.drop_last());
        assert(rest.last() == outcomes.last());
        assert(front[0] == outcomes[0]);
    }
}

/// The outcomes and counts of a verifier.
#[derive(Debug)]
struct WindowData {
    outcomes: VecDeque<VerificationOutcome>,
    agreement_count: usize,
    total_verifications: u64,
    total_agreements: u64,
}

impl WindowData {
    spec fn wf(self) -> bool {
        &&& self.agreement_count == agreed_in(self.outcomes@)
        &&& self.total_agreements <= self.total_verifications
    }

    fn empty() -> (r: Self)
        ensures
            r.wf(),
            r.outcomes@ == Seq::<VerificationOutcome>::empty(),
            r.total_verifications == 0,
            r.total_agreements == 0,
    {
        WindowData {
            outcomes: VecDeque::new(),
            agreement_count: 0,
            total_verifications: 0,
            total_agreements: 0,
        }
    }

    fn copy(&self) -> (r: Self)
        ensures
            r.outcomes@ == self.outcomes@,
            r.agreement_count == self.agreement_count,
            r.total_verifications == self.total_verifications,
            r.total_agreements == self.total_agreements,
    {
        let mut outcomes: VecDeque<VerificationOutcome> = VecDeque::new();
        let mut i: usize = 0;
        while i < self.outcomes.len()
            invariant
                0 <= i <= self.outcomes@.len(),
                outcomes@ == self.outcomes@.subrange(0, i as int),
            decreases self.outcomes@.len() - i,
        {
            outcomes.push_back(self.outcomes[i]);
            assert(outcomes@ =~= self.outcomes@.subrange(0, i as int + 1));
            i += 1;
        }
        assert(outcomes@ =~= self.outcomes@);
        WindowData {
            outcomes,
            agreement_count: self.agreement_count,
            total_verifications: self.total_verifications,
            total_agreements: self.total_agreements,
        }
    }

    fn record(&mut self, outcome: VerificationOutcome, window_size: usize)
        requires
            old(self).wf(),
            old(self).total_verifications < u64::MAX,
        ensures
            final(self).wf(),
            final(self).outcomes@ == windowed(old(self).outcomes@.push(outcome), window_size),
            final(self).total_verifications == old(self).total_verifications + 1,
            final(self).total_agreements == old(self).total_agreements + if outcome.agreed_with_consensus {
                1int
            } else {
                0int
            },
    {
        let ghost all = self.outcomes@.push(outcome);
        self.total_verifications += 1;
        self.outcomes.push_back(outcome);
        proof {
            assert(all.drop_last() =~= old(self).outcomes@);
            lemma_agreed_bound(all);
        }
        let length = self.outcomes.len();
        assert(length == all.len());
        if outcome.agreed_with_consensus {
            self.agreement_count += 1;
            self.total_agreements += 1;
        }
        assert(all.subrange(0, all.len() as int) =~= all);
        while self.outcomes.len() > window_size
            invariant
                self.outcomes@.len() <= all.len(),
                self.outcomes@.len() == all.len() || self.outcomes@.len() >= window_size,
                self.outcomes@ == all.subrange(all.len() - self.outcomes@.len(), all.len() as int),
                self.agreement_count == agreed_in(self.outcomes@),
                self.total_verifications == old(self).total_verifications + 1,
                self.total_agreements == old(self).total_agreements + if outcome.agreed_with_consensus {
                    1int
                } else {
                    0int
                },
                self.total_agreements <= self.total_verifications,
            decreases self.outcomes@.len(),
        {
            let ghost before = self.outcomes@;
            proof {
                lemma_agreed_without_first(before);
            }
            match self.outcomes.pop_front() {
                Some(removed) => {
                    assert(self.outcomes@ =~= all.subrange(
                        all.len() - self.outcomes@.len(),
                        all.len() as int,
                    ));
                    if removed.agreed_with_consensus {
                        self.agreement_count -= 1;
                    }
                },
                None => {},
            }
        }
        assert(self.outcomes@ =~= windowed(all, window_size));
    }
}

/// The rolling window of a verifier's most recent outcomes, oldest first,
/// with the number of agreements in the window and the lifetime totals.
#[derive(Debug)]
pub struct OutcomeWindow {
    data: WindowData,
}

impl OutcomeWindow {
    #[verifier::type_invariant]
    spec fn counts_are_right(self) -> bool {
        self.data.wf()
    }

    /// The outcomes in the window, oldest first.
    pub closed spec fn outcomes(&self) -> Seq<VerificationOutcome> {
        self.data.outcomes@
    }

    /// How many outcomes were ever recorded.
    pub closed spec fn spec_total_verifications(&self) -> u64 {
        self.data.total_verifications
    }

    /// How many of the outcomes ever recorded agreed with consensus.
    pub closed spec fn spec_total_agreements(&self) -> u64 {
        self.data.total_agreements
    }

    /// An empty window.
    pub fn new() -> (r: Self)
        ensures
            r.outcomes() == Seq::<VerificationOutcome>::empty(),
            r.spec_total_verifications() == 0,
            r.spec_total_agreements() == 0,
    {
        OutcomeWindow { data: WindowData::empty() }
    }

    /// Record a new outcome and trim the window to its size: the oldest
    /// outcomes leave first.
    pub fn record(&mut self, outcome: VerificationOutcome, window_size: usize)
        requires
            old(self).spec_total_verifications() < u64::MAX,
        ensures
            final(self).outcomes() == windowed(old(self).outcomes().push(outcome), window_size),
            final(self).spec_total_verifications() == old(self).spec_total_verifications() + 1,
            final(self).spec_total_agreements() == old(self).spec_total_agreements() + if outcome.agreed_with_consensus {
                1int
            } else {
                0int
            },
    {
        proof {
            use_type_invariant(&*self);
        }
        let mut data = WindowData::empty();
        std::mem::swap(&mut self.data, &mut data);
        data.record(outcome, window_size);
        self.data = data;
    }

    /// The number of outcomes in the window.
    pub fn len(&self) -> (r: usize)
        ensures
            r == self.outcomes().len(),
    {
        self.data.outcomes.len()
    }

    /// The number of outcomes in the window that agreed with consensus.
    pub fn agreement_count(&self) -> (r: usize)
        ensures
            r == agreed_in(self.outcomes()),
            r <= self.outcomes().len(),
    {
        proof {
            use_type_invariant(self);
            lemma_agreed_bound(self.outcomes());
        }
        self.data.agreement_count
    }

    /// How many outcomes were ever recorded.
    pub fn total_verifications(&self) -> (r: u64)
        ensures
            r == self.spec_total_verifications(),
    {
        self.data.total_verifications
    }

    /// How many of the outcomes ever recorded agreed with consensus.
    pub fn total_agreements(&self) -> (r: u64)
        ensures
            r == self.spec_total_agreements(),
            r <= self.spec_total_verifications(),
    {
        proof {
            use_type_invariant(self);
        }
        self.data.total_agreements
    }
}

impl Clone for OutcomeWindow {
    fn clone(&self) -> (r: Self)
        ensures
            r.outcomes() == self.outcomes(),
            r.spec_total_verifications() == self.spec_total_verifications(),
            r.spec_total_agreements() == self.spec_total_agreements(),
    {
        proof {
            use_type_invariant(self);
        }
        OutcomeWindow { data: self.data.copy() }
    }
}

impl Default for OutcomeWindow {
    fn default() -> (r: Self)
        ensures
            r.outcomes() == Seq::<VerificationOutcome>::empty(),
            r.spec_total_verifications() == 0,
            r.spec_total_agreements() == 0,
    {
        Self::new()
    }
}

} // verus!
