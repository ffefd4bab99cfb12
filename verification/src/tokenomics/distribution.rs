//! Fee distribution between participants.

use vstd::prelude::*;

use crate::contracts::journal::sat_add;
use crate::types::address::Address;
use crate::types::amount::HclawAmount;

verus! {

/// Result of fee distribution
#[derive(Clone, Copy, Debug)]
pub struct FeeDistribution {
    /// Amount to solver
    pub solver_amount: HclawAmount,
    /// Solver's address
    pub solver: Address,
    /// Amount to verifier
    pub verifier_amount: HclawAmount,
    /// Verifier's address
    pub verifier: Address,
    /// Amount to burn
    pub burn_amount: HclawAmount,
}

impl FeeDistribution {
    /// Get total distributed (should equal original bounty)
    pub fn total(&self) -> (r: HclawAmount)
        ensures
            r.0 == sat_add(
                sat_add(self.solver_amount.0, self.verifier_amount.0),
                self.burn_amount.0,
            ),
    {
        self.solver_amount.saturating_add(self.verifier_amount).saturating_add(self.burn_amount)
    }
}

/// Distributes fees according to protocol rules
pub struct FeeDistributor {
    /// Solver share percentage
    solver_share: u8,
    /// Verifier share percentage
    verifier_share: u8,
    /// Burn share percentage
    burn_share: u8,
}

impl FeeDistributor {
    /// The three shares: solver, verifier, burn.
    pub closed spec fn spec_shares(&self) -> (u8, u8, u8) {
        (self.solver_share, self.verifier_share, self.burn_share)
    }

    #[verifier::type_invariant]
    spec fn shares_sum_to_100(self) -> bool {
        self.solver_share + self.verifier_share + self.burn_share == 100
    }

    /// Create new distributor with specified shares, which must sum to 100.
    pub fn new(solver_share: u8, verifier_share: u8, burn_share: u8) -> (r: Self)
        requires
            solver_share + verifier_share + burn_share == 100,
        ensures
            r.spec_shares() == (solver_share, verifier_share, burn_share),
    {
        FeeDistributor { solver_share, verifier_share, burn_share }
    }

    /// Create new distributor with specified shares, or `None` where they do
    /// not sum to 100.
    pub fn try_new(solver_share: u8, verifier_share: u8, burn_share: u8) -> (r: Option<Self>)
        ensures
            r.is_some() == (solver_share + verifier_share + burn_share == 100),
            r matches Some(d) ==> d.spec_shares() == (solver_share, verifier_share, burn_share),
    {
        if solver_share as u16 + verifier_share as u16 + burn_share as u16 == 100 {
            Some(FeeDistributor { solver_share, verifier_share, burn_share })
        } else {
            None
        }
    }

    /// Create with default shares (95/4/1)
    pub fn default_shares() -> (r: Self)
        ensures
            r.spec_shares() == (95u8, 4u8, 1u8),
    {
        Self::new(95, 4, 1)
    }

    /// Distribute a bounty amount: solver and verifier get their percentage,
    /// rounded down, and the rest is burned, so that nothing is lost.
    pub fn distribute(&self, bounty: HclawAmount, solver: Address, verifier: Address) -> (r:
        FeeDistribution)
        ensures
            r.solver == solver,
            r.verifier == verifier,
            r.solver_amount.0 == bounty.0 as int * self.spec_shares().0 as int / 100,
            r.verifier_amount.0 == bounty.0 as int * self.spec_shares().1 as int / 100,
            r.solver_amount.0 + r.verifier_amount.0 + r.burn_amount.0 == bounty.0,
    {
        proof {
            use_type_invariant(self);
        }
        let solver_amount = bounty.percentage(self.solver_share);
        let verifier_amount = bounty.percentage(self.verifier_share);
        proof {
            let b = bounty.0 as int;
            let s = self.solver_share as int;
            let v = self.verifier_share as int;
            assert(b * s / 100 + b * v / 100 <= b) by (nonlinear_arith)
                requires
                    0 <= b,
                    0 <= s,
                    0 <= v,
                    s + v <= 100,
            ;
            assert(b * s / 100 >= 0 && b * v / 100 >= 0) by (nonlinear_arith)
                requires
                    0 <= b,
                    0 <= s,
                    0 <= v,
            ;
        }
        let burn_amount = bounty.saturating_sub(solver_amount).saturating_sub(verifier_amount);
        FeeDistribution { solver_amount, solver, verifier_amount, verifier, burn_amount }
    }

    /// Get current shares
    pub fn shares(&self) -> (r: (u8, u8, u8))
        ensures
            r == self.spec_shares(),
            r.0 + r.1 + r.2 == 100,
    {
        proof {
            use_type_invariant(self);
        }
        (self.solver_share, self.verifier_share, self.burn_share)
    }
}

} // verus!
