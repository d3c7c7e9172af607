//! Typed errors for the rebalancing computations.

use vstd::prelude::*;

verus! {

/// Why a rebalance computation was rejected.
///
/// The first two variants are configuration errors: the requested policy is
/// ill-formed and the run is aborted.  The remaining variants are consistency
/// violations detected while splitting the combined retirement target across
/// accounts; they indicate inconsistent inputs rather than a recoverable
/// condition.
#[derive(Clone, Copy, Debug, PartialEq, Eq, Structural)]
pub enum RebalanceError {
    /// The stock/bond/inflation-protected percentages do not sum to 100%.
    InvalidAllocation,
    /// No glide-path entry matches the requested retirement year.
    UnknownRetirementYear,
    /// The risk-ordered walk left part of the Roth budget unassigned.
    RothLeftoverBudget,
    /// The Roth target diverges more than 1% from the Roth account value.
    RothTargetMismatch,
    /// The reverse walk left part of the brokerage budget unassigned.
    BrokerageLeftoverBudget,
    /// The brokerage target diverges more than 1% from the account value.
    BrokerageTargetMismatch,
}

impl RebalanceError {
    /// The text returned by [`RebalanceError::message`], one line per variant.
    pub open spec fn message_view(self) -> Seq<char> {
        match self {
            RebalanceError::InvalidAllocation => "stock, bond and inflation-protected percentages must sum to 100"@,
            RebalanceError::UnknownRetirementYear => "no glide-path entry for the requested retirement year"@,
            RebalanceError::RothLeftoverBudget => "Unexpected leftover roth cash"@,
            RebalanceError::RothTargetMismatch => "Roth target and total do not match"@,
            RebalanceError::BrokerageLeftoverBudget => "Unexpected leftover brokerage cash"@,
            RebalanceError::BrokerageTargetMismatch => "brokerage target and total do not match"@,
        }
    }

    /// A human-readable description of the error.
    pub fn message(&self) -> (r: String)
        ensures
            r@ == self.message_view(),
    {
        match self {
            RebalanceError::InvalidAllocation => "stock, bond and inflation-protected percentages must sum to 100".to_owned(),
            RebalanceError::UnknownRetirementYear => "no glide-path entry for the requested retirement year".to_owned(),
            RebalanceError::RothLeftoverBudget => "Unexpected leftover roth cash".to_owned(),
            RebalanceError::RothTargetMismatch => "Roth target and total do not match".to_owned(),
            RebalanceError::BrokerageLeftoverBudget => "Unexpected leftover brokerage cash".to_owned(),
            RebalanceError::BrokerageTargetMismatch => "brokerage target and total do not match".to_owned(),
        }
    }
}

} // verus!
