//! Allocation policy: a validated stock/bond/inflation-protected percentage
//! triple, and its decomposition into per-symbol sub-allocation fractions.
//!
//! The decomposition is fixed: two thirds of the stock share goes to US
//! equity, split into three equal large/mid/small tranches; the remaining
//! third goes to international equity, of which one third is emerging
//! markets and two thirds total-international.  The bond share is split into
//! three equal tranches: US total bond, US corporate bond and international
//! bond.  The inflation-protected share is taken flat.  All fractions are
//! expressed as integer numerators over the common denominator
//! [`SUB_DENOM`], which makes the split exact.

use vstd::prelude::*;

use crate::errors::RebalanceError;
use crate::fixed::{PCT_ONE, SUB_DENOM};

verus! {

/// A stock/bond/inflation-protected percentage triple in basis points
/// (`10_000` is 100%).
#[derive(Clone, Copy, Debug, PartialEq, Eq, Structural)]
pub struct Allocations {
    pub stock_bp: i64,
    pub bond_bp: i64,
    pub inflation_bp: i64,
}

/// One row of an externally supplied glide-path table: the allocation
/// recommended for a given retirement year.
#[derive(Clone, Copy, Debug, PartialEq, Eq, Structural)]
pub struct GlideEntry {
    pub retirement_year: i32,
    pub stock_bp: i64,
    pub bond_bp: i64,
    pub inflation_bp: i64,
}

/// The first glide-path entry for `year`, scanning the table front to back.
pub open spec fn glide_lookup(entries: Seq<GlideEntry>, year: int) -> Option<GlideEntry>
    decreases entries.len(),
{
    if entries.len() == 0 {
        None
    } else if entries[0].retirement_year == year {
        Some(entries[0])
    } else {
        glide_lookup(entries.drop_first(), year)
    }
}

impl Allocations {
    /// A triple is valid when no share is negative and the three parts make
    /// up exactly 100%.
    pub open spec fn valid(self) -> bool {
        &&& 0 <= self.stock_bp
        &&& 0 <= self.bond_bp
        &&& 0 <= self.inflation_bp
        &&& self.stock_bp + self.bond_bp + self.inflation_bp == PCT_ONE
    }

    /// The default allocation: 60% stock, 40% bond.
    pub fn new() -> (r: Self)
        ensures
            r == (Allocations { stock_bp: 6000i64, bond_bp: 4000i64, inflation_bp: 0i64 }),
            r.valid(),
    {
        Allocations { stock_bp: 6000, bond_bp: 4000, inflation_bp: 0 }
    }

    /// Builds an allocation from explicit percentages, rejecting any triple
    /// that does not sum to exactly 100%.
    pub fn custom(stock_bp: i64, bond_bp: i64, inflation_bp: i64) -> (r: Result<Self, RebalanceError>)
        ensures
            match r {
                Ok(a) => {
                    &&& a == (Allocations { stock_bp, bond_bp, inflation_bp })
                    &&& a.valid()
                },
                Err(e) => {
                    &&& e == RebalanceError::InvalidAllocation
                    &&& !(Allocations { stock_bp, bond_bp, inflation_bp }).valid()
                },
            },
    {
        if 0 <= stock_bp && 0 <= bond_bp && 0 <= inflation_bp
            && stock_bp <= PCT_ONE && bond_bp <= PCT_ONE && inflation_bp <= PCT_ONE
            && stock_bp + bond_bp + inflation_bp == PCT_ONE
        {
            Ok(Allocations { stock_bp, bond_bp, inflation_bp })
        } else {
            Err(RebalanceError::InvalidAllocation)
        }
    }

    /// Looks the requested retirement year up in an externally supplied
    /// glide-path table and validates the allocation found there.
    pub fn retirement(retirement_year: i32, glide_path: &Vec<GlideEntry>) -> (r: Result<Self, RebalanceError>)
        ensures
            match glide_lookup(glide_path@, retirement_year as int) {
                Some(e) => r == Self::custom_result(e.stock_bp, e.bond_bp, e.inflation_bp),
                None => r == Result::<Self, RebalanceError>::Err(RebalanceError::UnknownRetirementYear),
            },
    {
        let n = glide_path.len();
        let mut i: usize = 0;
        proof {
            assert(glide_path@.skip(0) =~= glide_path@);
        }
        while i < n
            invariant
                i <= n,
                n == glide_path@.len(),
                glide_lookup(glide_path@, retirement_year as int)
                    == glide_lookup(glide_path@.skip(i as int), retirement_year as int),
            decreases n - i,
        {
            let e = glide_path[i];
            if e.retirement_year == retirement_year {
                assert(glide_path@.skip(i as int)[0] == e);
                return Self::custom(e.stock_bp, e.bond_bp, e.inflation_bp);
            }
            proof {
                assert(glide_path@.skip(i as int).drop_first() =~= glide_path@.skip(i + 1));
            }
            i = i + 1;
        }
        Err(RebalanceError::UnknownRetirementYear)
    }

    /// What [`Allocations::custom`] returns, as a spec-level value.
    pub open spec fn custom_result(stock_bp: i64, bond_bp: i64, inflation_bp: i64) -> Result<Self, RebalanceError> {
        if (Allocations { stock_bp, bond_bp, inflation_bp }).valid() {
            Ok(Allocations { stock_bp, bond_bp, inflation_bp })
        } else {
            Err(RebalanceError::InvalidAllocation)
        }
    }
}

/// Per-symbol sub-allocation fractions, as integer numerators over the
/// common denominator [`SUB_DENOM`].
#[derive(Clone, Copy, Debug, PartialEq, Eq, Structural)]
pub struct SubAllocations {
    pub us_stock_large: i64,
    pub us_stock_mid: i64,
    pub us_stock_small: i64,
    pub int_tot_stock: i64,
    pub int_emerging_stock: i64,
    pub us_tot_bond: i64,
    pub us_corp_bond: i64,
    pub int_bond: i64,
    pub inflation_protected: i64,
}

impl SubAllocations {
    /// The decomposition of a percentage triple into the nine per-symbol
    /// numerators over [`SUB_DENOM`].
    pub open spec fn of_allocations(a: Allocations) -> SubAllocations {
        SubAllocations {
            us_stock_large: (2 * a.stock_bp) as i64,
            us_stock_mid: (2 * a.stock_bp) as i64,
            us_stock_small: (2 * a.stock_bp) as i64,
            int_tot_stock: (2 * a.stock_bp) as i64,
            int_emerging_stock: a.stock_bp,
            us_tot_bond: (3 * a.bond_bp) as i64,
            us_corp_bond: (3 * a.bond_bp) as i64,
            int_bond: (3 * a.bond_bp) as i64,
            inflation_protected: (9 * a.inflation_bp) as i64,
        }
    }

    /// The sum of the nine numerators.
    pub open spec fn frac_sum(self) -> int {
        self.us_stock_large + self.us_stock_mid + self.us_stock_small
            + self.int_tot_stock + self.int_emerging_stock
            + self.us_tot_bond + self.us_corp_bond + self.int_bond
            + self.inflation_protected
    }

    /// Each numerator names a fraction no larger than the whole.
    pub open spec fn wf(self) -> bool {
        &&& 0 <= self.us_stock_large <= SUB_DENOM
        &&& 0 <= self.us_stock_mid <= SUB_DENOM
        &&& 0 <= self.us_stock_small <= SUB_DENOM
        &&& 0 <= self.int_tot_stock <= SUB_DENOM
        &&& 0 <= self.int_emerging_stock <= SUB_DENOM
        &&& 0 <= self.us_tot_bond <= SUB_DENOM
        &&& 0 <= self.us_corp_bond <= SUB_DENOM
        &&& 0 <= self.int_bond <= SUB_DENOM
        &&& 0 <= self.inflation_protected <= SUB_DENOM
    }

    /// Decomposes a validated allocation; a triple that does not sum to
    /// 100% is a configuration error.
    pub fn new_custom(allocations: Allocations) -> (r: Result<Self, RebalanceError>)
        ensures
            match r {
                Ok(s) => {
                    &&& allocations.valid()
                    &&& s == Self::of_allocations(allocations)
                    &&& s.wf()
                    &&& s.frac_sum() == SUB_DENOM
                },
                Err(e) => {
                    &&& e == RebalanceError::InvalidAllocation
                    &&& !allocations.valid()
                },
            },
    {
        let Allocations { stock_bp, bond_bp, inflation_bp } = allocations;
        if 0 <= stock_bp && 0 <= bond_bp && 0 <= inflation_bp
            && stock_bp <= PCT_ONE && bond_bp <= PCT_ONE && inflation_bp <= PCT_ONE
            && stock_bp + bond_bp + inflation_bp == PCT_ONE
        {
            proof {
                lemma_sub_allocation_complete(allocations);
            }
            Ok(SubAllocations {
                us_stock_large: 2 * stock_bp,
                us_stock_mid: 2 * stock_bp,
                us_stock_small: 2 * stock_bp,
                int_tot_stock: 2 * stock_bp,
                int_emerging_stock: stock_bp,
                us_tot_bond: 3 * bond_bp,
                us_corp_bond: 3 * bond_bp,
                int_bond: 3 * bond_bp,
                inflation_protected: 9 * inflation_bp,
            })
        } else {
            Err(RebalanceError::InvalidAllocation)
        }
    }

    /// The sub-allocations of the default 60/40 allocation.
    pub fn new() -> (r: Self)
        ensures
            r == Self::of_allocations(Allocations { stock_bp: 6000i64, bond_bp: 4000i64, inflation_bp: 0i64 }),
            r.wf(),
            r.frac_sum() == SUB_DENOM,
    {
        let allocations = Allocations::new();
        match Self::new_custom(allocations) {
            Ok(s) => s,
            Err(_) => {
                proof {
                    assert(false);
                }
                SubAllocations {
                    us_stock_large: 0,
                    us_stock_mid: 0,
                    us_stock_small: 0,
                    int_tot_stock: 0,
                    int_emerging_stock: 0,
                    us_tot_bond: 0,
                    us_corp_bond: 0,
                    int_bond: 0,
                    inflation_protected: 0,
                }
            },
        }
    }
}

/// Split completeness: for every valid percentage triple, the nine
/// sub-allocation fractions sum to exactly one whole —
/// their numerators sum to [`SUB_DENOM`].
pub proof fn lemma_sub_allocation_complete(a: Allocations)
    requires
        a.valid(),
    ensures
        SubAllocations::of_allocations(a).wf(),
        SubAllocations::of_allocations(a).frac_sum() == SUB_DENOM,
{
}

} // verus!
