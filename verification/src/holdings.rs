//! Holdings model: the supported security symbols, the per-symbol value
//! vector [`ShareValues`], and the aggregates built from it.
//!
//! A [`ShareValues`] is a dense mapping from every supported symbol to a
//! fixed-point amount (see [`crate::fixed`]), plus two scalars for stock and
//! bond value held outside the managed accounts.  One and the same shape is
//! used for dollar holdings, per-share quotes and share counts to transact.

use vstd::prelude::*;
use vstd::string::{StrSliceExecFns, StringExecFns};

use crate::asset::SubAllocations;
use crate::fixed::{
    div_nonneg, mul_frac, scaled_div, sdiv_spec, ARITH_LIMIT, FIXED_ONE, PCT_ONE, SUB_DENOM,
    TOTAL_LIMIT, VALUE_LIMIT,
};

verus! {

/// A supported security symbol, or a catch-all for any other ticker.
///
/// `Empty` marks a symbol that has not been set yet; `Other` carries the raw
/// ticker string of an unsupported security, which participates in no
/// allocation arithmetic.
#[derive(Clone, PartialEq, Eq, Hash, Debug)]
pub enum StockSymbol {
    VXUS,
    BNDX,
    VTIP,
    BND,
    VWO,
    VO,
    VB,
    VTC,
    VV,
    VMFXX,
    VTI,
    VTIVX,
    Empty,
    Other(String),
}

/// The supported symbol a ticker string names, if any.
pub open spec fn spec_symbol(s: Seq<char>) -> Option<StockSymbol> {
    if s == "VXUS"@ {
        Some(StockSymbol::VXUS)
    } else if s == "BNDX"@ {
        Some(StockSymbol::BNDX)
    } else if s == "VTIP"@ {
        Some(StockSymbol::VTIP)
    } else if s == "BND"@ {
        Some(StockSymbol::BND)
    } else if s == "VWO"@ {
        Some(StockSymbol::VWO)
    } else if s == "VO"@ {
        Some(StockSymbol::VO)
    } else if s == "VB"@ {
        Some(StockSymbol::VB)
    } else if s == "VTC"@ {
        Some(StockSymbol::VTC)
    } else if s == "VV"@ {
        Some(StockSymbol::VV)
    } else if s == "VMFXX"@ {
        Some(StockSymbol::VMFXX)
    } else if s == "VTI"@ {
        Some(StockSymbol::VTI)
    } else if s == "VTIVX"@ {
        Some(StockSymbol::VTIVX)
    } else {
        None
    }
}

/// Compares two string slices by their character sequences.
fn str_is(a: &str, b: &str) -> (r: bool)
    ensures
        r == (a@ == b@),
{
    let n = a.unicode_len();
    if n != b.unicode_len() {
        return false;
    }
    let mut i: usize = 0;
    while i < n
        invariant
            i <= n,
            n == a@.len(),
            n == b@.len(),
            forall|j: int| 0 <= j < i ==> a@[j] == b@[j],
        decreases n - i,
    {
        if a.get_char(i) != b.get_char(i) {
            return false;
        }
        i = i + 1;
    }
    proof {
        assert(a@ =~= b@);
    }
    true
}

impl StockSymbol {
    /// Whether the symbol takes part in allocation arithmetic.
    pub open spec fn is_supported(self) -> bool {
        !(self matches StockSymbol::Empty) && !(self matches StockSymbol::Other(_))
    }

    /// Creates a symbol from its ticker string; an unrecognised ticker is
    /// kept as `Other` with the raw string.
    pub fn new(symbol: &str) -> (r: Self)
        ensures
            match spec_symbol(symbol@) {
                Some(k) => r == k,
                None => r matches StockSymbol::Other(t) && t@ == symbol@,
            },
    {
        if str_is(symbol, "VXUS") {
            StockSymbol::VXUS
        } else if str_is(symbol, "BNDX") {
            StockSymbol::BNDX
        } else if str_is(symbol, "VTIP") {
            StockSymbol::VTIP
        } else if str_is(symbol, "BND") {
            StockSymbol::BND
        } else if str_is(symbol, "VWO") {
            StockSymbol::VWO
        } else if str_is(symbol, "VO") {
            StockSymbol::VO
        } else if str_is(symbol, "VB") {
            StockSymbol::VB
        } else if str_is(symbol, "VTC") {
            StockSymbol::VTC
        } else if str_is(symbol, "VV") {
            StockSymbol::VV
        } else if str_is(symbol, "VMFXX") {
            StockSymbol::VMFXX
        } else if str_is(symbol, "VTI") {
            StockSymbol::VTI
        } else if str_is(symbol, "VTIVX") {
            StockSymbol::VTIVX
        } else {
            StockSymbol::Other(symbol.to_owned())
        }
    }

    /// The text returned by [`StockSymbol::description`].
    pub open spec fn description_view(self) -> Seq<char> {
        match self {
            StockSymbol::VXUS => "VXUS: Total international stock"@,
            StockSymbol::BNDX => "BNDX: Total international bond"@,
            StockSymbol::VTIP => "VTIP: Inflation protected securities"@,
            StockSymbol::BND => "BND: US total bond"@,
            StockSymbol::VWO => "VWO: Emerging markets stock"@,
            StockSymbol::VO => "VO: US mid cap"@,
            StockSymbol::VB => "VB: US small cap"@,
            StockSymbol::VTC => "VTC: US total corporate bond"@,
            StockSymbol::VV => "VV: US large cap"@,
            StockSymbol::VMFXX => "No description for VMFXX"@,
            StockSymbol::VTI => "VTI: Total domestic stock"@,
            StockSymbol::VTIVX => "VTIVX: 2045 Retirement fund"@,
            StockSymbol::Empty => "No description for Empty"@,
            StockSymbol::Other(t) => "No description for Other(\""@ + t@ + "\")"@,
        }
    }

    /// An owned duplicate of a supported symbol; `None` for `Empty` and
    /// `Other`, whose values take no part in allocation arithmetic.
    pub fn supported_copy(&self) -> (r: Option<StockSymbol>)
        ensures
            match r {
                Some(s) => s == *self && self.is_supported(),
                None => !self.is_supported(),
            },
    {
        match self {
            StockSymbol::VXUS => Some(StockSymbol::VXUS),
            StockSymbol::BNDX => Some(StockSymbol::BNDX),
            StockSymbol::VTIP => Some(StockSymbol::VTIP),
            StockSymbol::BND => Some(StockSymbol::BND),
            StockSymbol::VWO => Some(StockSymbol::VWO),
            StockSymbol::VO => Some(StockSymbol::VO),
            StockSymbol::VB => Some(StockSymbol::VB),
            StockSymbol::VTC => Some(StockSymbol::VTC),
            StockSymbol::VV => Some(StockSymbol::VV),
            StockSymbol::VMFXX => Some(StockSymbol::VMFXX),
            StockSymbol::VTI => Some(StockSymbol::VTI),
            StockSymbol::VTIVX => Some(StockSymbol::VTIVX),
            StockSymbol::Empty => None,
            StockSymbol::Other(_) => None,
        }
    }

    /// A line describing the symbol, or a note that it has no description.
    pub fn description(&self) -> (r: String)
        ensures
            r@ == self.description_view(),
    {
        match self {
            StockSymbol::VXUS => "VXUS: Total international stock".to_owned(),
            StockSymbol::BNDX => "BNDX: Total international bond".to_owned(),
            StockSymbol::VTIP => "VTIP: Inflation protected securities".to_owned(),
            StockSymbol::BND => "BND: US total bond".to_owned(),
            StockSymbol::VWO => "VWO: Emerging markets stock".to_owned(),
            StockSymbol::VO => "VO: US mid cap".to_owned(),
            StockSymbol::VB => "VB: US small cap".to_owned(),
            StockSymbol::VTC => "VTC: US total corporate bond".to_owned(),
            StockSymbol::VV => "VV: US large cap".to_owned(),
            StockSymbol::VMFXX => "No description for VMFXX".to_owned(),
            StockSymbol::VTI => "VTI: Total domestic stock".to_owned(),
            StockSymbol::VTIVX => "VTIVX: 2045 Retirement fund".to_owned(),
            StockSymbol::Empty => "No description for Empty".to_owned(),
            StockSymbol::Other(t) => {
                let mut r = "No description for Other(\"".to_owned();
                r.append(t.as_str());
                r.append("\")");
                r
            },
        }
    }
}

/// The text returned by [`all_stock_descriptions`]: every supported symbol's
/// description, one per line.
pub open spec fn all_descriptions_view() -> Seq<char> {
    StockSymbol::VV.description_view() + "\n"@ + StockSymbol::VO.description_view() + "\n"@
        + StockSymbol::VB.description_view() + "\n"@ + StockSymbol::VTC.description_view() + "\n"@
        + StockSymbol::BND.description_view() + "\n"@ + StockSymbol::VXUS.description_view()
        + "\n"@ + StockSymbol::VWO.description_view() + "\n"@
        + StockSymbol::BNDX.description_view() + "\n"@ + StockSymbol::VTIP.description_view()
        + "\n"@ + StockSymbol::VTI.description_view() + "\n"@
        + StockSymbol::VTIVX.description_view()
}

/// The descriptions of all supported symbols, separated by newlines.
pub fn all_stock_descriptions() -> (r: String)
    ensures
        r@ == all_descriptions_view(),
{
    let mut r = StockSymbol::VV.description();
    let mut d: String;
    r.append("\n");
    d = StockSymbol::VO.description();
    r.append(d.as_str());
    r.append("\n");
    d = StockSymbol::VB.description();
    r.append(d.as_str());
    r.append("\n");
    d = StockSymbol::VTC.description();
    r.append(d.as_str());
    r.append("\n");
    d = StockSymbol::BND.description();
    r.append(d.as_str());
    r.append("\n");
    d = StockSymbol::VXUS.description();
    r.append(d.as_str());
    r.append("\n");
    d = StockSymbol::VWO.description();
    r.append(d.as_str());
    r.append("\n");
    d = StockSymbol::BNDX.description();
    r.append(d.as_str());
    r.append("\n");
    d = StockSymbol::VTIP.description();
    r.append(d.as_str());
    r.append("\n");
    d = StockSymbol::VTI.description();
    r.append(d.as_str());
    r.append("\n");
    d = StockSymbol::VTIVX.description();
    r.append(d.as_str());
    proof {
        assert(r@ =~= all_descriptions_view());
    }
    r
}

/// One row of the holdings section of a brokerage report, gathered field by
/// field while parsing.
#[derive(Clone, Debug)]
pub struct StockInfo {
    pub account_number: u32,
    pub symbol: StockSymbol,
    pub share_price: i64,
    pub shares: i64,
    pub total_value: i64,
    pub account_added: bool,
    pub symbol_added: bool,
    pub share_price_added: bool,
    pub shares_added: bool,
    pub total_value_added: bool,
}

impl StockInfo {
    /// An empty row: no field has been added yet.
    pub open spec fn empty_spec() -> StockInfo {
        StockInfo {
            account_number: 0u32,
            symbol: StockSymbol::Empty,
            share_price: 0i64,
            shares: 0i64,
            total_value: 0i64,
            account_added: false,
            symbol_added: false,
            share_price_added: false,
            shares_added: false,
            total_value_added: false,
        }
    }

    /// Starts an empty row.
    pub fn new() -> (r: Self)
        ensures
            r == Self::empty_spec(),
    {
        StockInfo {
            account_number: 0,
            symbol: StockSymbol::Empty,
            share_price: 0,
            shares: 0,
            total_value: 0,
            account_added: false,
            symbol_added: false,
            share_price_added: false,
            shares_added: false,
            total_value_added: false,
        }
    }

    /// Records the account number of the row.
    pub fn add_account(&mut self, account_number: u32)
        ensures
            *final(self) == (StockInfo { account_number, account_added: true, ..*old(self) }),
    {
        self.account_number = account_number;
        self.account_added = true;
    }

    /// Records the symbol of the row.
    pub fn add_symbol(&mut self, symbol: StockSymbol)
        ensures
            *final(self) == (StockInfo { symbol, symbol_added: true, ..*old(self) }),
    {
        self.symbol = symbol;
        self.symbol_added = true;
    }

    /// Records the per-share price of the row.
    pub fn add_share_price(&mut self, share_price: i64)
        ensures
            *final(self) == (StockInfo { share_price, share_price_added: true, ..*old(self) }),
    {
        self.share_price = share_price;
        self.share_price_added = true;
    }

    /// Records the share count of the row.
    pub fn add_shares(&mut self, share_num: i64)
        ensures
            *final(self) == (StockInfo { shares: share_num, shares_added: true, ..*old(self) }),
    {
        self.shares = share_num;
        self.shares_added = true;
    }

    /// Records the total dollar value of the row.
    pub fn add_total_value(&mut self, total_value: i64)
        ensures
            *final(self) == (StockInfo { total_value, total_value_added: true, ..*old(self) }),
    {
        self.total_value = total_value;
        self.total_value_added = true;
    }

    /// Whether every field of the row has been added.
    pub fn finished(&self) -> (r: bool)
        ensures
            r == (self.account_added && self.symbol_added && self.share_price_added
                && self.shares_added && self.total_value_added),
    {
        self.account_added && self.symbol_added && self.share_price_added && self.shares_added
            && self.total_value_added
    }
}

impl Default for StockInfo {
    /// Same as [`StockInfo::new`].
    fn default() -> (r: Self)
        ensures
            r == Self::empty_spec(),
    {
        Self::new()
    }
}

/// Whether a [`StockInfo`] row feeds a quote vector or a holdings vector.
#[derive(Clone, Copy, Debug)]
pub enum AddType {
    StockPrice,
    HoldingValue,
}

/// A calendar date of a recorded transaction.
#[derive(Clone, Copy, Debug, PartialEq, Eq, Structural)]
pub struct TradeDate {
    pub year: i32,
    pub month: u8,
    pub day: u8,
}

impl TradeDate {
    /// Strictly-later comparison of two dates.
    pub open spec fn after_spec(self, other: TradeDate) -> bool {
        ||| self.year > other.year
        ||| (self.year == other.year && self.month > other.month)
        ||| (self.year == other.year && self.month == other.month && self.day > other.day)
    }

    /// Whether `self` falls strictly after `other`.
    pub fn is_after(&self, other: &TradeDate) -> (r: bool)
        ensures
            r == self.after_spec(*other),
    {
        self.year > other.year || (self.year == other.year && self.month > other.month) || (
        self.year == other.year && self.month == other.month && self.day > other.day)
    }
}

/// One transaction from the report: a share-count delta on one symbol at a
/// date, used only for end-of-year value reconstruction.
#[derive(Clone, Debug, PartialEq, Eq)]
pub struct Transaction {
    pub account_number: u32,
    pub trade_date: TradeDate,
    pub symbol: StockSymbol,
    pub shares: i64,
}

/// Fixed-point values for every supported symbol plus the two outside-value
/// scalars.  Depending on use it holds dollar amounts, per-share quotes or
/// share counts.
#[derive(Clone, Copy, Debug, PartialEq, Eq, Structural)]
pub struct ShareValues {
    pub vxus: i64,
    pub bndx: i64,
    pub bnd: i64,
    pub vwo: i64,
    pub vo: i64,
    pub vb: i64,
    pub vtc: i64,
    pub vv: i64,
    pub vtip: i64,
    pub vti: i64,
    pub vtivx: i64,
    pub vmfxx: i64,
    pub outside_bond: i64,
    pub outside_stock: i64,
}

impl ShareValues {
    /// The all-zero vector.
    pub open spec fn zero() -> ShareValues {
        ShareValues {
            vxus: 0i64,
            bndx: 0i64,
            bnd: 0i64,
            vwo: 0i64,
            vo: 0i64,
            vb: 0i64,
            vtc: 0i64,
            vv: 0i64,
            vtip: 0i64,
            vti: 0i64,
            vtivx: 0i64,
            vmfxx: 0i64,
            outside_bond: 0i64,
            outside_stock: 0i64,
        }
    }

    /// The default quote vector: one dollar for every field, so that a
    /// missing quote never divides by zero and a dollar delta divided by it
    /// reads back as a dollar amount.
    pub open spec fn quote_default() -> ShareValues {
        ShareValues {
            vxus: FIXED_ONE,
            bndx: FIXED_ONE,
            bnd: FIXED_ONE,
            vwo: FIXED_ONE,
            vo: FIXED_ONE,
            vb: FIXED_ONE,
            vtc: FIXED_ONE,
            vv: FIXED_ONE,
            vtip: FIXED_ONE,
            vti: FIXED_ONE,
            vtivx: FIXED_ONE,
            vmfxx: FIXED_ONE,
            outside_bond: FIXED_ONE,
            outside_stock: FIXED_ONE,
        }
    }

    /// Every field lies within `k` of zero.
    pub open spec fn bounded(self, k: int) -> bool {
        &&& -k <= self.vxus <= k
        &&& -k <= self.bndx <= k
        &&& -k <= self.bnd <= k
        &&& -k <= self.vwo <= k
        &&& -k <= self.vo <= k
        &&& -k <= self.vb <= k
        &&& -k <= self.vtc <= k
        &&& -k <= self.vv <= k
        &&& -k <= self.vtip <= k
        &&& -k <= self.vti <= k
        &&& -k <= self.vtivx <= k
        &&& -k <= self.vmfxx <= k
        &&& -k <= self.outside_bond <= k
        &&& -k <= self.outside_stock <= k
    }

    /// Every field is nonnegative.
    pub open spec fn nonneg(self) -> bool {
        &&& 0 <= self.vxus
        &&& 0 <= self.bndx
        &&& 0 <= self.bnd
        &&& 0 <= self.vwo
        &&& 0 <= self.vo
        &&& 0 <= self.vb
        &&& 0 <= self.vtc
        &&& 0 <= self.vv
        &&& 0 <= self.vtip
        &&& 0 <= self.vti
        &&& 0 <= self.vtivx
        &&& 0 <= self.vmfxx
        &&& 0 <= self.outside_bond
        &&& 0 <= self.outside_stock
    }

    /// Every field is at least one: a usable quote vector.
    pub open spec fn positive(self) -> bool {
        &&& 1 <= self.vxus
        &&& 1 <= self.bndx
        &&& 1 <= self.bnd
        &&& 1 <= self.vwo
        &&& 1 <= self.vo
        &&& 1 <= self.vb
        &&& 1 <= self.vtc
        &&& 1 <= self.vv
        &&& 1 <= self.vtip
        &&& 1 <= self.vti
        &&& 1 <= self.vtivx
        &&& 1 <= self.vmfxx
        &&& 1 <= self.outside_bond
        &&& 1 <= self.outside_stock
    }

    /// The sum of the twelve symbol fields; the outside scalars are not part
    /// of the total.
    pub open spec fn total_spec(self) -> int {
        self.vxus + self.bndx + self.bnd + self.vwo + self.vo + self.vb + self.vtc + self.vv
            + self.vmfxx + self.vtip + self.vti + self.vtivx
    }

    /// The field a supported symbol names; zero for `Empty` and `Other`.
    pub open spec fn value_of(self, sym: StockSymbol) -> int {
        match sym {
            StockSymbol::VXUS => self.vxus as int,
            StockSymbol::BNDX => self.bndx as int,
            StockSymbol::VTIP => self.vtip as int,
            StockSymbol::VTI => self.vti as int,
            StockSymbol::VTIVX => self.vtivx as int,
            StockSymbol::BND => self.bnd as int,
            StockSymbol::VWO => self.vwo as int,
            StockSymbol::VO => self.vo as int,
            StockSymbol::VB => self.vb as int,
            StockSymbol::VTC => self.vtc as int,
            StockSymbol::VV => self.vv as int,
            StockSymbol::VMFXX => self.vmfxx as int,
            StockSymbol::Empty => 0,
            StockSymbol::Other(_) => 0,
        }
    }

    /// The vector with the field of a supported symbol replaced by `v`;
    /// unchanged for `Empty` and `Other`.
    pub open spec fn updated(self, sym: StockSymbol, v: i64) -> ShareValues {
        match sym {
            StockSymbol::VXUS => ShareValues { vxus: v, ..self },
            StockSymbol::BNDX => ShareValues { bndx: v, ..self },
            StockSymbol::VTIP => ShareValues { vtip: v, ..self },
            StockSymbol::VTI => ShareValues { vti: v, ..self },
            StockSymbol::VTIVX => ShareValues { vtivx: v, ..self },
            StockSymbol::BND => ShareValues { bnd: v, ..self },
            StockSymbol::VWO => ShareValues { vwo: v, ..self },
            StockSymbol::VO => ShareValues { vo: v, ..self },
            StockSymbol::VB => ShareValues { vb: v, ..self },
            StockSymbol::VTC => ShareValues { vtc: v, ..self },
            StockSymbol::VV => ShareValues { vv: v, ..self },
            StockSymbol::VMFXX => ShareValues { vmfxx: v, ..self },
            StockSymbol::Empty => self,
            StockSymbol::Other(_) => self,
        }
    }

    /// The elementwise sum of two vectors.
    pub open spec fn add_spec(self, other: ShareValues) -> ShareValues {
        ShareValues {
            vxus: (self.vxus + other.vxus) as i64,
            bndx: (self.bndx + other.bndx) as i64,
            bnd: (self.bnd + other.bnd) as i64,
            vwo: (self.vwo + other.vwo) as i64,
            vo: (self.vo + other.vo) as i64,
            vb: (self.vb + other.vb) as i64,
            vtc: (self.vtc + other.vtc) as i64,
            vv: (self.vv + other.vv) as i64,
            vtip: (self.vtip + other.vtip) as i64,
            vti: (self.vti + other.vti) as i64,
            vtivx: (self.vtivx + other.vtivx) as i64,
            vmfxx: (self.vmfxx + other.vmfxx) as i64,
            outside_bond: (self.outside_bond + other.outside_bond) as i64,
            outside_stock: (self.outside_stock + other.outside_stock) as i64,
        }
    }

    /// The elementwise difference of two vectors.
    pub open spec fn sub_spec(self, other: ShareValues) -> ShareValues {
        ShareValues {
            vxus: (self.vxus - other.vxus) as i64,
            bndx: (self.bndx - other.bndx) as i64,
            bnd: (self.bnd - other.bnd) as i64,
            vwo: (self.vwo - other.vwo) as i64,
            vo: (self.vo - other.vo) as i64,
            vb: (self.vb - other.vb) as i64,
            vtc: (self.vtc - other.vtc) as i64,
            vv: (self.vv - other.vv) as i64,
            vtip: (self.vtip - other.vtip) as i64,
            vti: (self.vti - other.vti) as i64,
            vtivx: (self.vtivx - other.vtivx) as i64,
            vmfxx: (self.vmfxx - other.vmfxx) as i64,
            outside_bond: (self.outside_bond - other.outside_bond) as i64,
            outside_stock: (self.outside_stock - other.outside_stock) as i64,
        }
    }

    /// The elementwise fixed-point quotient of two vectors.
    pub open spec fn div_spec(self, quotes: ShareValues) -> ShareValues {
        ShareValues {
            vxus: sdiv_spec(self.vxus as int, quotes.vxus as int) as i64,
            bndx: sdiv_spec(self.bndx as int, quotes.bndx as int) as i64,
            bnd: sdiv_spec(self.bnd as int, quotes.bnd as int) as i64,
            vwo: sdiv_spec(self.vwo as int, quotes.vwo as int) as i64,
            vo: sdiv_spec(self.vo as int, quotes.vo as int) as i64,
            vb: sdiv_spec(self.vb as int, quotes.vb as int) as i64,
            vtc: sdiv_spec(self.vtc as int, quotes.vtc as int) as i64,
            vv: sdiv_spec(self.vv as int, quotes.vv as int) as i64,
            vtip: sdiv_spec(self.vtip as int, quotes.vtip as int) as i64,
            vti: sdiv_spec(self.vti as int, quotes.vti as int) as i64,
            vtivx: sdiv_spec(self.vtivx as int, quotes.vtivx as int) as i64,
            vmfxx: sdiv_spec(self.vmfxx as int, quotes.vmfxx as int) as i64,
            outside_bond: sdiv_spec(self.outside_bond as int, quotes.outside_bond as int) as i64,
            outside_stock: sdiv_spec(self.outside_stock as int, quotes.outside_stock as int) as i64,
        }
    }

    /// A fresh all-zero vector, the starting point for account holdings.
    pub fn new() -> (r: Self)
        ensures
            r == Self::zero(),
    {
        ShareValues {
            vxus: 0,
            bndx: 0,
            bnd: 0,
            vwo: 0,
            vo: 0,
            vb: 0,
            vtc: 0,
            vv: 0,
            vtip: 0,
            vti: 0,
            vtivx: 0,
            vmfxx: 0,
            outside_bond: 0,
            outside_stock: 0,
        }
    }

    /// A fresh quote vector with every field set to one dollar.
    pub fn new_quote() -> (r: Self)
        ensures
            r == Self::quote_default(),
            r.positive(),
    {
        ShareValues {
            vxus: FIXED_ONE,
            bndx: FIXED_ONE,
            bnd: FIXED_ONE,
            vwo: FIXED_ONE,
            vo: FIXED_ONE,
            vb: FIXED_ONE,
            vtc: FIXED_ONE,
            vv: FIXED_ONE,
            vtip: FIXED_ONE,
            vti: FIXED_ONE,
            vtivx: FIXED_ONE,
            vmfxx: FIXED_ONE,
            outside_bond: FIXED_ONE,
            outside_stock: FIXED_ONE,
        }
    }

    /// Replaces the value recorded for a supported symbol; an `Other`
    /// symbol is ignored.
    pub fn add_stock_value(&mut self, stock_symbol: StockSymbol, value: i64)
        requires
            !(stock_symbol matches StockSymbol::Empty),
        ensures
            *final(self) == (*old(self)).updated(stock_symbol, value),
    {
        match stock_symbol {
            StockSymbol::VXUS => self.vxus = value,
            StockSymbol::BNDX => self.bndx = value,
            StockSymbol::VTIP => self.vtip = value,
            StockSymbol::VTI => self.vti = value,
            StockSymbol::VTIVX => self.vtivx = value,
            StockSymbol::BND => self.bnd = value,
            StockSymbol::VWO => self.vwo = value,
            StockSymbol::VO => self.vo = value,
            StockSymbol::VB => self.vb = value,
            StockSymbol::VTC => self.vtc = value,
            StockSymbol::VV => self.vv = value,
            StockSymbol::VMFXX => self.vmfxx = value,
            StockSymbol::Empty => {},
            StockSymbol::Other(_) => {},
        }
    }

    /// Replaces the value for the symbol of a parsed report row, taking the
    /// share price or the total value depending on `add_type`.
    pub fn add_stockinfo_value(&mut self, stock_info: StockInfo, add_type: AddType)
        requires
            !(stock_info.symbol matches StockSymbol::Empty),
        ensures
            *final(self) == (*old(self)).updated(
                stock_info.symbol,
                match add_type {
                    AddType::StockPrice => stock_info.share_price,
                    AddType::HoldingValue => stock_info.total_value,
                },
            ),
    {
        let value = match add_type {
            AddType::StockPrice => stock_info.share_price,
            AddType::HoldingValue => stock_info.total_value,
        };
        self.add_stock_value(stock_info.symbol, value);
    }

    /// Sets the stock value held outside the managed accounts.
    pub fn add_outside_stock_value(&mut self, stock_value: i64)
        ensures
            *final(self) == (ShareValues { outside_stock: stock_value, ..*old(self) }),
    {
        self.outside_stock = stock_value;
    }

    /// The stock value held outside the managed accounts.
    pub fn outside_stock_value(&self) -> (r: i64)
        ensures
            r == self.outside_stock,
    {
        self.outside_stock
    }

    /// Sets the bond value held outside the managed accounts.
    pub fn add_outside_bond_value(&mut self, bond_value: i64)
        ensures
            *final(self) == (ShareValues { outside_bond: bond_value, ..*old(self) }),
    {
        self.outside_bond = bond_value;
    }

    /// The bond value held outside the managed accounts.
    pub fn outside_bond_value(&self) -> (r: i64)
        ensures
            r == self.outside_bond,
    {
        self.outside_bond
    }

    /// The value recorded for a supported symbol.
    pub fn stock_value(&self, stock_symbol: StockSymbol) -> (r: i64)
        requires
            stock_symbol.is_supported(),
        ensures
            r == self.value_of(stock_symbol),
    {
        match stock_symbol {
            StockSymbol::VXUS => self.vxus,
            StockSymbol::BNDX => self.bndx,
            StockSymbol::VTIP => self.vtip,
            StockSymbol::VTI => self.vti,
            StockSymbol::VTIVX => self.vtivx,
            StockSymbol::BND => self.bnd,
            StockSymbol::VWO => self.vwo,
            StockSymbol::VO => self.vo,
            StockSymbol::VB => self.vb,
            StockSymbol::VTC => self.vtc,
            StockSymbol::VV => self.vv,
            StockSymbol::VMFXX => self.vmfxx,
            StockSymbol::Empty => 0,
            StockSymbol::Other(_) => 0,
        }
    }

    /// The sum of all twelve symbol fields.
    pub fn total_value(&self) -> (r: i64)
        requires
            self.bounded(ARITH_LIMIT as int),
        ensures
            r == self.total_spec(),
    {
        self.vxus + self.bndx + self.bnd + self.vwo + self.vo + self.vb + self.vtc + self.vv
            + self.vmfxx + self.vtip + self.vti + self.vtivx
    }

    /// The stock-class value: the five equity symbols plus outside stock.
    pub open spec fn stock_class_spec(self) -> int {
        self.vwo + self.vo + self.vb + self.vv + self.vxus + self.outside_stock
    }

    /// The bond-class value: the three bond symbols plus outside bond.
    pub open spec fn bond_class_spec(self) -> int {
        self.bndx + self.bnd + self.vtc + self.outside_bond
    }

    /// The denominator of the class-ratio computation: everything except
    /// cash, with the outside values counted in.
    pub open spec fn ratio_denom_spec(self) -> int {
        self.total_spec() - self.vmfxx + self.outside_bond + self.outside_stock
    }

    /// Class ratios are computed only over a vector of nonnegative dollar
    /// values with something besides cash in it.
    pub open spec fn percentable(self) -> bool {
        self.nonneg() && self.bounded(VALUE_LIMIT as int) && self.ratio_denom_spec() > 0
    }

    /// The percent of stock-class, bond-class and inflation-protected value,
    /// in basis points, excluding cash from the denominator.  A vector with
    /// no non-cash value (or one holding negative or oversized entries,
    /// which no dollar holding produces) yields all zeros rather than a
    /// division by zero.
    pub fn percent_stock_bond_infl(&self) -> (r: (i64, i64, i64))
        requires
            self.bounded(ARITH_LIMIT as int),
        ensures
            self.percentable() ==> r == (
                (self.stock_class_spec() * PCT_ONE / self.ratio_denom_spec()) as i64,
                (self.bond_class_spec() * PCT_ONE / self.ratio_denom_spec()) as i64,
                (self.vtip * PCT_ONE / self.ratio_denom_spec()) as i64,
            ),
            !self.percentable() ==> r == (0i64, 0i64, 0i64),
    {
        let in_range = self.vxus >= 0 && self.bndx >= 0 && self.bnd >= 0 && self.vwo >= 0
            && self.vo >= 0 && self.vb >= 0 && self.vtc >= 0 && self.vv >= 0 && self.vtip >= 0
            && self.vti >= 0 && self.vtivx >= 0 && self.vmfxx >= 0 && self.outside_bond >= 0
            && self.outside_stock >= 0 && self.vxus <= VALUE_LIMIT && self.bndx <= VALUE_LIMIT
            && self.bnd <= VALUE_LIMIT && self.vwo <= VALUE_LIMIT && self.vo <= VALUE_LIMIT
            && self.vb <= VALUE_LIMIT && self.vtc <= VALUE_LIMIT && self.vv <= VALUE_LIMIT
            && self.vtip <= VALUE_LIMIT && self.vti <= VALUE_LIMIT && self.vtivx <= VALUE_LIMIT
            && self.vmfxx <= VALUE_LIMIT && self.outside_bond <= VALUE_LIMIT
            && self.outside_stock <= VALUE_LIMIT;
        if !in_range {
            return (0, 0, 0);
        }
        let total_bond = self.bndx + self.bnd + self.vtc + self.outside_bond;
        let total_stock = self.vwo + self.vo + self.vb + self.vv + self.vxus + self.outside_stock;
        let denom = self.total_value() - self.vmfxx + self.outside_bond + self.outside_stock;
        if denom <= 0 {
            return (0, 0, 0);
        }
        proof {
            vstd::arithmetic::div_mod::lemma_div_nonincreasing(
                self.stock_class_spec() * PCT_ONE,
                self.ratio_denom_spec(),
            );
            vstd::arithmetic::div_mod::lemma_div_nonincreasing(
                self.bond_class_spec() * PCT_ONE,
                self.ratio_denom_spec(),
            );
            vstd::arithmetic::div_mod::lemma_div_nonincreasing(
                self.vtip * PCT_ONE,
                self.ratio_denom_spec(),
            );
            vstd::arithmetic::div_mod::lemma_div_pos_is_pos(
                self.stock_class_spec() * PCT_ONE,
                self.ratio_denom_spec(),
            );
            vstd::arithmetic::div_mod::lemma_div_pos_is_pos(
                self.bond_class_spec() * PCT_ONE,
                self.ratio_denom_spec(),
            );
            vstd::arithmetic::div_mod::lemma_div_pos_is_pos(
                self.vtip * PCT_ONE,
                self.ratio_denom_spec(),
            );
        }
        let stock_pct = ((total_stock as u64 * PCT_ONE as u64) / denom as u64) as i64;
        let bond_pct = ((total_bond as u64 * PCT_ONE as u64) / denom as u64) as i64;
        let infl_pct = ((self.vtip as u64 * PCT_ONE as u64) / denom as u64) as i64;
        (stock_pct, bond_pct, infl_pct)
    }

    /// The target vector for a pooled total under the given sub-allocation
    /// fractions, with value held outside the accounts netted out of the
    /// matching classes: outside US stock is spread over the three US
    /// equity tranches, outside international stock over the two
    /// international tranches (two thirds total, one third emerging),
    /// outside US bond over the two US bond tranches, and outside
    /// international bond against the international bond tranche.  The cash
    /// target is always zero.
    #[verifier::opaque]
    pub open spec fn target_spec(
        subs: SubAllocations,
        total_vanguard_value: int,
        other_us_stock: int,
        other_us_bond: int,
        other_int_stock: int,
        other_int_bond: int,
    ) -> ShareValues {
        let total = total_vanguard_value + other_us_stock + other_us_bond + other_int_bond
            + other_int_stock;
        let d = SUB_DENOM as int;
        ShareValues {
            vxus: (total * subs.int_tot_stock / d - other_int_stock * 2 / 3) as i64,
            bndx: (total * subs.int_bond / d - other_int_bond) as i64,
            bnd: (total * subs.us_tot_bond / d - other_us_bond / 2) as i64,
            vwo: (total * subs.int_emerging_stock / d - other_int_stock / 3) as i64,
            vo: (total * subs.us_stock_mid / d - other_us_stock / 3) as i64,
            vb: (total * subs.us_stock_small / d - other_us_stock / 3) as i64,
            vtc: (total * subs.us_corp_bond / d - other_us_bond / 2) as i64,
            vv: (total * subs.us_stock_large / d - other_us_stock / 3) as i64,
            vtip: (total * subs.inflation_protected / d) as i64,
            vti: 0i64,
            vtivx: 0i64,
            vmfxx: 0i64,
            outside_bond: (other_int_bond + other_us_bond) as i64,
            outside_stock: (other_us_stock + other_int_stock) as i64,
        }
    }

    /// Builds the target holdings for a pooled total: each symbol gets its
    /// sub-allocation fraction of the total, less the outside value already
    /// counted toward its class.
    pub fn new_target(
        sub_allocations: SubAllocations,
        total_vanguard_value: i64,
        other_us_stock_value: i64,
        other_us_bond_value: i64,
        other_int_stock_value: i64,
        other_int_bond_value: i64,
    ) -> (r: Self)
        requires
            sub_allocations.wf(),
            0 <= total_vanguard_value,
            0 <= other_us_stock_value,
            0 <= other_us_bond_value,
            0 <= other_int_stock_value,
            0 <= other_int_bond_value,
            total_vanguard_value + other_us_stock_value + other_us_bond_value
                + other_int_stock_value + other_int_bond_value <= TOTAL_LIMIT,
        ensures
            r == Self::target_spec(
                sub_allocations,
                total_vanguard_value as int,
                other_us_stock_value as int,
                other_us_bond_value as int,
                other_int_stock_value as int,
                other_int_bond_value as int,
            ),
            r.bounded(TOTAL_LIMIT as int),
    {
        proof {
            reveal(ShareValues::target_spec);
        }
        let total_value = total_vanguard_value + other_us_stock_value + other_us_bond_value
            + other_int_bond_value + other_int_stock_value;

        let vxus_value = mul_frac(total_value, sub_allocations.int_tot_stock) - div_nonneg(
            other_int_stock_value * 2,
            3,
        );
        let bndx_value = mul_frac(total_value, sub_allocations.int_bond) - other_int_bond_value;
        let bnd_value = mul_frac(total_value, sub_allocations.us_tot_bond) - div_nonneg(
            other_us_bond_value,
            2,
        );
        let vwo_value = mul_frac(total_value, sub_allocations.int_emerging_stock) - div_nonneg(
            other_int_stock_value,
            3,
        );
        let vo_value = mul_frac(total_value, sub_allocations.us_stock_mid) - div_nonneg(
            other_us_stock_value,
            3,
        );
        let vb_value = mul_frac(total_value, sub_allocations.us_stock_small) - div_nonneg(
            other_us_stock_value,
            3,
        );
        let vtc_value = mul_frac(total_value, sub_allocations.us_corp_bond) - div_nonneg(
            other_us_bond_value,
            2,
        );
        let vv_value = mul_frac(total_value, sub_allocations.us_stock_large) - div_nonneg(
            other_us_stock_value,
            3,
        );
        let vtip_value = mul_frac(total_value, sub_allocations.inflation_protected);

        ShareValues {
            vxus: vxus_value,
            bndx: bndx_value,
            bnd: bnd_value,
            vwo: vwo_value,
            vo: vo_value,
            vb: vb_value,
            vtc: vtc_value,
            vv: vv_value,
            vtip: vtip_value,
            vti: 0,
            vtivx: 0,
            vmfxx: 0,
            outside_bond: other_int_bond_value + other_us_bond_value,
            outside_stock: other_us_stock_value + other_int_stock_value,
        }
    }

    /// The elementwise sum of `self` and `other`.
    pub fn add(self, other: ShareValues) -> (r: ShareValues)
        requires
            self.bounded(ARITH_LIMIT as int),
            other.bounded(ARITH_LIMIT as int),
        ensures
            r == self.add_spec(other),
    {
        ShareValues {
            vxus: self.vxus + other.vxus,
            bndx: self.bndx + other.bndx,
            bnd: self.bnd + other.bnd,
            vwo: self.vwo + other.vwo,
            vo: self.vo + other.vo,
            vb: self.vb + other.vb,
            vtc: self.vtc + other.vtc,
            vv: self.vv + other.vv,
            vtip: self.vtip + other.vtip,
            vti: self.vti + other.vti,
            vtivx: self.vtivx + other.vtivx,
            vmfxx: self.vmfxx + other.vmfxx,
            outside_bond: self.outside_bond + other.outside_bond,
            outside_stock: self.outside_stock + other.outside_stock,
        }
    }

    /// The elementwise difference of `self` and `other`.
    pub fn subtract(self, other: ShareValues) -> (r: ShareValues)
        requires
            self.bounded(ARITH_LIMIT as int),
            other.bounded(ARITH_LIMIT as int),
        ensures
            r == self.sub_spec(other),
    {
        ShareValues {
            vxus: self.vxus - other.vxus,
            bndx: self.bndx - other.bndx,
            bnd: self.bnd - other.bnd,
            vwo: self.vwo - other.vwo,
            vo: self.vo - other.vo,
            vb: self.vb - other.vb,
            vtc: self.vtc - other.vtc,
            vv: self.vv - other.vv,
            vtip: self.vtip - other.vtip,
            vti: self.vti - other.vti,
            vtivx: self.vtivx - other.vtivx,
            vmfxx: self.vmfxx - other.vmfxx,
            outside_bond: self.outside_bond - other.outside_bond,
            outside_stock: self.outside_stock - other.outside_stock,
        }
    }

    /// The elementwise fixed-point quotient of `self` by a positive quote
    /// vector: the share counts the dollar amounts in `self` stand for.
    pub fn divide(self, quotes: ShareValues) -> (r: ShareValues)
        requires
            self.bounded(2 * ARITH_LIMIT as int),
            quotes.positive(),
        ensures
            r == self.div_spec(quotes),
    {
        ShareValues {
            vxus: scaled_div(self.vxus, quotes.vxus),
            bndx: scaled_div(self.bndx, quotes.bndx),
            bnd: scaled_div(self.bnd, quotes.bnd),
            vwo: scaled_div(self.vwo, quotes.vwo),
            vo: scaled_div(self.vo, quotes.vo),
            vb: scaled_div(self.vb, quotes.vb),
            vtc: scaled_div(self.vtc, quotes.vtc),
            vv: scaled_div(self.vv, quotes.vv),
            vtip: scaled_div(self.vtip, quotes.vtip),
            vti: scaled_div(self.vti, quotes.vti),
            vtivx: scaled_div(self.vtivx, quotes.vtivx),
            vmfxx: scaled_div(self.vmfxx, quotes.vmfxx),
            outside_bond: scaled_div(self.outside_bond, quotes.outside_bond),
            outside_stock: scaled_div(self.outside_stock, quotes.outside_stock),
        }
    }
}

impl Default for ShareValues {
    /// Same as [`ShareValues::new`].
    fn default() -> (r: Self)
        ensures
            r == Self::zero(),
    {
        Self::new()
    }
}

/// Idempotence of the vector arithmetic: adding and then subtracting the
/// same vector returns the original values exactly.
pub proof fn lemma_add_subtract_identity(a: ShareValues, b: ShareValues)
    requires
        a.bounded(ARITH_LIMIT as int),
        b.bounded(ARITH_LIMIT as int),
    ensures
        a.add_spec(b).sub_spec(b) == a,
{
}

/// Zero-quote safety: the default quote vector holds one whole unit in
/// every field — a division by it never divides by zero — and dividing any
/// vector of dollar amounts by it returns those amounts unchanged.
pub proof fn lemma_default_quote_division(v: ShareValues)
    ensures
        ShareValues::quote_default().positive(),
        v.div_spec(ShareValues::quote_default()) == v,
{
    crate::fixed::lemma_sdiv_by_one_unit(v.vxus as int);
    crate::fixed::lemma_sdiv_by_one_unit(v.bndx as int);
    crate::fixed::lemma_sdiv_by_one_unit(v.bnd as int);
    crate::fixed::lemma_sdiv_by_one_unit(v.vwo as int);
    crate::fixed::lemma_sdiv_by_one_unit(v.vo as int);
    crate::fixed::lemma_sdiv_by_one_unit(v.vb as int);
    crate::fixed::lemma_sdiv_by_one_unit(v.vtc as int);
    crate::fixed::lemma_sdiv_by_one_unit(v.vv as int);
    crate::fixed::lemma_sdiv_by_one_unit(v.vtip as int);
    crate::fixed::lemma_sdiv_by_one_unit(v.vti as int);
    crate::fixed::lemma_sdiv_by_one_unit(v.vtivx as int);
    crate::fixed::lemma_sdiv_by_one_unit(v.vmfxx as int);
    crate::fixed::lemma_sdiv_by_one_unit(v.outside_bond as int);
    crate::fixed::lemma_sdiv_by_one_unit(v.outside_stock as int);
}

/// Conservation: with no outside holdings, the target built from complete
/// sub-allocation fractions carries the whole pooled total — its total value
/// falls short of the pool only by the at most nine sub-cent amounts lost to
/// rounding each symbol's share down.
pub proof fn lemma_target_conservation(subs: SubAllocations, total: int)
    requires
        subs.wf(),
        subs.frac_sum() == SUB_DENOM,
        0 <= total <= TOTAL_LIMIT,
    ensures
        total - 9 < ShareValues::target_spec(subs, total, 0, 0, 0, 0).total_spec() <= total,
{
    reveal(ShareValues::target_spec);
    let d = SUB_DENOM as int;
    let n1 = subs.us_stock_large as int;
    let n2 = subs.us_stock_mid as int;
    let n3 = subs.us_stock_small as int;
    let n4 = subs.int_tot_stock as int;
    let n5 = subs.int_emerging_stock as int;
    let n6 = subs.us_tot_bond as int;
    let n7 = subs.us_corp_bond as int;
    let n8 = subs.int_bond as int;
    let n9 = subs.inflation_protected as int;

    crate::fixed::lemma_mul_frac_bounds(total, n1);
    crate::fixed::lemma_mul_frac_bounds(total, n2);
    crate::fixed::lemma_mul_frac_bounds(total, n3);
    crate::fixed::lemma_mul_frac_bounds(total, n4);
    crate::fixed::lemma_mul_frac_bounds(total, n5);
    crate::fixed::lemma_mul_frac_bounds(total, n6);
    crate::fixed::lemma_mul_frac_bounds(total, n7);
    crate::fixed::lemma_mul_frac_bounds(total, n8);
    crate::fixed::lemma_mul_frac_bounds(total, n9);

    vstd::arithmetic::div_mod::lemma_fundamental_div_mod(total * n1, d);
    vstd::arithmetic::div_mod::lemma_fundamental_div_mod(total * n2, d);
    vstd::arithmetic::div_mod::lemma_fundamental_div_mod(total * n3, d);
    vstd::arithmetic::div_mod::lemma_fundamental_div_mod(total * n4, d);
    vstd::arithmetic::div_mod::lemma_fundamental_div_mod(total * n5, d);
    vstd::arithmetic::div_mod::lemma_fundamental_div_mod(total * n6, d);
    vstd::arithmetic::div_mod::lemma_fundamental_div_mod(total * n7, d);
    vstd::arithmetic::div_mod::lemma_fundamental_div_mod(total * n8, d);
    vstd::arithmetic::div_mod::lemma_fundamental_div_mod(total * n9, d);

    vstd::arithmetic::div_mod::lemma_mod_bound(total * n1, d);
    vstd::arithmetic::div_mod::lemma_mod_bound(total * n2, d);
    vstd::arithmetic::div_mod::lemma_mod_bound(total * n3, d);
    vstd::arithmetic::div_mod::lemma_mod_bound(total * n4, d);
    vstd::arithmetic::div_mod::lemma_mod_bound(total * n5, d);
    vstd::arithmetic::div_mod::lemma_mod_bound(total * n6, d);
    vstd::arithmetic::div_mod::lemma_mod_bound(total * n7, d);
    vstd::arithmetic::div_mod::lemma_mod_bound(total * n8, d);
    vstd::arithmetic::div_mod::lemma_mod_bound(total * n9, d);

    assert(total * n1 + total * n2 + total * n3 + total * n4 + total * n5 + total * n6 + total
        * n7 + total * n8 + total * n9 == total * (n1 + n2 + n3 + n4 + n5 + n6 + n7 + n8 + n9))
        by (nonlinear_arith);

    let s = total * n1 / d + total * n2 / d + total * n3 / d + total * n4 / d + total * n5 / d
        + total * n6 / d + total * n7 / d + total * n8 / d + total * n9 / d;
    assert(d * s <= total * d < d * (s + 9));
    assert(s <= total) by (nonlinear_arith)
        requires
            d * s <= total * d,
            d > 0,
    ;
    assert(total - 9 < s) by (nonlinear_arith)
        requires
            total * d < d * (s + 9),
            d > 0,
    ;
}

/// Which account a holdings or rebalance entry belongs to.
#[derive(Clone, Copy, Debug)]
pub enum HoldingType {
    Brokerage,
    TraditionalIra,
    RothIra,
}

/// Everything read from one brokerage report: the per-account holdings that
/// were found, the quotes, and the recorded transactions of the traditional
/// account.
#[derive(Clone, Debug)]
pub struct VanguardHoldings {
    pub brokerage: Option<ShareValues>,
    pub traditional_ira: Option<ShareValues>,
    pub roth_ira: Option<ShareValues>,
    pub quotes: ShareValues,
    pub transactions: Vec<Transaction>,
    pub traditional_shares_option: Option<ShareValues>,
}

/// The sum of the share-count magnitudes of a transaction list.
pub open spec fn shares_magnitude(transactions: Seq<Transaction>) -> int
    decreases transactions.len(),
{
    if transactions.len() == 0 {
        0
    } else {
        let m = transactions[0].shares as int;
        (if m >= 0 {
            m
        } else {
            -m
        }) + shares_magnitude(transactions.drop_first())
    }
}

/// The share counts of `holdings` with every delta recorded strictly after
/// `cutoff` undone, front to back.
pub open spec fn eoy_rewind_spec(
    holdings: ShareValues,
    transactions: Seq<Transaction>,
    cutoff: TradeDate,
) -> ShareValues
    decreases transactions.len(),
{
    if transactions.len() == 0 {
        holdings
    } else {
        let t = transactions[0];
        let next = if t.trade_date.after_spec(cutoff) {
            holdings.updated(t.symbol, (holdings.value_of(t.symbol) - t.shares) as i64)
        } else {
            holdings
        };
        eoy_rewind_spec(next, transactions.drop_first(), cutoff)
    }
}

/// The magnitude sum of a transaction list is nonnegative.
proof fn lemma_shares_magnitude_nonneg(transactions: Seq<Transaction>)
    ensures
        shares_magnitude(transactions) >= 0,
    decreases transactions.len(),
{
    if transactions.len() > 0 {
        lemma_shares_magnitude_nonneg(transactions.drop_first());
    }
}

impl VanguardHoldings {
    /// A report with only the quotes filled in.
    pub fn new(quotes: ShareValues) -> (r: Self)
        ensures
            r.brokerage is None,
            r.traditional_ira is None,
            r.roth_ira is None,
            r.quotes == quotes,
            r.transactions@ == Seq::<Transaction>::empty(),
            r.traditional_shares_option is None,
    {
        VanguardHoldings {
            brokerage: None,
            traditional_ira: None,
            roth_ira: None,
            quotes,
            transactions: Vec::new(),
            traditional_shares_option: None,
        }
    }

    /// Sets the holdings of one account.
    pub fn add_holding(&mut self, holding: ShareValues, holding_type: HoldingType)
        ensures
            *final(self) == (match holding_type {
                HoldingType::RothIra => VanguardHoldings { roth_ira: Some(holding), ..*old(self) },
                HoldingType::Brokerage => VanguardHoldings {
                    brokerage: Some(holding),
                    ..*old(self)
                },
                HoldingType::TraditionalIra => VanguardHoldings {
                    traditional_ira: Some(holding),
                    ..*old(self)
                },
            }),
    {
        match holding_type {
            HoldingType::RothIra => self.roth_ira = Some(holding),
            HoldingType::Brokerage => self.brokerage = Some(holding),
            HoldingType::TraditionalIra => self.traditional_ira = Some(holding),
        }
    }

    /// Appends one recorded transaction.
    pub fn add_transaction(&mut self, transaction: Transaction)
        ensures
            *final(self) == (VanguardHoldings {
                transactions: final (self).transactions,
                ..*old(self)
            }),
            final (self).transactions@ == old(self).transactions@.push(transaction),
    {
        self.transactions.push(transaction);
    }

    /// Sets the share counts of the traditional account, used for
    /// end-of-year reconstruction.
    pub fn set_traditional_shares(&mut self, shares: ShareValues)
        ensures
            *final(self) == (VanguardHoldings {
                traditional_shares_option: Some(shares),
                ..*old(self)
            }),
    {
        self.traditional_shares_option = Some(shares);
    }

    /// The brokerage account holdings, if that account was found.
    pub fn brokerage_holdings(&self) -> (r: Option<ShareValues>)
        ensures
            r == self.brokerage,
    {
        self.brokerage
    }

    /// The traditional IRA holdings, if that account was found.
    pub fn traditional_ira_holdings(&self) -> (r: Option<ShareValues>)
        ensures
            r == self.traditional_ira,
    {
        self.traditional_ira
    }

    /// The Roth IRA holdings, if that account was found.
    pub fn roth_ira_holdings(&self) -> (r: Option<ShareValues>)
        ensures
            r == self.roth_ira,
    {
        self.roth_ira
    }

    /// The per-share quotes read from the report.
    pub fn stock_quotes(&self) -> (r: ShareValues)
        ensures
            r == self.quotes,
    {
        self.quotes
    }

    /// Reconstructs the traditional account's share counts at `cutoff` by
    /// undoing every recorded delta traded after it.  Returns nothing when
    /// the share counts are unknown or no transactions were recorded.
    pub fn eoy_traditional_holdings(&self, cutoff: TradeDate) -> (r: Option<ShareValues>)
        requires
            self.traditional_shares_option matches Some(ts) ==> ts.bounded(VALUE_LIMIT as int),
            shares_magnitude(self.transactions@) <= VALUE_LIMIT,
        ensures
            match self.traditional_shares_option {
                None => r is None,
                Some(ts) => {
                    if self.transactions@.len() == 0 {
                        r is None
                    } else {
                        r == Some(eoy_rewind_spec(ts, self.transactions@, cutoff))
                    }
                },
            },
    {
        if let Some(trad_holdings) = self.traditional_shares_option {
            if self.transactions.len() == 0 {
                return None;
            }
            let mut eoy_holdings = trad_holdings;
            let n = self.transactions.len();
            let mut i: usize = 0;
            proof {
                assert(self.transactions@.skip(0) =~= self.transactions@);
                lemma_shares_magnitude_nonneg(self.transactions@);
            }
            while i < n
                invariant
                    i <= n,
                    n == self.transactions@.len(),
                    shares_magnitude(self.transactions@) <= VALUE_LIMIT,
                    self.traditional_shares_option matches Some(ts) && ts.bounded(
                        VALUE_LIMIT as int,
                    ) && eoy_rewind_spec(ts, self.transactions@, cutoff) == eoy_rewind_spec(
                        eoy_holdings,
                        self.transactions@.skip(i as int),
                        cutoff,
                    ),
                    eoy_holdings.bounded(
                        2 * VALUE_LIMIT - shares_magnitude(self.transactions@.skip(i as int)),
                    ),
                decreases n - i,
            {
                proof {
                    lemma_shares_magnitude_nonneg(self.transactions@.skip(i + 1));
                    assert(self.transactions@.skip(i as int).drop_first() =~= self.transactions@
                        .skip(i + 1));
                }
                let t = &self.transactions[i];
                if t.trade_date.is_after(&cutoff) {
                    if let Some(read_symbol) = t.symbol.supported_copy() {
                        let previous = eoy_holdings.stock_value(read_symbol);
                        if let Some(write_symbol) = t.symbol.supported_copy() {
                            eoy_holdings.add_stock_value(write_symbol, previous - t.shares);
                        }
                    }
                }
                i = i + 1;
            }
            proof {
                assert(self.transactions@.skip(n as int) =~= Seq::<Transaction>::empty());
            }
            Some(eoy_holdings)
        } else {
            None
        }
    }
}

/// The current, target and purchase/sale vectors of one account.
#[derive(Clone, Copy, Debug, PartialEq, Eq, Structural)]
pub struct AccountHoldings {
    pub current: ShareValues,
    pub target: ShareValues,
    pub sale_purchases_needed: ShareValues,
}

impl AccountHoldings {
    /// Bundles the three vectors of one account.
    pub fn new(current: ShareValues, target: ShareValues, sale_purchases_needed: ShareValues) -> (r:
        Self)
        ensures
            r == (AccountHoldings { current, target, sale_purchases_needed }),
    {
        AccountHoldings { current, target, sale_purchases_needed }
    }
}

/// The result of one rebalance run: per-account holdings with targets and
/// needed purchases, plus the combined retirement target when both
/// retirement accounts exist.
#[derive(Clone, Copy, Debug)]
pub struct VanguardRebalance {
    pub brokerage: Option<AccountHoldings>,
    pub traditional_ira: Option<AccountHoldings>,
    pub roth_ira: Option<AccountHoldings>,
    pub retirement_target: Option<ShareValues>,
}

impl VanguardRebalance {
    /// An empty rebalance result.
    pub fn new() -> (r: Self)
        ensures
            r.brokerage is None,
            r.traditional_ira is None,
            r.roth_ira is None,
            r.retirement_target is None,
    {
        VanguardRebalance {
            brokerage: None,
            traditional_ira: None,
            roth_ira: None,
            retirement_target: None,
        }
    }

    /// Sets the entry for one account.
    pub fn add_account_holdings(&mut self, acct_holding: AccountHoldings, acct_type: HoldingType)
        ensures
            *final(self) == (match acct_type {
                HoldingType::Brokerage => VanguardRebalance {
                    brokerage: Some(acct_holding),
                    ..*old(self)
                },
                HoldingType::TraditionalIra => VanguardRebalance {
                    traditional_ira: Some(acct_holding),
                    ..*old(self)
                },
                HoldingType::RothIra => VanguardRebalance {
                    roth_ira: Some(acct_holding),
                    ..*old(self)
                },
            }),
    {
        match acct_type {
            HoldingType::Brokerage => self.brokerage = Some(acct_holding),
            HoldingType::TraditionalIra => self.traditional_ira = Some(acct_holding),
            HoldingType::RothIra => self.roth_ira = Some(acct_holding),
        }
    }

    /// Sets the combined retirement target.
    pub fn add_retirement_target(&mut self, retirement_target: ShareValues)
        ensures
            *final(self) == (VanguardRebalance {
                retirement_target: Some(retirement_target),
                ..*old(self)
            }),
    {
        self.retirement_target = Some(retirement_target);
    }
}

impl Default for VanguardRebalance {
    /// Same as [`VanguardRebalance::new`].
    fn default() -> (r: Self)
        ensures
            r.brokerage is None,
            r.traditional_ira is None,
            r.roth_ira is None,
            r.retirement_target is None,
    {
        Self::new()
    }
}

} // verus!
