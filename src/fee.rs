use vstd::prelude::*;

verus! {

/// The total fee, in percent of the gross release.
pub const FEE_PERCENT: u64 = 10;

/// How one gross release is divided between the recipient and the two fee legs.
#[derive(Clone, Copy, Debug, PartialEq, Eq, Structural)]
pub struct FeeSplit {
    /// What the recipient receives.
    pub net: u64,
    /// Paid to the fee wallet.
    pub fee_a: u64,
    /// Paid to the reserve holding.
    pub fee_b: u64,
}

/// `floor(gross * 10 / 100)`.
pub open spec fn total_fee_spec(gross: int) -> int {
    gross * FEE_PERCENT as int / 100
}

/// The fee split of a gross amount: each fee leg is half the total fee,
/// rounded down, and the recipient gets the gross less the total fee.
pub open spec fn fee_split_spec(gross: int) -> FeeSplit {
    FeeSplit {
        net: (gross - total_fee_spec(gross)) as u64,
        fee_a: (total_fee_spec(gross) / 2) as u64,
        fee_b: (total_fee_spec(gross) / 2) as u64,
    }
}

/// The gross amount released by a given percentage of what remains.
pub open spec fn release_gross_spec(remaining: int, percentage: int) -> int {
    remaining * percentage / 100
}

/// The three legs of a split never exceed the gross, and fall short of it
/// by at most one unit.
pub proof fn lemma_fee_split_bounds(gross: int)
    requires
        0 <= gross <= u64::MAX,
    ensures
        ({
            let s = fee_split_spec(gross);
            &&& s.net + s.fee_a + s.fee_b <= gross
            &&& gross - (s.net + s.fee_a + s.fee_b) <= 1
        }),
{
}

/// Splits `gross` into the recipient's share and the two fee legs.
///
/// The legs never add up to more than `gross`; what is left over (at most one
/// unit) stays in the vault.
pub fn fee_split(gross: u64) -> (r: FeeSplit)
    ensures
        r == fee_split_spec(gross as int),
        r.net + r.fee_a + r.fee_b <= gross,
        gross - (r.net + r.fee_a + r.fee_b) <= 1,
{
    assert(gross as int * FEE_PERCENT as int <= gross as int * 10);
    let wide: u128 = (gross as u128) * (FEE_PERCENT as u128);
    assert(wide / 100 <= gross) by (nonlinear_arith)
        requires wide == gross as int * 10, gross >= 0;
    let total_fee: u64 = (wide / 100) as u64;
    let half_fee: u64 = total_fee / 2;
    let net: u64 = gross - total_fee;
    FeeSplit { net, fee_a: half_fee, fee_b: half_fee }
}

/// `floor(remaining * percentage / 100)`, computed without overflow.
pub fn release_gross(remaining: u64, percentage: u8) -> (r: u64)
    requires
        percentage <= 100,
    ensures
        r == release_gross_spec(remaining as int, percentage as int),
        r <= remaining,
        percentage == 100 ==> r == remaining,
{
    assert(remaining as int * percentage as int <= remaining as int * 100) by (nonlinear_arith)
        requires percentage <= 100, remaining >= 0;
    let wide: u128 = (remaining as u128) * (percentage as u128);
    assert(wide / 100 <= remaining) by (nonlinear_arith)
        requires wide <= remaining as int * 100, remaining >= 0;
    (wide / 100) as u64
}

} // verus!
