use vstd::prelude::*;

verus! {

/// Pricing-curve state of the virtual AMM.
#[derive(Clone, Copy, Debug, PartialEq, Eq, Structural)]
pub struct Amm {
    /// Unsigned base-asset reserve of the virtual curve.
    pub base_asset_reserve: u128,
    /// Unsigned quote-asset reserve of the virtual curve.
    pub quote_asset_reserve: u128,
    /// Scaling constant converting the raw reserve ratio to a real price.
    pub peg_multiplier: u128,
    /// Lifetime fee revenue collected.
    pub total_fee: u128,
    /// Fee revenue net of amounts already distributed.
    pub total_fee_minus_distributions: u128,
}

/// Mutable market aggregate, owned by the calling transaction scope for the
/// duration of a protocol action.
#[derive(Clone, Copy, Debug, PartialEq, Eq, Structural)]
pub struct Market {
    /// Signed net open interest across all traders (base-asset units).
    pub base_asset_amount: i128,
    /// Embedded pricing-curve state.
    pub amm: Amm,
}

impl Amm {
    /// The same curve state with the peg multiplier replaced.
    pub open spec fn with_peg(self, peg: u128) -> Amm {
        Amm { peg_multiplier: peg, ..self }
    }
}

impl Market {
    /// The same market with the AMM's peg multiplier replaced.
    pub open spec fn with_peg(self, peg: u128) -> Market {
        Market { amm: self.amm.with_peg(peg), ..self }
    }
}

} // verus!
