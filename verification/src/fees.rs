//! The fee model: what a buyer pays on top of the seller's ask.
//!
//! The marketplace takes one percent of the ask, and the seller may add a tip
//! for the platform from a fixed set of tiers. Both shares are rounded up, so
//! the platform is never short a unit because of a fraction.

use vstd::prelude::*;

verus! {

/// One hundred percent, in basis points.
pub const BASIS_POINTS_SCALE: u64 = 10000;

/// The marketplace's share of the ask, in basis points (one percent).
pub const MARKETPLACE_FEE_BASIS_POINTS: u64 = 100;

/// The tip tiers a seller can choose from.
#[derive(Clone, Copy, Debug, PartialEq, Eq, Structural)]
pub enum TipTier {
    /// No tip.
    Zero,
    /// Two and a half percent of the ask.
    TwoAndHalf,
    /// Five percent of the ask.
    Five,
}

impl TipTier {
    /// The tier's share of the ask, in basis points.
    pub open spec fn spec_basis_points(self) -> nat {
        match self {
            TipTier::Zero => 0,
            TipTier::TwoAndHalf => 250,
            TipTier::Five => 500,
        }
    }

    /// The tier that a share in basis points names, if it names one.
    pub open spec fn spec_from_basis_points(basis_points: nat) -> Option<TipTier> {
        if basis_points == 0 {
            Some(TipTier::Zero)
        } else if basis_points == 250 {
            Some(TipTier::TwoAndHalf)
        } else if basis_points == 500 {
            Some(TipTier::Five)
        } else {
            None
        }
    }

    /// The tier's share of the ask, in basis points.
    pub fn basis_points(self) -> (r: u32)
        ensures
            r == self.spec_basis_points(),
    {
        match self {
            TipTier::Zero => 0,
            TipTier::TwoAndHalf => 250,
            TipTier::Five => 500,
        }
    }

    /// Reads a tier from a share in basis points. Only 0, 250 and 500 name a
    /// tier; every other value is refused.
    pub fn from_basis_points(basis_points: u32) -> (r: Option<TipTier>)
        ensures
            r == Self::spec_from_basis_points(basis_points as nat),
    {
        if basis_points == 0 {
            Some(TipTier::Zero)
        } else if basis_points == 250 {
            Some(TipTier::TwoAndHalf)
        } else if basis_points == 500 {
            Some(TipTier::Five)
        } else {
            None
        }
    }
}

/// The share of `amount` that `basis_points` names, rounded up to a whole unit.
pub open spec fn ceil_share(amount: nat, basis_points: nat) -> nat {
    ((amount * basis_points + 9999) / 10000) as nat
}

/// The marketplace fee on an ask.
pub open spec fn marketplace_fee_of(seller_wants: nat) -> nat {
    ceil_share(seller_wants, MARKETPLACE_FEE_BASIS_POINTS as nat)
}

/// The tip on an ask at a tier.
pub open spec fn tip_of(seller_wants: nat, tip: TipTier) -> nat {
    ceil_share(seller_wants, tip.spec_basis_points())
}

/// What the buyer's funding has to cover, miner fee aside.
pub open spec fn total_price_of(seller_wants: nat, tip: TipTier) -> nat {
    seller_wants + marketplace_fee_of(seller_wants) + tip_of(seller_wants, tip)
}

/// The fee breakdown of a listing. It is computed once, when the listing is
/// created, and never again.
#[derive(Clone, Copy, Debug, PartialEq, Eq, Structural)]
pub struct ListingFees {
    /// What the seller asked for, unchanged.
    pub seller_receives: u64,
    /// The marketplace's one percent, rounded up.
    pub marketplace_fee: u64,
    /// The tip for the platform, rounded up.
    pub tip_amount: u64,
    /// The tier the tip was computed at.
    pub tip: TipTier,
    /// The sum of the three amounts.
    pub total_price: u64,
}

impl ListingFees {
    /// The breakdown for an ask and a tier, as a value of the model.
    pub open spec fn spec_calculate(seller_wants: u64, tip: TipTier) -> ListingFees
        recommends
            total_price_of(seller_wants as nat, tip) <= u64::MAX,
    {
        ListingFees {
            seller_receives: seller_wants,
            marketplace_fee: marketplace_fee_of(seller_wants as nat) as u64,
            tip_amount: tip_of(seller_wants as nat, tip) as u64,
            tip,
            total_price: total_price_of(seller_wants as nat, tip) as u64,
        }
    }

    /// Whether the three amounts add up to the total.
    pub open spec fn balanced(self) -> bool {
        self.total_price == self.seller_receives + self.marketplace_fee + self.tip_amount
    }

    /// Computes the breakdown for an ask and a tier. The total has to fit the
    /// amount type; `checked_calculate` tests that.
    pub fn calculate(seller_wants: u64, tip: TipTier) -> (fees: ListingFees)
        requires
            total_price_of(seller_wants as nat, tip) <= u64::MAX,
        ensures
            fees == Self::spec_calculate(seller_wants, tip),
            fees.seller_receives == seller_wants,
            fees.marketplace_fee == marketplace_fee_of(seller_wants as nat),
            fees.tip_amount == tip_of(seller_wants as nat, tip),
            fees.tip == tip,
            fees.total_price == fees.seller_receives + fees.marketplace_fee + fees.tip_amount,
    {
        let marketplace_fee = share_rounded_up(seller_wants, MARKETPLACE_FEE_BASIS_POINTS);
        let tip_amount = share_rounded_up(seller_wants, tip.basis_points() as u64);
        ListingFees {
            seller_receives: seller_wants,
            marketplace_fee,
            tip_amount,
            tip,
            total_price: seller_wants + marketplace_fee + tip_amount,
        }
    }

    /// Computes the breakdown where the total fits the amount type, and
    /// returns `None` where it does not.
    pub fn checked_calculate(seller_wants: u64, tip: TipTier) -> (r: Option<ListingFees>)
        ensures
            total_price_of(seller_wants as nat, tip) <= u64::MAX ==> r == Some(
                Self::spec_calculate(seller_wants, tip),
            ),
            total_price_of(seller_wants as nat, tip) > u64::MAX ==> r is None,
    {
        let marketplace_fee = share_rounded_up(seller_wants, MARKETPLACE_FEE_BASIS_POINTS);
        let tip_amount = share_rounded_up(seller_wants, tip.basis_points() as u64);
        let total: u128 = seller_wants as u128 + marketplace_fee as u128 + tip_amount as u128;
        if total <= u64::MAX as u128 {
            Some(Self::calculate(seller_wants, tip))
        } else {
            None
        }
    }
}

/// `ceil_share` on machine integers. A share of at most the whole is never
/// more than the amount, so it fits.
fn share_rounded_up(amount: u64, basis_points: u64) -> (r: u64)
    requires
        basis_points <= BASIS_POINTS_SCALE,
    ensures
        r == ceil_share(amount as nat, basis_points as nat),
        r <= amount,
{
    proof {
        assert(amount * basis_points <= 0xffff_ffff_ffff_ffff * 10000) by (nonlinear_arith)
            requires
                amount <= 0xffff_ffff_ffff_ffff,
                basis_points <= 10000,
        ;
        lemma_share_bounded(amount as nat, basis_points as nat);
    }
    let scaled: u128 = amount as u128 * basis_points as u128 + 9999;
    (scaled / 10000) as u64
}

/// A share of at most the whole is at most the amount.
pub proof fn lemma_share_bounded(amount: nat, basis_points: nat)
    requires
        basis_points <= 10000,
    ensures
        ceil_share(amount, basis_points) <= amount,
{
    assert(amount * basis_points <= amount * 10000) by (nonlinear_arith)
        requires
            basis_points <= 10000,
    ;
    assert((amount * 10000 + 9999) / 10000 == amount) by (nonlinear_arith);
    vstd::arithmetic::div_mod::lemma_div_is_ordered(
        (amount * basis_points + 9999) as int,
        (amount * 10000 + 9999) as int,
        10000,
    );
}

/// The fee and the tip are the ceilings of the exact percentages: each is the
/// least whole number of units that is not below the exact share.
pub proof fn lemma_share_is_ceiling(amount: nat, basis_points: nat)
    ensures
        ceil_share(amount, basis_points) * 10000 >= amount * basis_points,
        ceil_share(amount, basis_points) * 10000 < amount * basis_points + 10000,
{
    let x = (amount * basis_points + 9999) as int;
    vstd::arithmetic::div_mod::lemma_fundamental_div_mod(x, 10000);
    vstd::arithmetic::div_mod::lemma_mod_bound(x, 10000);
}

/// For every ask and tier whose total fits, the computed amounts add up to the
/// total price, and the fee and the tip are the ceilings of one percent and
/// of the tier's percentage of the ask.
pub proof fn law_fees_add_up_and_round_up(seller_wants: u64, tip: TipTier)
    requires
        total_price_of(seller_wants as nat, tip) <= u64::MAX,
    ensures
        ListingFees::spec_calculate(seller_wants, tip).balanced(),
        ListingFees::spec_calculate(seller_wants, tip).seller_receives == seller_wants,
        ({
            let fee = ListingFees::spec_calculate(seller_wants, tip).marketplace_fee;
            fee * 100 >= seller_wants && fee * 100 < seller_wants + 100
        }),
        ({
            let tip_amount = ListingFees::spec_calculate(seller_wants, tip).tip_amount;
            &&& tip_amount * 10000 >= seller_wants * tip.spec_basis_points()
            &&& tip_amount * 10000 < seller_wants * tip.spec_basis_points() + 10000
        }),
{
    lemma_share_is_ceiling(seller_wants as nat, 100);
    lemma_share_is_ceiling(seller_wants as nat, tip.spec_basis_points());
}

} // verus!
