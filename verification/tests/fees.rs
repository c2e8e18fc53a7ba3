use ordinals_marketplace::api::{calculate_fees, FeeCalcQuery};
use ordinals_marketplace::error::MarketError;
use ordinals_marketplace::fees::{ListingFees, TipTier};

fn fees(seller_wants: u64, tip: TipTier) -> (u64, u64, u64, u64) {
    let f = ListingFees::calculate(seller_wants, tip);
    assert_eq!(f.tip, tip);
    (f.seller_receives, f.marketplace_fee, f.tip_amount, f.total_price)
}

#[test]
fn fees_with_a_tip_of_two_and_a_half_percent() {
    assert_eq!(fees(1000, TipTier::TwoAndHalf), (1000, 10, 25, 1035));
}

#[test]
fn fees_without_a_tip() {
    assert_eq!(fees(10000, TipTier::Zero), (10000, 100, 0, 10100));
}

#[test]
fn fees_with_a_tip_of_five_percent() {
    assert_eq!(fees(10000, TipTier::Five), (10000, 100, 500, 10600));
}

#[test]
fn fees_round_up_every_fraction() {
    assert_eq!(fees(1, TipTier::Five), (1, 1, 1, 3));
    assert_eq!(fees(101, TipTier::Zero), (101, 2, 0, 103));
    assert_eq!(fees(100, TipTier::TwoAndHalf), (100, 1, 3, 104));
    assert_eq!(fees(199, TipTier::TwoAndHalf), (199, 2, 5, 206));
    assert_eq!(fees(39, TipTier::TwoAndHalf), (39, 1, 1, 41));
    assert_eq!(fees(40, TipTier::TwoAndHalf), (40, 1, 1, 42));
    assert_eq!(fees(41, TipTier::TwoAndHalf), (41, 1, 2, 44));
}

#[test]
fn fees_of_nothing_are_nothing() {
    assert_eq!(fees(0, TipTier::Zero), (0, 0, 0, 0));
    assert_eq!(fees(0, TipTier::Five), (0, 0, 0, 0));
}

#[test]
fn fees_add_up_for_many_asks() {
    let tiers = [TipTier::Zero, TipTier::TwoAndHalf, TipTier::Five];
    let mut ask: u64 = 0;
    while ask < 5000 {
        for tip in tiers {
            let f = ListingFees::calculate(ask, tip);
            assert_eq!(f.total_price, f.seller_receives + f.marketplace_fee + f.tip_amount);
            assert!(f.marketplace_fee * 100 >= ask);
            assert!(f.marketplace_fee * 100 < ask + 100);
            let bps = tip.basis_points() as u64;
            assert!(f.tip_amount * 10000 >= ask * bps);
            assert!(f.tip_amount * 10000 < ask * bps + 10000);
        }
        ask += 7;
    }
}

#[test]
fn fees_of_a_large_ask_are_exact() {
    let ask: u64 = 2_100_000_000_000_000;
    assert_eq!(
        fees(ask, TipTier::TwoAndHalf),
        (ask, 21_000_000_000_000, 52_500_000_000_000, 2_173_500_000_000_000)
    );
    assert_eq!(fees(ask + 1, TipTier::TwoAndHalf).1, 21_000_000_000_001);
    assert_eq!(fees(ask + 1, TipTier::TwoAndHalf).2, 52_500_000_000_001);
}

#[test]
fn checked_fees_refuse_a_total_beyond_the_amount_type() {
    assert_eq!(ListingFees::checked_calculate(u64::MAX, TipTier::Zero), None);
    assert_eq!(ListingFees::checked_calculate(u64::MAX, TipTier::Five), None);
    let fits = ListingFees::checked_calculate(1000, TipTier::TwoAndHalf);
    assert_eq!(fits, Some(ListingFees::calculate(1000, TipTier::TwoAndHalf)));
    // The largest ask whose total without a tip still fits.
    let edge: u64 = 18_264_103_043_276_783_777;
    assert_eq!(
        ListingFees::checked_calculate(edge, TipTier::Zero).unwrap().total_price,
        u64::MAX
    );
    assert_eq!(ListingFees::checked_calculate(edge + 1, TipTier::Zero), None);
}

#[test]
fn tip_tiers_are_three() {
    assert_eq!(TipTier::from_basis_points(0), Some(TipTier::Zero));
    assert_eq!(TipTier::from_basis_points(250), Some(TipTier::TwoAndHalf));
    assert_eq!(TipTier::from_basis_points(500), Some(TipTier::Five));
    assert_eq!(TipTier::from_basis_points(1), None);
    assert_eq!(TipTier::from_basis_points(100), None);
    assert_eq!(TipTier::from_basis_points(251), None);
    assert_eq!(TipTier::from_basis_points(1000), None);
    assert_eq!(TipTier::from_basis_points(u32::MAX), None);
    assert_eq!(TipTier::Zero.basis_points(), 0);
    assert_eq!(TipTier::TwoAndHalf.basis_points(), 250);
    assert_eq!(TipTier::Five.basis_points(), 500);
}

#[test]
fn fee_preview_answers_with_the_fees() {
    let r = calculate_fees(&FeeCalcQuery { amount: 1000, tip_basis_points: 250 }).unwrap();
    assert!(r.success);
    assert_eq!(r.fees, ListingFees::calculate(1000, TipTier::TwoAndHalf));
}

#[test]
fn fee_preview_refuses_an_unknown_tier() {
    let r = calculate_fees(&FeeCalcQuery { amount: 1000, tip_basis_points: 300 });
    assert_eq!(r, Err(MarketError::InvalidArgument));
}

#[test]
fn fee_preview_refuses_an_ask_that_is_too_large() {
    let r = calculate_fees(&FeeCalcQuery { amount: u64::MAX, tip_basis_points: 0 });
    assert_eq!(r, Err(MarketError::InvalidArgument));
}
