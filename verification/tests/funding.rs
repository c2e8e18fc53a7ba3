use ordinals_marketplace::error::MarketError;
use ordinals_marketplace::fees::{ListingFees, TipTier};
use ordinals_marketplace::funding::{select_funding, MINER_FEE_BUFFER, MIN_FUNDING_VALUE};
use ordinals_marketplace::models::{BuyerUtxo, OrdinalUtxo};

fn output(n: u32, satoshis: u64) -> OrdinalUtxo {
    OrdinalUtxo {
        txid: format!("{:064x}", n),
        vout: n,
        satoshis,
        lock: format!("76a914{:040x}88ac", n),
        origin: String::new(),
        ordinal: 0,
        spend: None,
    }
}

fn outputs(values: &[u64]) -> Vec<OrdinalUtxo> {
    values.iter().enumerate().map(|(i, v)| output(i as u32, *v)).collect()
}

fn values(chosen: &[BuyerUtxo]) -> Vec<u64> {
    chosen.iter().map(|u| u.satoshis).collect()
}

#[test]
fn the_thresholds_are_fixed() {
    assert_eq!(MIN_FUNDING_VALUE, 200);
    assert_eq!(MINER_FEE_BUFFER, 1000);
}

#[test]
fn a_sale_of_ten_thousand_needs_eleven_thousand_one_hundred() {
    let fees = ListingFees::calculate(10000, TipTier::Zero);
    assert_eq!(
        fees,
        ListingFees {
            seller_receives: 10000,
            marketplace_fee: 100,
            tip_amount: 0,
            tip: TipTier::Zero,
            total_price: 10100,
        }
    );
    let required = fees.total_price + MINER_FEE_BUFFER;
    assert_eq!(required, 11100);
    // Two outputs of 6000 and 5000 fall short by a hundred.
    assert_eq!(
        select_funding(&outputs(&[6000, 5000]), required),
        Err(MarketError::InsufficientFunds { required: 11100, available: 11000 })
    );
    // A third output of 200 closes the gap: all three are taken.
    let chosen = select_funding(&outputs(&[6000, 5000, 200]), required).unwrap();
    assert_eq!(values(&chosen), vec![6000, 5000, 200]);
    // A third output that is too small to spend is passed over.
    assert_eq!(
        select_funding(&outputs(&[6000, 5000, 199]), required),
        Err(MarketError::InsufficientFunds { required: 11100, available: 11000 })
    );
}

#[test]
fn selection_stops_at_the_first_output_that_reaches_the_amount() {
    let pool = outputs(&[1000, 2000, 3000, 4000, 5000]);
    assert_eq!(values(&select_funding(&pool, 1).unwrap()), vec![1000]);
    assert_eq!(values(&select_funding(&pool, 1000).unwrap()), vec![1000]);
    assert_eq!(values(&select_funding(&pool, 1001).unwrap()), vec![1000, 2000]);
    assert_eq!(values(&select_funding(&pool, 3000).unwrap()), vec![1000, 2000]);
    assert_eq!(values(&select_funding(&pool, 3001).unwrap()), vec![1000, 2000, 3000]);
    assert_eq!(values(&select_funding(&pool, 15000).unwrap()), vec![1000, 2000, 3000, 4000, 5000]);
    assert_eq!(
        select_funding(&pool, 15001),
        Err(MarketError::InsufficientFunds { required: 15001, available: 15000 })
    );
}

#[test]
fn selection_is_first_fit_not_best_fit() {
    // The single output of 9000 would do, but it comes last.
    let pool = outputs(&[600, 700, 9000]);
    assert_eq!(values(&select_funding(&pool, 1500).unwrap()), vec![600, 700, 9000]);
    assert_eq!(values(&select_funding(&pool, 1300).unwrap()), vec![600, 700]);
}

#[test]
fn selection_passes_over_outputs_too_small_to_spend() {
    let pool = outputs(&[199, 200, 1, 0, 201, 199]);
    assert_eq!(values(&select_funding(&pool, 200).unwrap()), vec![200]);
    assert_eq!(values(&select_funding(&pool, 201).unwrap()), vec![200, 201]);
    assert_eq!(values(&select_funding(&pool, 401).unwrap()), vec![200, 201]);
    assert_eq!(
        select_funding(&pool, 402),
        Err(MarketError::InsufficientFunds { required: 402, available: 401 })
    );
    assert_eq!(
        select_funding(&outputs(&[199, 199, 199]), 1),
        Err(MarketError::InsufficientFunds { required: 1, available: 0 })
    );
    // An output of one unit, which may carry an asset, is never taken.
    assert_eq!(
        select_funding(&outputs(&[1, 1, 1]), 1),
        Err(MarketError::InsufficientFunds { required: 1, available: 0 })
    );
    assert_eq!(values(&select_funding(&outputs(&[1, 300]), 1).unwrap()), vec![300]);
}

#[test]
fn selection_keeps_the_outputs_as_they_came() {
    let pool = vec![output(3, 700), output(1, 100), output(2, 800)];
    let chosen = select_funding(&pool, 1500).unwrap();
    assert_eq!(
        chosen,
        vec![
            BuyerUtxo {
                txid: format!("{:064x}", 3),
                vout: 3,
                satoshis: 700,
                script_hex: format!("76a914{:040x}88ac", 3),
            },
            BuyerUtxo {
                txid: format!("{:064x}", 2),
                vout: 2,
                satoshis: 800,
                script_hex: format!("76a914{:040x}88ac", 2),
            },
        ]
    );
}

#[test]
fn selection_of_nothing_is_empty() {
    assert_eq!(select_funding(&outputs(&[1000, 2000]), 0), Ok(vec![]));
    assert_eq!(select_funding(&vec![], 0), Ok(vec![]));
    assert_eq!(
        select_funding(&vec![], 1),
        Err(MarketError::InsufficientFunds { required: 1, available: 0 })
    );
}

#[test]
fn selection_bears_values_near_the_top_of_the_amount_type() {
    let pool = outputs(&[u64::MAX - 10, u64::MAX, 600]);
    assert_eq!(values(&select_funding(&pool, u64::MAX).unwrap()), vec![u64::MAX - 10, u64::MAX]);
    assert_eq!(values(&select_funding(&pool, u64::MAX - 10).unwrap()), vec![u64::MAX - 10]);
    assert_eq!(
        select_funding(&outputs(&[u64::MAX - 1000, 600]), u64::MAX),
        Err(MarketError::InsufficientFunds { required: u64::MAX, available: u64::MAX - 400 })
    );
}

#[test]
fn selection_never_takes_more_than_it_needs() {
    let pool = outputs(&[900, 100, 1200, 200, 3000, 199, 777, 10_000]);
    let spendable: Vec<u64> =
        pool.iter().map(|u| u.satoshis).filter(|v| *v >= MIN_FUNDING_VALUE).collect();
    let all: u64 = spendable.iter().sum();
    let mut required = 0;
    while required <= all + 500 {
        match select_funding(&pool, required) {
            Ok(chosen) => {
                let got = values(&chosen);
                assert_eq!(got[..], spendable[..got.len()]);
                let sum: u64 = got.iter().sum();
                assert!(sum >= required);
                if let Some(last) = got.last() {
                    assert!(sum - last < required);
                }
            }
            Err(e) => {
                assert!(required > all);
                assert_eq!(e, MarketError::InsufficientFunds { required, available: all });
            }
        }
        required += 37;
    }
}
