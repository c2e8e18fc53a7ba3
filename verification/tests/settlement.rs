use bitcoin::hashes::Hash as _;
use ordinals_marketplace::chain::{SettlementTx, TxInput, TxOutput};
use ordinals_marketplace::error::MarketError;
use ordinals_marketplace::fees::{ListingFees, TipTier};
use ordinals_marketplace::models::{BuyerUtxo, Listing, ListingStatus, OrdinalUtxoRef, Timestamp};
use ordinals_marketplace::tx_builder::{
    assemble_settlement, build_purchase_tx, plan_payouts, total_input_value, FundingInput,
    PartyScripts, Payouts, Settlement, SigRequest, ASSET_OUTPUT_VALUE, DUST_THRESHOLD,
    ESTIMATED_MINER_FEE, FINAL_SEQUENCE, TX_VERSION,
};
use std::str::FromStr;

const BUYER_ORD: &str = "1BvBMSEYstWetqTFn5Au4m4GFg7xJaNVN2";
const BUYER_PAY: &str = "3J98t1WpEZ73CNmQviecrnyiWrnqRhWNLy";
const SELLER: &str = "1A1zP1eP5QGefi2DMPTfTL5SLmv7DivfNa";
const MARKET: &str = "bc1qar0srrr7xfkvy5l643lydnw9re59gtzzwf5mdq";
const TESTNET: &str = "mipcBbFg9gMiCh81Kj8tqqdgoZub1ZJRfn";

const ASSET_TXID: &str = "4a5e1e4baab89f3a32518a88c31bc87f618f76673e2cc77ab2127b7afdeda33b";

fn txid_text(n: u8) -> String {
    format!("{:02x}", n).repeat(32)
}

fn listing(wants: u64, tip: TipTier) -> Listing {
    Listing {
        id: "id-1".to_string(),
        origin: format!("{}_0", ASSET_TXID),
        seller_address: SELLER.to_string(),
        seller_ord_address: BUYER_ORD.to_string(),
        fees: ListingFees::calculate(wants, tip),
        status: ListingStatus::Active,
        psbt_hex: None,
        listing_utxo: None,
        ordinal_utxo: OrdinalUtxoRef {
            txid: ASSET_TXID.to_string(),
            vout: 2,
            satoshis: 1,
            script: String::new(),
        },
        created_at: Timestamp { secs: 1, nanos: 0 },
        updated_at: Timestamp { secs: 1, nanos: 0 },
        sold_at: None,
        buyer_address: None,
        purchase_txid: None,
    }
}

fn utxo(n: u8, satoshis: u64) -> BuyerUtxo {
    BuyerUtxo {
        txid: txid_text(n),
        vout: n as u32,
        satoshis,
        script_hex: format!("76a914{}88ac", format!("{:02x}", n).repeat(20)),
    }
}

fn funding(values: &[u64]) -> Vec<FundingInput> {
    values
        .iter()
        .enumerate()
        .map(|(i, v)| FundingInput { utxo: utxo(i as u8 + 1, *v), txid: Some([i as u8 + 1; 32]) })
        .collect()
}

fn scripts() -> PartyScripts {
    PartyScripts {
        buyer_asset: Some(vec![0xa1]),
        seller: Some(vec![0xb2, 0xb2]),
        fee_recipient: Some(vec![0xc3, 0xc3, 0xc3]),
        buyer_change: Some(vec![0xd4]),
    }
}

fn unsigned(txid: [u8; 32], vout: u32) -> TxInput {
    TxInput { txid, vout, script_sig: vec![], sequence: 0xffff_ffff }
}

fn out(value: u64, script: &[u8]) -> TxOutput {
    TxOutput { value, script_pubkey: script.to_vec() }
}

/// The transaction as the `bitcoin` crate builds it from the same parts.
fn reference_hex(l: &Listing, funding: &[BuyerUtxo], outputs: &[(u64, &str)]) -> String {
    let input_of = |txid: &str, vout: u32| bitcoin::TxIn {
        previous_output: bitcoin::OutPoint { txid: bitcoin::Txid::from_str(txid).unwrap(), vout },
        script_sig: bitcoin::ScriptBuf::new(),
        sequence: bitcoin::Sequence::MAX,
        witness: bitcoin::Witness::new(),
    };
    let mut input = vec![input_of(&l.ordinal_utxo.txid, l.ordinal_utxo.vout)];
    for u in funding {
        input.push(input_of(&u.txid, u.vout));
    }
    let output = outputs
        .iter()
        .map(|(value, address)| bitcoin::TxOut {
            value: bitcoin::Amount::from_sat(*value),
            script_pubkey: bitcoin::Address::from_str(address)
                .unwrap()
                .require_network(bitcoin::Network::Bitcoin)
                .unwrap()
                .script_pubkey(),
        })
        .collect();
    let tx = bitcoin::Transaction {
        version: bitcoin::transaction::Version(1),
        lock_time: bitcoin::absolute::LockTime::ZERO,
        input,
        output,
    };
    bitcoin::consensus::encode::serialize_hex(&tx)
}

#[test]
fn the_constants_of_a_settlement_are_fixed() {
    assert_eq!(ESTIMATED_MINER_FEE, 300);
    assert_eq!(ASSET_OUTPUT_VALUE, 1);
    assert_eq!(TX_VERSION, 1);
    assert_eq!(FINAL_SEQUENCE, u32::MAX);
}

#[test]
fn payouts_give_the_remainder_back_as_change() {
    let fees = ListingFees::calculate(10000, TipTier::TwoAndHalf);
    // Committed: 1 + 10000 + 100 + 250 + 300.
    assert_eq!(
        plan_payouts(&fees, 20000),
        Ok(Payouts { seller: 10000, fee: Some(350), change: Some(9349) })
    );
}

#[test]
fn change_of_exactly_the_dust_threshold_is_paid_out() {
    let fees = ListingFees::calculate(10000, TipTier::Zero);
    let committed: u128 = 1 + 10000 + 100 + 300;
    assert_eq!(
        plan_payouts(&fees, committed + 546),
        Ok(Payouts { seller: 10000, fee: Some(100), change: Some(546) })
    );
    assert_eq!(DUST_THRESHOLD, 546);
}

#[test]
fn change_of_one_below_the_dust_threshold_is_dropped() {
    let fees = ListingFees::calculate(10000, TipTier::Zero);
    let committed: u128 = 1 + 10000 + 100 + 300;
    assert_eq!(
        plan_payouts(&fees, committed + 545),
        Ok(Payouts { seller: 10000, fee: Some(100), change: None })
    );
    assert_eq!(
        plan_payouts(&fees, committed),
        Ok(Payouts { seller: 10000, fee: Some(100), change: None })
    );
    assert_eq!(
        plan_payouts(&fees, committed + 1),
        Ok(Payouts { seller: 10000, fee: Some(100), change: None })
    );
}

#[test]
fn payouts_fail_where_the_inputs_do_not_cover_them() {
    let fees = ListingFees::calculate(10000, TipTier::Zero);
    assert_eq!(plan_payouts(&fees, 10400), Err(MarketError::Underfunded));
    assert_eq!(plan_payouts(&fees, 0), Err(MarketError::Underfunded));
    assert!(plan_payouts(&fees, 10401).is_ok());
}

#[test]
fn payouts_without_a_fee_have_no_fee_output() {
    let fees = ListingFees::calculate(0, TipTier::Five);
    assert_eq!(plan_payouts(&fees, 301), Ok(Payouts { seller: 0, fee: None, change: None }));
    assert_eq!(
        plan_payouts(&fees, 1301),
        Ok(Payouts { seller: 0, fee: None, change: Some(1000) })
    );
}

#[test]
fn payouts_refuse_inputs_beyond_the_amount_type() {
    let fees = ListingFees::calculate(10000, TipTier::Zero);
    assert_eq!(plan_payouts(&fees, u64::MAX as u128 + 1), Err(MarketError::InvalidArgument));
    assert_eq!(plan_payouts(&fees, u128::MAX), Err(MarketError::InvalidArgument));
    assert_eq!(
        plan_payouts(&fees, u64::MAX as u128),
        Ok(Payouts { seller: 10000, fee: Some(100), change: Some(u64::MAX - 10401) })
    );
}

#[test]
fn payouts_bear_fees_that_were_not_computed() {
    let odd = ListingFees {
        seller_receives: u64::MAX,
        marketplace_fee: u64::MAX,
        tip_amount: u64::MAX,
        tip: TipTier::Five,
        total_price: 0,
    };
    assert_eq!(plan_payouts(&odd, u64::MAX as u128), Err(MarketError::Underfunded));
    // A shortfall is a shortfall, also where the inputs are beyond the amount type.
    assert_eq!(plan_payouts(&odd, u64::MAX as u128 + 5), Err(MarketError::Underfunded));
    assert_eq!(plan_payouts(&odd, 3 * (u64::MAX as u128) + 300), Err(MarketError::Underfunded));
    assert_eq!(
        plan_payouts(&odd, 3 * (u64::MAX as u128) + 301),
        Err(MarketError::InvalidArgument)
    );
}

#[test]
fn payouts_conserve_value() {
    let tiers = [TipTier::Zero, TipTier::TwoAndHalf, TipTier::Five];
    for wants in [0u64, 1, 99, 100, 546, 10_000, 123_456] {
        for tip in tiers {
            let fees = ListingFees::calculate(wants, tip);
            let mut total: u128 = 0;
            while total < 200_000 {
                if let Ok(p) = plan_payouts(&fees, total) {
                    let paid = 1 + p.seller + p.fee.unwrap_or(0) + p.change.unwrap_or(0);
                    assert!(paid as u128 + 300 <= total);
                    assert_eq!(p.seller, wants);
                    assert_eq!(p.fee.unwrap_or(0), fees.marketplace_fee + fees.tip_amount);
                    let left = total - (1 + wants + fees.marketplace_fee + fees.tip_amount + 300) as u128;
                    assert_eq!(p.change, if left >= 546 { Some(left as u64) } else { None });
                } else {
                    assert!(total < (1 + wants + fees.marketplace_fee + fees.tip_amount + 300) as u128);
                }
                total += 911;
            }
        }
    }
}

#[test]
fn the_inputs_are_worth_their_sum() {
    assert_eq!(total_input_value(1, &funding(&[])), 1);
    assert_eq!(total_input_value(1, &funding(&[6000, 5000, 600])), 11601);
    assert_eq!(
        total_input_value(u64::MAX, &funding(&[u64::MAX, u64::MAX])),
        3 * (u64::MAX as u128)
    );
}

#[test]
fn a_settlement_has_its_fixed_layout() {
    let l = listing(10000, TipTier::TwoAndHalf);
    let f = funding(&[6000, 5000, 600]);
    let s = assemble_settlement(&l, Some([9; 32]), &f, scripts()).unwrap();
    // Inputs are worth 11601; committed are 1 + 10000 + 350 + 300.
    assert_eq!(
        s,
        Settlement {
            tx: SettlementTx {
                version: 1,
                lock_time: 0,
                inputs: vec![
                    unsigned([9; 32], 2),
                    unsigned([1; 32], 1),
                    unsigned([2; 32], 2),
                    unsigned([3; 32], 3),
                ],
                outputs: vec![
                    out(1, &[0xa1]),
                    out(10000, &[0xb2, 0xb2]),
                    out(350, &[0xc3, 0xc3, 0xc3]),
                    out(950, &[0xd4]),
                ],
            },
            sig_requests: vec![
                SigRequest {
                    input_index: 1,
                    prev_txid: txid_text(1),
                    prev_vout: 1,
                    satoshis: 6000,
                    script_hex: utxo(1, 0).script_hex,
                },
                SigRequest {
                    input_index: 2,
                    prev_txid: txid_text(2),
                    prev_vout: 2,
                    satoshis: 5000,
                    script_hex: utxo(2, 0).script_hex,
                },
                SigRequest {
                    input_index: 3,
                    prev_txid: txid_text(3),
                    prev_vout: 3,
                    satoshis: 600,
                    script_hex: utxo(3, 0).script_hex,
                },
            ],
        }
    );
}

#[test]
fn a_settlement_counts_the_value_of_the_asset_output() {
    let mut l = listing(10000, TipTier::Zero);
    l.ordinal_utxo.satoshis = 1000;
    // Inputs: 1000 + 10401 - 1 + 546 - 1000 leaves exactly the dust threshold.
    let s = assemble_settlement(&l, Some([9; 32]), &funding(&[9947]), scripts()).unwrap();
    assert_eq!(s.tx.outputs.last(), Some(&out(546, &[0xd4])));
    let s = assemble_settlement(&l, Some([9; 32]), &funding(&[9946]), scripts()).unwrap();
    assert_eq!(s.tx.outputs.len(), 3);
    assert_eq!(s.tx.outputs.last(), Some(&out(100, &[0xc3, 0xc3, 0xc3])));
}

#[test]
fn a_settlement_without_fee_and_change_has_two_outputs() {
    let l = listing(0, TipTier::Zero);
    let s = assemble_settlement(&l, Some([9; 32]), &funding(&[600]), scripts()).unwrap();
    assert_eq!(s.tx.outputs, vec![out(1, &[0xa1]), out(0, &[0xb2, 0xb2])]);
    assert_eq!(s.tx.inputs.len(), 2);
    assert_eq!(s.sig_requests.len(), 1);
}

#[test]
fn a_settlement_of_the_asset_alone_asks_for_no_signature() {
    let mut l = listing(0, TipTier::Zero);
    l.ordinal_utxo.satoshis = 301;
    let s = assemble_settlement(&l, Some([9; 32]), &vec![], scripts()).unwrap();
    assert_eq!(s.tx.inputs, vec![unsigned([9; 32], 2)]);
    assert!(s.sig_requests.is_empty());
}

#[test]
fn a_settlement_fails_where_it_is_underfunded() {
    let l = listing(10000, TipTier::Zero);
    let r = assemble_settlement(&l, Some([9; 32]), &funding(&[6000, 4399]), scripts());
    assert_eq!(r, Err(MarketError::Underfunded));
    assert!(assemble_settlement(&l, Some([9; 32]), &funding(&[6000, 4400]), scripts()).is_ok());
    assert_eq!(
        assemble_settlement(&l, Some([9; 32]), &vec![], scripts()),
        Err(MarketError::Underfunded)
    );
}

#[test]
fn a_settlement_needs_every_transaction_id() {
    let l = listing(10000, TipTier::Zero);
    let f = funding(&[20000]);
    assert_eq!(assemble_settlement(&l, None, &f, scripts()), Err(MarketError::InvalidArgument));
    let mut broken = funding(&[10000, 10000]);
    broken[1].txid = None;
    assert_eq!(
        assemble_settlement(&l, Some([9; 32]), &broken, scripts()),
        Err(MarketError::InvalidArgument)
    );
}

#[test]
fn a_settlement_needs_the_addresses_it_pays_to() {
    let l = listing(10000, TipTier::Zero);
    let f = funding(&[20000]);
    let without = |change: fn(&mut PartyScripts)| {
        let mut s = scripts();
        change(&mut s);
        assemble_settlement(&l, Some([9; 32]), &f, s)
    };
    assert_eq!(without(|s| s.buyer_asset = None), Err(MarketError::InvalidAddress));
    assert_eq!(without(|s| s.seller = None), Err(MarketError::InvalidAddress));
    assert_eq!(without(|s| s.fee_recipient = None), Err(MarketError::InvalidAddress));
    assert_eq!(without(|s| s.buyer_change = None), Err(MarketError::InvalidAddress));
}

#[test]
fn a_settlement_does_not_need_the_addresses_it_does_not_pay_to() {
    // No fee and no change: neither address is looked at.
    let l = listing(0, TipTier::Zero);
    let mut s = scripts();
    s.fee_recipient = None;
    s.buyer_change = None;
    let r = assemble_settlement(&l, Some([9; 32]), &funding(&[845]), s).unwrap();
    assert_eq!(r.tx.outputs.len(), 2);
    // One unit more and there is change, which needs its address.
    let mut s = scripts();
    s.fee_recipient = None;
    s.buyer_change = None;
    assert_eq!(
        assemble_settlement(&l, Some([9; 32]), &funding(&[846]), s),
        Err(MarketError::InvalidAddress)
    );
}

#[test]
fn a_bad_transaction_id_is_reported_before_a_bad_address() {
    let l = listing(10000, TipTier::Zero);
    let mut s = scripts();
    s.buyer_asset = None;
    assert_eq!(
        assemble_settlement(&l, None, &funding(&[1]), s),
        Err(MarketError::InvalidArgument)
    );
}

#[test]
fn a_shortfall_is_underfunded_whatever_the_inputs_are_worth() {
    let odd = Listing {
        fees: ListingFees {
            seller_receives: u64::MAX,
            marketplace_fee: u64::MAX,
            tip_amount: u64::MAX,
            tip: TipTier::Five,
            total_price: 0,
        },
        ..listing(0, TipTier::Zero)
    };
    // The inputs are worth more than the amount type holds, and still too little.
    let r = assemble_settlement(&odd, Some([9; 32]), &funding(&[u64::MAX, u64::MAX]), scripts());
    assert_eq!(r, Err(MarketError::Underfunded));
    // Inputs that cover the outputs but are beyond the amount type are refused as such.
    let l = listing(10000, TipTier::Zero);
    let r = assemble_settlement(&l, Some([9; 32]), &funding(&[u64::MAX, u64::MAX]), scripts());
    assert_eq!(r, Err(MarketError::InvalidArgument));
}

#[test]
fn a_missing_change_address_is_reported_after_underfunding() {
    let l = listing(10000, TipTier::Zero);
    let mut s = scripts();
    s.buyer_change = None;
    assert_eq!(
        assemble_settlement(&l, Some([9; 32]), &funding(&[1000]), s),
        Err(MarketError::Underfunded)
    );
}

#[test]
fn a_purchase_transaction_is_what_the_bitcoin_crate_encodes() {
    let l = listing(10000, TipTier::TwoAndHalf);
    let f = vec![utxo(1, 6000), utxo(2, 5000), utxo(3, 600)];
    let r = build_purchase_tx(&l, BUYER_ORD, BUYER_PAY, f.clone(), MARKET).unwrap();
    let expected = reference_hex(
        &l,
        &f,
        &[(1, BUYER_ORD), (10000, SELLER), (350, MARKET), (950, BUYER_PAY)],
    );
    assert_eq!(r.raw_tx_hex, expected);
    assert_eq!(r.sig_requests.len(), 3);
    assert_eq!(
        r.sig_requests[2],
        SigRequest {
            input_index: 3,
            prev_txid: txid_text(3),
            prev_vout: 3,
            satoshis: 600,
            script_hex: utxo(3, 0).script_hex,
        }
    );
}

#[test]
fn a_purchase_transaction_has_these_bytes() {
    let mut l = listing(0, TipTier::Zero);
    l.ordinal_utxo.satoshis = 301;
    let r = build_purchase_tx(&l, SELLER, BUYER_PAY, vec![], MARKET).unwrap();
    // The asset's transaction id on the wire is its text backwards, byte by byte.
    let pay_to_seller = "1976a91462e907b15cbf27d5425399ebf6f0fb50ebb88f1888ac";
    let expected = [
        "01000000",
        "01",
        "3ba3edfd7a7b12b27ac72c3e67768f617fc81bc3888a51323a9fb8aa4b1e5e4a",
        "02000000",
        "00",
        "ffffffff",
        "02",
        "0100000000000000",
        pay_to_seller,
        "0000000000000000",
        pay_to_seller,
        "00000000",
    ]
    .concat();
    assert_eq!(r.raw_tx_hex, expected);
    assert!(r.sig_requests.is_empty());
}

#[test]
fn a_purchase_transaction_decodes_to_its_parts() {
    let l = listing(10000, TipTier::Zero);
    let f = vec![utxo(1, 6000), utxo(2, 5000)];
    let r = build_purchase_tx(&l, BUYER_ORD, BUYER_PAY, f, MARKET).unwrap();
    let bytes = hex::decode(&r.raw_tx_hex).unwrap();
    let tx: bitcoin::Transaction = bitcoin::consensus::deserialize(&bytes).unwrap();
    assert_eq!(tx.version, bitcoin::transaction::Version(1));
    assert_eq!(tx.lock_time, bitcoin::absolute::LockTime::ZERO);
    assert_eq!(tx.input.len(), 3);
    assert_eq!(tx.input[0].previous_output.txid.to_string(), ASSET_TXID);
    assert_eq!(tx.input[0].previous_output.vout, 2);
    assert_eq!(tx.input[1].previous_output.txid.to_byte_array(), [1; 32]);
    assert_eq!(tx.input[2].previous_output.txid.to_string(), txid_text(2));
    for input in &tx.input {
        assert!(input.script_sig.is_empty());
        assert!(input.witness.is_empty());
        assert_eq!(input.sequence, bitcoin::Sequence::MAX);
    }
    let values: Vec<u64> = tx.output.iter().map(|o| o.value.to_sat()).collect();
    // Inputs 11001, committed 10401, change 600.
    assert_eq!(values, vec![1, 10000, 100, 600]);
    let paid: u64 = values.iter().sum();
    assert!(paid + 300 <= 11001);
    assert!(tx.output[1].script_pubkey.is_p2pkh());
    assert!(tx.output[2].script_pubkey.is_p2wpkh());
    assert!(tx.output[3].script_pubkey.is_p2sh());
}

#[test]
fn a_purchase_with_a_malformed_address_fails() {
    let l = listing(10000, TipTier::Zero);
    let f = vec![utxo(1, 20000)];
    let bad = "not an address";
    assert_eq!(
        build_purchase_tx(&l, bad, BUYER_PAY, f.clone(), MARKET),
        Err(MarketError::InvalidAddress)
    );
    assert_eq!(
        build_purchase_tx(&l, BUYER_ORD, bad, f.clone(), MARKET),
        Err(MarketError::InvalidAddress)
    );
    assert_eq!(
        build_purchase_tx(&l, BUYER_ORD, BUYER_PAY, f.clone(), ""),
        Err(MarketError::InvalidAddress)
    );
    let mut strange_seller = listing(10000, TipTier::Zero);
    strange_seller.seller_address = "1A1zP1eP5QGefi2DMPTfTL5SLmv7DivfNb".to_string();
    assert_eq!(
        build_purchase_tx(&strange_seller, BUYER_ORD, BUYER_PAY, f, MARKET),
        Err(MarketError::InvalidAddress)
    );
}

#[test]
fn a_purchase_with_an_address_of_another_network_fails() {
    let l = listing(10000, TipTier::Zero);
    let f = vec![utxo(1, 20000)];
    assert_eq!(
        build_purchase_tx(&l, TESTNET, BUYER_PAY, f, MARKET),
        Err(MarketError::InvalidAddress)
    );
}

#[test]
fn a_purchase_with_a_malformed_transaction_id_fails() {
    let mut l = listing(10000, TipTier::Zero);
    let mut f = vec![utxo(1, 20000)];
    f[0].txid = "abc".to_string();
    assert_eq!(
        build_purchase_tx(&l, BUYER_ORD, BUYER_PAY, f, MARKET),
        Err(MarketError::InvalidArgument)
    );
    l.ordinal_utxo.txid = format!("{}zz", &ASSET_TXID[2..]);
    assert_eq!(
        build_purchase_tx(&l, BUYER_ORD, BUYER_PAY, vec![utxo(1, 20000)], MARKET),
        Err(MarketError::InvalidArgument)
    );
}

#[test]
fn a_purchase_with_too_little_funding_is_underfunded() {
    let l = listing(10000, TipTier::Zero);
    assert_eq!(
        build_purchase_tx(&l, BUYER_ORD, BUYER_PAY, vec![utxo(1, 10399)], MARKET),
        Err(MarketError::Underfunded)
    );
    assert!(build_purchase_tx(&l, BUYER_ORD, BUYER_PAY, vec![utxo(1, 10400)], MARKET).is_ok());
}
