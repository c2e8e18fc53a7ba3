//! Assembling the unsigned settlement transaction.
//!
//! The transaction moves the asset to the buyer and the payment to the seller
//! and to the marketplace in one step. Its layout is fixed: the asset's
//! output is the first input and the buyer's funding outputs follow; the
//! asset goes out first, then the seller's payment, then the marketplace's
//! share if there is one, then the buyer's change if it is worth an output.

use crate::chain::{
    address_script, address_script_of, consensus_encode, consensus_encoding, encode_hex,
    hex_encoded, parse_txid, txid_bytes_of, SettlementTx, SettlementTxView, TxInput, TxInputView,
    TxOutput, TxOutputView,
};
use crate::error::MarketError;
use crate::fees::ListingFees;
use crate::models::{BuyerUtxo, BuyerUtxoView, Listing, ListingView};
use vstd::prelude::*;

verus! {

/// The least change that is worth an output of its own.
pub const DUST_THRESHOLD: u64 = 546;

/// What the assembler sets aside for the miner.
pub const ESTIMATED_MINER_FEE: u64 = 300;

/// The value of the output that carries the asset to the buyer.
pub const ASSET_OUTPUT_VALUE: u64 = 1;

/// The version of the settlement transaction.
pub const TX_VERSION: i32 = 1;

/// The sequence number of every input: final.
pub const FINAL_SEQUENCE: u32 = 0xffff_ffff;

/// A funding output together with its transaction id as the wire wants it,
/// where the id parses.
#[derive(Debug, PartialEq, Eq)]
pub struct FundingInput {
    pub utxo: BuyerUtxo,
    pub txid: Option<[u8; 32]>,
}

/// A `FundingInput` as a value of the model.
pub struct FundingInputView {
    pub utxo: BuyerUtxoView,
    pub txid: Option<Seq<u8>>,
}

impl View for FundingInput {
    type V = FundingInputView;

    open spec fn view(&self) -> FundingInputView {
        FundingInputView { utxo: self.utxo@, txid: self.txid.deep_view() }
    }
}

impl DeepView for FundingInput {
    type V = FundingInputView;

    open spec fn deep_view(&self) -> FundingInputView {
        self@
    }
}

/// The locking scripts of the four parties of a settlement, each where its
/// address parses.
#[derive(Debug, PartialEq, Eq)]
pub struct PartyScripts {
    /// Where the asset goes.
    pub buyer_asset: Option<Vec<u8>>,
    /// Where the seller's payment goes.
    pub seller: Option<Vec<u8>>,
    /// Where the marketplace's fee and the tip go.
    pub fee_recipient: Option<Vec<u8>>,
    /// Where the buyer's change goes.
    pub buyer_change: Option<Vec<u8>>,
}

/// `PartyScripts` as a value of the model.
pub struct PartyScriptsView {
    pub buyer_asset: Option<Seq<u8>>,
    pub seller: Option<Seq<u8>>,
    pub fee_recipient: Option<Seq<u8>>,
    pub buyer_change: Option<Seq<u8>>,
}

impl View for PartyScripts {
    type V = PartyScriptsView;

    open spec fn view(&self) -> PartyScriptsView {
        PartyScriptsView {
            buyer_asset: self.buyer_asset.deep_view(),
            seller: self.seller.deep_view(),
            fee_recipient: self.fee_recipient.deep_view(),
            buyer_change: self.buyer_change.deep_view(),
        }
    }
}

/// What an external signer needs to sign one of the buyer's inputs: the
/// input's place in the transaction, and the output it spends.
#[derive(Debug, PartialEq, Eq)]
pub struct SigRequest {
    pub input_index: u32,
    pub prev_txid: String,
    pub prev_vout: u32,
    pub satoshis: u64,
    pub script_hex: String,
}

/// A `SigRequest` with its text as sequences of characters.
pub struct SigRequestView {
    pub input_index: u32,
    pub prev_txid: Seq<char>,
    pub prev_vout: u32,
    pub satoshis: u64,
    pub script_hex: Seq<char>,
}

impl View for SigRequest {
    type V = SigRequestView;

    open spec fn view(&self) -> SigRequestView {
        SigRequestView {
            input_index: self.input_index,
            prev_txid: self.prev_txid@,
            prev_vout: self.prev_vout,
            satoshis: self.satoshis,
            script_hex: self.script_hex@,
        }
    }
}

impl DeepView for SigRequest {
    type V = SigRequestView;

    open spec fn deep_view(&self) -> SigRequestView {
        self@
    }
}

/// The unsigned settlement: the transaction, and one signature request for
/// each input that the buyer funds.
#[derive(Debug, PartialEq, Eq)]
pub struct Settlement {
    pub tx: SettlementTx,
    pub sig_requests: Vec<SigRequest>,
}

/// A `Settlement` as a value of the model.
pub struct SettlementView {
    pub tx: SettlementTxView,
    pub sig_requests: Seq<SigRequestView>,
}

impl View for Settlement {
    type V = SettlementView;

    open spec fn view(&self) -> SettlementView {
        SettlementView { tx: self.tx@, sig_requests: self.sig_requests.deep_view() }
    }
}

/// The unsigned settlement as it is handed to the caller: the transaction in
/// hex, and the signature requests.
#[derive(Debug, PartialEq, Eq)]
pub struct PreparePurchaseResponse {
    pub raw_tx_hex: String,
    pub sig_requests: Vec<SigRequest>,
}

/// The values of the outputs that follow the asset's.
#[derive(Clone, Copy, Debug, PartialEq, Eq)]
pub struct Payouts {
    /// What the seller receives.
    pub seller: u64,
    /// The marketplace's fee and the tip together, where they are not zero.
    pub fee: Option<u64>,
    /// The buyer's change, where it is worth an output.
    pub change: Option<u64>,
}

/// The sum of the values of the funding outputs.
pub open spec fn funding_total(funding: Seq<FundingInputView>) -> nat
    decreases funding.len(),
{
    if funding.len() == 0 {
        0
    } else {
        funding_total(funding.drop_last()) + funding.last().utxo.satoshis as nat
    }
}

/// The marketplace's fee and the tip together.
pub open spec fn fee_share(fees: ListingFees) -> nat {
    (fees.marketplace_fee + fees.tip_amount) as nat
}

/// What the inputs have to cover before any change: the asset's output, the
/// seller's payment, the marketplace's share, and the miner fee.
pub open spec fn committed(fees: ListingFees) -> nat {
    (ASSET_OUTPUT_VALUE + fees.seller_receives + fee_share(fees) + ESTIMATED_MINER_FEE) as nat
}

/// The payouts for a listing's fees from inputs worth `total_input`.
///
/// Inputs that do not cover what is committed are refused with
/// `Underfunded`, whatever else holds of them. Inputs that cover it but are
/// worth more than the amount type holds are refused with `InvalidArgument`.
/// What is left over is the change: it is paid out where it reaches the dust
/// threshold, and left to the miner where it does not.
pub open spec fn spec_plan_payouts(fees: ListingFees, total_input: nat) -> Result<
    Payouts,
    MarketError,
> {
    if total_input < committed(fees) {
        Err(MarketError::Underfunded)
    } else if total_input > u64::MAX {
        Err(MarketError::InvalidArgument)
    } else {
        let remainder = total_input - committed(fees);
        Ok(
            Payouts {
                seller: fees.seller_receives,
                fee: if fee_share(fees) > 0 {
                    Some(fee_share(fees) as u64)
                } else {
                    None
                },
                change: if remainder >= DUST_THRESHOLD {
                    Some(remainder as u64)
                } else {
                    None
                },
            },
        )
    }
}

/// The sum of the values of all outputs of a settlement with these payouts.
pub open spec fn payout_total(p: Payouts) -> nat {
    (ASSET_OUTPUT_VALUE + p.seller + (match p.fee {
        Some(v) => v,
        None => 0,
    }) + (match p.change {
        Some(v) => v,
        None => 0,
    })) as nat
}

/// The outputs never take more than the inputs give: in every settlement the
/// values of the outputs and the miner fee together are at most the value
/// of the inputs, and each output's value is one the amount type holds.
pub proof fn law_value_is_conserved(fees: ListingFees, total_input: nat)
    requires
        spec_plan_payouts(fees, total_input) is Ok,
    ensures
        payout_total(spec_plan_payouts(fees, total_input).unwrap()) + ESTIMATED_MINER_FEE
            <= total_input,
        total_input <= u64::MAX,
        spec_plan_payouts(fees, total_input).unwrap().fee matches Some(v) ==> v == fee_share(fees),
        spec_plan_payouts(fees, total_input).unwrap().fee is None ==> fee_share(fees) == 0,
{
}

/// The dust rule: the change is paid out exactly where what is left over
/// reaches the dust threshold, and then all of it is; below the threshold
/// there is no change output.
pub proof fn law_dust_rule(fees: ListingFees, total_input: nat)
    requires
        spec_plan_payouts(fees, total_input) is Ok,
    ensures
        ({
            let remainder = total_input - committed(fees);
            let change = spec_plan_payouts(fees, total_input).unwrap().change;
            &&& remainder >= 0
            &&& remainder >= DUST_THRESHOLD ==> change == Some(remainder as u64)
            &&& remainder < DUST_THRESHOLD ==> change is None
            &&& remainder == DUST_THRESHOLD - 1 ==> change is None
            &&& remainder == DUST_THRESHOLD ==> change == Some(DUST_THRESHOLD)
        }),
{
}

/// Computes the payouts for a listing's fees from inputs worth
/// `total_input`: see `spec_plan_payouts`.
pub fn plan_payouts(fees: &ListingFees, total_input: u128) -> (r: Result<Payouts, MarketError>)
    ensures
        r == spec_plan_payouts(*fees, total_input as nat),
{
    let share: u128 = fees.marketplace_fee as u128 + fees.tip_amount as u128;
    let needed: u128 = ASSET_OUTPUT_VALUE as u128 + fees.seller_receives as u128 + share
        + ESTIMATED_MINER_FEE as u128;
    if total_input < needed {
        return Err(MarketError::Underfunded);
    }
    if total_input > u64::MAX as u128 {
        return Err(MarketError::InvalidArgument);
    }
    let remainder: u128 = total_input - needed;
    let fee = if share > 0 {
        Some(share as u64)
    } else {
        None
    };
    let change = if remainder >= DUST_THRESHOLD as u128 {
        Some(remainder as u64)
    } else {
        None
    };
    Ok(Payouts { seller: fees.seller_receives, fee, change })
}

/// An unsigned input that spends the output `vout` of a transaction.
pub open spec fn unsigned_input(txid: Seq<u8>, vout: u32) -> TxInputView {
    TxInputView { txid, vout, script_sig: Seq::empty(), sequence: FINAL_SEQUENCE }
}

/// The inputs of a settlement: the asset's output first, then the funding
/// outputs in their order, none with an unlocking script.
pub open spec fn settlement_inputs(
    asset_txid: Seq<u8>,
    asset_vout: u32,
    funding: Seq<FundingInputView>,
) -> Seq<TxInputView> {
    Seq::new(
        funding.len() + 1,
        |i: int|
            if i == 0 {
                unsigned_input(asset_txid, asset_vout)
            } else {
                unsigned_input(funding[i - 1].txid.unwrap(), funding[i - 1].utxo.vout)
            },
    )
}

/// The outputs of a settlement: the asset to the buyer, the payment to the
/// seller, the marketplace's share if there is one, and the buyer's change
/// if there is one.
pub open spec fn settlement_outputs(p: Payouts, scripts: PartyScriptsView) -> Seq<TxOutputView> {
    let fixed = seq![
        TxOutputView { value: ASSET_OUTPUT_VALUE, script_pubkey: scripts.buyer_asset.unwrap() },
        TxOutputView { value: p.seller, script_pubkey: scripts.seller.unwrap() },
    ];
    let with_fee = match p.fee {
        Some(v) => fixed.push(
            TxOutputView { value: v, script_pubkey: scripts.fee_recipient.unwrap() },
        ),
        None => fixed,
    };
    match p.change {
        Some(v) => with_fee.push(
            TxOutputView { value: v, script_pubkey: scripts.buyer_change.unwrap() },
        ),
        None => with_fee,
    }
}

/// The signature request for the funding output at place `i`: its input
/// stands one place later, after the asset's.
pub open spec fn sig_request_for(funding: Seq<FundingInputView>, i: int) -> SigRequestView {
    SigRequestView {
        input_index: (i + 1) as u32,
        prev_txid: funding[i].utxo.txid,
        prev_vout: funding[i].utxo.vout,
        satoshis: funding[i].utxo.satoshis,
        script_hex: funding[i].utxo.script_hex,
    }
}

/// The signature requests of a settlement: one for each funding output, in
/// their order, and none for the asset's input.
pub open spec fn sig_requests_for(funding: Seq<FundingInputView>) -> Seq<SigRequestView> {
    Seq::new(funding.len(), |i: int| sig_request_for(funding, i))
}

/// Whether every funding output has a transaction id that parsed.
pub open spec fn all_resolved(funding: Seq<FundingInputView>) -> bool {
    forall|i: int| 0 <= i < funding.len() ==> (#[trigger] funding[i]).txid is Some
}

/// The settlement for a listing, or the reason there is none.
///
/// The checks are made in this order. A transaction id that did not parse
/// gives `InvalidArgument`. A buyer's or seller's address that did not parse
/// gives `InvalidAddress`, and so does the fee recipient's where the
/// marketplace's share is not zero. Then the payouts are planned, which
/// fails as `spec_plan_payouts` says: with `Underfunded` wherever the inputs
/// fall short. More funding outputs than an input index can count give
/// `InvalidArgument`. Last, where there is change, the change address has to
/// have parsed, or the result is `InvalidAddress`.
pub open spec fn spec_assemble(
    listing: ListingView,
    asset_txid: Option<Seq<u8>>,
    funding: Seq<FundingInputView>,
    scripts: PartyScriptsView,
) -> Result<SettlementView, MarketError> {
    if asset_txid is None || !all_resolved(funding) {
        Err(MarketError::InvalidArgument)
    } else if scripts.buyer_asset is None || scripts.seller is None {
        Err(MarketError::InvalidAddress)
    } else if fee_share(listing.fees) > 0 && scripts.fee_recipient is None {
        Err(MarketError::InvalidAddress)
    } else {
        match spec_plan_payouts(
            listing.fees,
            listing.ordinal_utxo.satoshis as nat + funding_total(funding),
        ) {
            Err(e) => Err(e),
            Ok(p) => if funding.len() >= u32::MAX {
                Err(MarketError::InvalidArgument)
            } else if p.change is Some && scripts.buyer_change is None {
                Err(MarketError::InvalidAddress)
            } else {
                Ok(
                    SettlementView {
                        tx: SettlementTxView {
                            version: TX_VERSION,
                            lock_time: 0,
                            inputs: settlement_inputs(
                                asset_txid.unwrap(),
                                listing.ordinal_utxo.vout,
                                funding,
                            ),
                            outputs: settlement_outputs(p, scripts),
                        },
                        sig_requests: sig_requests_for(funding),
                    },
                )
            },
        }
    }
}

/// The value of all inputs of a settlement: the asset's output and the
/// funding outputs.
pub fn total_input_value(asset_value: u64, funding: &Vec<FundingInput>) -> (r: u128)
    ensures
        r == asset_value as nat + funding_total(funding.deep_view()),
{
    let ghost all = funding.deep_view();
    let mut total: u128 = asset_value as u128;
    let mut i: usize = 0;
    assert(all.take(0) =~= Seq::<FundingInputView>::empty());
    while i < funding.len()
        invariant
            i <= funding.len(),
            all == funding.deep_view(),
            total == asset_value as nat + funding_total(all.take(i as int)),
            total <= (i + 1) * 0xffff_ffff_ffff_ffff,
        decreases funding.len() - i,
    {
        proof {
            assert(all.take(i + 1).drop_last() =~= all.take(i as int));
            assert((i + 1) * 0xffff_ffff_ffff_ffff + 0xffff_ffff_ffff_ffff == (i + 2)
                * 0xffff_ffff_ffff_ffff) by (nonlinear_arith);
            assert((i + 2) * 0xffff_ffff_ffff_ffff <= 0x1_0000_0000_0000_0000
                * 0xffff_ffff_ffff_ffff) by (nonlinear_arith)
                requires
                    i + 2 <= 0x1_0000_0000_0000_0000,
            ;
        }
        total += funding[i].utxo.satoshis as u128;
        i += 1;
    }
    assert(all.take(i as int) =~= all);
    total
}

/// The transaction ids of the funding outputs, where every one of them
/// parsed.
fn parsed_txids(funding: &Vec<FundingInput>) -> (r: Option<Vec<[u8; 32]>>)
    ensures
        match r {
            Some(ids) => all_resolved(funding.deep_view()) && ids.len() == funding.len()
                && forall|i: int|
                0 <= i < ids.len() ==> funding.deep_view()[i].txid == Some((#[trigger] ids[i])@),
            None => !all_resolved(funding.deep_view()),
        },
{
    let ghost all = funding.deep_view();
    let mut ids: Vec<[u8; 32]> = Vec::new();
    let mut i: usize = 0;
    while i < funding.len()
        invariant
            i <= funding.len(),
            all == funding.deep_view(),
            ids.len() == i,
            forall|j: int| 0 <= j < i ==> all[j].txid == Some((#[trigger] ids[j])@),
        decreases funding.len() - i,
    {
        match funding[i].txid {
            Some(txid) => {
                assert(txid.deep_view() =~= txid@);
                ids.push(txid);
            },
            None => {
                assert(all[i as int].txid is None);
                return None;
            },
        }
        i += 1;
    }
    assert forall|j: int| 0 <= j < all.len() implies (#[trigger] all[j]).txid is Some by {
        assert(all[j].txid == Some(ids[j]@));
    }
    Some(ids)
}

/// The unsigned inputs of a settlement: see `settlement_inputs`.
fn unsigned_inputs(
    asset_txid: [u8; 32],
    asset_vout: u32,
    funding: &Vec<FundingInput>,
    ids: &Vec<[u8; 32]>,
) -> (r: Vec<TxInput>)
    requires
        ids.len() == funding.len(),
        forall|i: int|
            0 <= i < ids.len() ==> funding.deep_view()[i].txid == Some((#[trigger] ids[i])@),
    ensures
        r.deep_view() == settlement_inputs(asset_txid@, asset_vout, funding.deep_view()),
{
    let ghost all = funding.deep_view();
    let ghost planned = settlement_inputs(asset_txid@, asset_vout, all);
    let mut inputs: Vec<TxInput> = Vec::new();
    inputs.push(
        TxInput {
            txid: asset_txid,
            vout: asset_vout,
            script_sig: Vec::new(),
            sequence: FINAL_SEQUENCE,
        },
    );
    let mut i: usize = 0;
    assert(inputs.deep_view() =~= planned.take(1));
    while i < funding.len()
        invariant
            i <= funding.len(),
            ids.len() == funding.len(),
            all == funding.deep_view(),
            planned == settlement_inputs(asset_txid@, asset_vout, all),
            forall|j: int| 0 <= j < ids.len() ==> all[j].txid == Some((#[trigger] ids[j])@),
            inputs.deep_view() == planned.take(i + 1),
        decreases funding.len() - i,
    {
        let ghost before = inputs.deep_view();
        inputs.push(
            TxInput {
                txid: ids[i],
                vout: funding[i].utxo.vout,
                script_sig: Vec::new(),
                sequence: FINAL_SEQUENCE,
            },
        );
        proof {
            assert(all[i as int] == funding[i as int]@);
            assert(all[i as int].txid == Some(ids[i as int]@));
            assert(inputs.deep_view() =~= before.push(planned[i + 1]));
            assert(inputs.deep_view() =~= planned.take(i + 2));
        }
        i += 1;
    }
    assert(planned.take(i + 1) =~= planned);
    inputs
}

/// The signature requests of a settlement: see `sig_requests_for`.
fn signature_requests(funding: &Vec<FundingInput>) -> (r: Vec<SigRequest>)
    requires
        funding.len() < u32::MAX,
    ensures
        r.deep_view() == sig_requests_for(funding.deep_view()),
{
    let ghost all = funding.deep_view();
    let mut requests: Vec<SigRequest> = Vec::new();
    let mut i: usize = 0;
    assert(requests.deep_view() =~= sig_requests_for(all).take(0));
    while i < funding.len()
        invariant
            i <= funding.len() < u32::MAX,
            all == funding.deep_view(),
            requests.deep_view() == sig_requests_for(all).take(i as int),
        decreases funding.len() - i,
    {
        let source = &funding[i];
        let ghost before = requests.deep_view();
        requests.push(
            SigRequest {
                input_index: (i + 1) as u32,
                prev_txid: source.utxo.txid.clone(),
                prev_vout: source.utxo.vout,
                satoshis: source.utxo.satoshis,
                script_hex: source.utxo.script_hex.clone(),
            },
        );
        proof {
            assert(all[i as int] == source@);
            assert(requests.deep_view() =~= before.push(sig_request_for(all, i as int)));
            assert(requests.deep_view() =~= sig_requests_for(all).take(i + 1));
        }
        i += 1;
    }
    assert(sig_requests_for(all).take(i as int) =~= sig_requests_for(all));
    requests
}

/// Lays out the settlement for a listing from what the addresses and the
/// transaction ids parsed to: see `spec_assemble`.
///
/// Input 0 is the asset's output and the funding outputs follow in their
/// order; no input carries an unlocking script. The signature requests name
/// the funding inputs only. Inputs that do not cover the outputs and the
/// miner fee give `Underfunded`, never a transaction.
pub fn assemble_settlement(
    listing: &Listing,
    asset_txid: Option<[u8; 32]>,
    funding: &Vec<FundingInput>,
    scripts: PartyScripts,
) -> (r: Result<Settlement, MarketError>)
    ensures
        match spec_assemble(listing@, asset_txid.deep_view(), funding.deep_view(), scripts@) {
            Ok(s) => r matches Ok(x) && x@ == s,
            Err(e) => r == Err::<Settlement, MarketError>(e),
        },
{
    let asset_txid = match asset_txid {
        Some(txid) => txid,
        None => {
            return Err(MarketError::InvalidArgument);
        },
    };
    assert(asset_txid.deep_view() =~= asset_txid@);
    let ids = match parsed_txids(funding) {
        Some(ids) => ids,
        None => {
            return Err(MarketError::InvalidArgument);
        },
    };
    let ghost party = scripts@;
    let buyer_asset = match scripts.buyer_asset {
        Some(script) => script,
        None => {
            return Err(MarketError::InvalidAddress);
        },
    };
    let seller = match scripts.seller {
        Some(script) => script,
        None => {
            return Err(MarketError::InvalidAddress);
        },
    };
    let share_is_zero = listing.fees.marketplace_fee == 0 && listing.fees.tip_amount == 0;
    if !share_is_zero && scripts.fee_recipient.is_none() {
        return Err(MarketError::InvalidAddress);
    }
    let total_input = total_input_value(listing.ordinal_utxo.satoshis, funding);
    let payouts = match plan_payouts(&listing.fees, total_input) {
        Ok(payouts) => payouts,
        Err(e) => {
            return Err(e);
        },
    };
    if funding.len() >= u32::MAX as usize {
        return Err(MarketError::InvalidArgument);
    }
    if payouts.change.is_some() && scripts.buyer_change.is_none() {
        return Err(MarketError::InvalidAddress);
    }
    let inputs = unsigned_inputs(asset_txid, listing.ordinal_utxo.vout, funding, &ids);
    let sig_requests = signature_requests(funding);
    let ghost planned_outputs = settlement_outputs(payouts, party);
    proof {
        assert(buyer_asset.deep_view() =~= buyer_asset@);
        assert(seller.deep_view() =~= seller@);
    }
    let mut outputs: Vec<TxOutput> = Vec::new();
    outputs.push(TxOutput { value: ASSET_OUTPUT_VALUE, script_pubkey: buyer_asset });
    outputs.push(TxOutput { value: payouts.seller, script_pubkey: seller });
    match payouts.fee {
        Some(value) => {
            match scripts.fee_recipient {
                Some(script) => {
                    assert(script.deep_view() =~= script@);
                    outputs.push(TxOutput { value, script_pubkey: script });
                },
                None => {},
            }
        },
        None => {},
    }
    match payouts.change {
        Some(value) => {
            match scripts.buyer_change {
                Some(script) => {
                    assert(script.deep_view() =~= script@);
                    outputs.push(TxOutput { value, script_pubkey: script });
                },
                None => {},
            }
        },
        None => {},
    }
    assert(outputs.deep_view() =~= planned_outputs);
    let tx = SettlementTx { version: TX_VERSION, lock_time: 0, inputs, outputs };
    Ok(Settlement { tx, sig_requests })
}

/// The funding outputs, each with what its transaction id parses to.
pub open spec fn resolved(funding: Seq<BuyerUtxoView>) -> Seq<FundingInputView> {
    Seq::new(
        funding.len(),
        |i: int| FundingInputView { utxo: funding[i], txid: txid_bytes_of(funding[i].txid) },
    )
}

/// The scripts of the four parties, each as its address parses.
pub open spec fn scripts_of(
    buyer_ord_address: Seq<char>,
    seller_address: Seq<char>,
    marketplace_fee_address: Seq<char>,
    buyer_payment_address: Seq<char>,
) -> PartyScriptsView {
    PartyScriptsView {
        buyer_asset: address_script_of(buyer_ord_address),
        seller: address_script_of(seller_address),
        fee_recipient: address_script_of(marketplace_fee_address),
        buyer_change: address_script_of(buyer_payment_address),
    }
}

/// The settlement for a purchase, from the addresses and transaction ids as
/// text: `spec_assemble` on what they parse to.
pub open spec fn spec_build_purchase_tx(
    listing: ListingView,
    buyer_ord_address: Seq<char>,
    buyer_payment_address: Seq<char>,
    buyer_utxos: Seq<BuyerUtxoView>,
    marketplace_fee_address: Seq<char>,
) -> Result<SettlementView, MarketError> {
    spec_assemble(
        listing,
        txid_bytes_of(listing.ordinal_utxo.txid),
        resolved(buyer_utxos),
        scripts_of(
            buyer_ord_address,
            listing.seller_address,
            marketplace_fee_address,
            buyer_payment_address,
        ),
    )
}

/// Parses the transaction id of every funding output.
fn resolve_funding(buyer_utxos: &Vec<BuyerUtxo>) -> (r: Vec<FundingInput>)
    ensures
        r.deep_view() == resolved(buyer_utxos.deep_view()),
{
    let mut out: Vec<FundingInput> = Vec::new();
    let mut i: usize = 0;
    assert(out.deep_view() =~= resolved(buyer_utxos.deep_view()).take(0));
    while i < buyer_utxos.len()
        invariant
            i <= buyer_utxos.len(),
            out.deep_view() == resolved(buyer_utxos.deep_view()).take(i as int),
        decreases buyer_utxos.len() - i,
    {
        let ghost before = out.deep_view();
        let utxo = buyer_utxos[i].clone();
        let txid = parse_txid(utxo.txid.as_str());
        out.push(FundingInput { utxo, txid });
        assert(out.deep_view() =~= before.push(resolved(buyer_utxos.deep_view())[i as int]));
        assert(out.deep_view() =~= resolved(buyer_utxos.deep_view()).take(i + 1));
        i += 1;
    }
    assert(resolved(buyer_utxos.deep_view()).take(i as int) =~= resolved(
        buyer_utxos.deep_view(),
    ));
    out
}

/// Builds the unsigned settlement transaction for a purchase.
///
/// The addresses and the transaction ids are parsed, the settlement is laid
/// out as `spec_assemble` says, and the transaction is encoded for the wire
/// and written in hex. The function does not test that the funding is what
/// the selector chose; with too little of it, it fails with `Underfunded`.
pub fn build_purchase_tx(
    listing: &Listing,
    buyer_ord_address: &str,
    buyer_payment_address: &str,
    buyer_utxos: Vec<BuyerUtxo>,
    marketplace_fee_address: &str,
) -> (r: Result<PreparePurchaseResponse, MarketError>)
    ensures
        match spec_build_purchase_tx(
            listing@,
            buyer_ord_address@,
            buyer_payment_address@,
            buyer_utxos.deep_view(),
            marketplace_fee_address@,
        ) {
            Ok(s) => r matches Ok(response) && response.raw_tx_hex@ == hex_encoded(
                consensus_encoding(s.tx),
            ) && response.sig_requests.deep_view() == s.sig_requests,
            Err(e) => r == Err::<PreparePurchaseResponse, MarketError>(e),
        },
{
    let asset_txid = parse_txid(listing.ordinal_utxo.txid.as_str());
    let funding = resolve_funding(&buyer_utxos);
    let scripts = PartyScripts {
        buyer_asset: address_script(buyer_ord_address),
        seller: address_script(listing.seller_address.as_str()),
        fee_recipient: address_script(marketplace_fee_address),
        buyer_change: address_script(buyer_payment_address),
    };
    match assemble_settlement(listing, asset_txid, &funding, scripts) {
        Ok(settlement) => {
            let raw = consensus_encode(&settlement.tx);
            Ok(
                PreparePurchaseResponse {
                    raw_tx_hex: encode_hex(&raw),
                    sig_requests: settlement.sig_requests,
                },
            )
        },
        Err(e) => Err(e),
    }
}

/// The sum of the values of some outputs.
pub open spec fn output_total(outputs: Seq<TxOutputView>) -> nat
    decreases outputs.len(),
{
    if outputs.len() == 0 {
        0
    } else {
        output_total(outputs.drop_last()) + outputs.last().value as nat
    }
}

/// One more output adds its value to the sum.
pub proof fn lemma_output_total_push(outputs: Seq<TxOutputView>, output: TxOutputView)
    ensures
        output_total(outputs.push(output)) == output_total(outputs) + output.value,
{
    assert(outputs.push(output).drop_last() =~= outputs);
}

/// The outputs of a settlement are worth what its payouts say.
pub proof fn lemma_outputs_are_the_payouts(p: Payouts, scripts: PartyScriptsView)
    ensures
        output_total(settlement_outputs(p, scripts)) == payout_total(p),
        2 <= settlement_outputs(p, scripts).len() <= 4,
{
    let asset = TxOutputView {
        value: ASSET_OUTPUT_VALUE,
        script_pubkey: scripts.buyer_asset.unwrap(),
    };
    let seller = TxOutputView { value: p.seller, script_pubkey: scripts.seller.unwrap() };
    let none = Seq::<TxOutputView>::empty();
    lemma_output_total_push(none, asset);
    lemma_output_total_push(none.push(asset), seller);
    let fixed = seq![asset, seller];
    assert(fixed =~= none.push(asset).push(seller));
    let with_fee = match p.fee {
        Some(v) => fixed.push(
            TxOutputView { value: v, script_pubkey: scripts.fee_recipient.unwrap() },
        ),
        None => fixed,
    };
    if let Some(v) = p.fee {
        lemma_output_total_push(
            fixed,
            TxOutputView { value: v, script_pubkey: scripts.fee_recipient.unwrap() },
        );
    }
    if let Some(v) = p.change {
        lemma_output_total_push(
            with_fee,
            TxOutputView { value: v, script_pubkey: scripts.buyer_change.unwrap() },
        );
    }
}

/// Inputs that fall short never give a transaction: where the transaction
/// ids and the addresses that are paid to have parsed, and the asset's
/// output and the funding outputs together are worth less than the outputs
/// and the miner fee, the result is `Underfunded`, however many the funding
/// outputs are and whatever they are worth.
pub proof fn law_shortfall_is_underfunded(
    listing: ListingView,
    asset_txid: Option<Seq<u8>>,
    funding: Seq<FundingInputView>,
    scripts: PartyScriptsView,
)
    requires
        asset_txid is Some,
        all_resolved(funding),
        scripts.buyer_asset is Some,
        scripts.seller is Some,
        fee_share(listing.fees) > 0 ==> scripts.fee_recipient is Some,
        listing.ordinal_utxo.satoshis + funding_total(funding) < committed(listing.fees),
    ensures
        spec_assemble(listing, asset_txid, funding, scripts) == Err::<
            SettlementView,
            MarketError,
        >(MarketError::Underfunded),
{
}

/// Every settlement conserves value: the values of its outputs and the miner
/// fee together are at most the value of the asset's output and the funding
/// outputs, so the change is never computed below zero or beyond the amount
/// type. It has one input more than there are funding outputs, and one
/// signature request for each of them.
pub proof fn law_settlement_conserves_value(
    listing: ListingView,
    asset_txid: Option<Seq<u8>>,
    funding: Seq<FundingInputView>,
    scripts: PartyScriptsView,
)
    requires
        spec_assemble(listing, asset_txid, funding, scripts) is Ok,
    ensures
        ({
            let s = spec_assemble(listing, asset_txid, funding, scripts).unwrap();
            &&& output_total(s.tx.outputs) + ESTIMATED_MINER_FEE <= listing.ordinal_utxo.satoshis
                + funding_total(funding)
            &&& s.tx.inputs.len() == funding.len() + 1
            &&& s.sig_requests.len() == funding.len()
            &&& forall|i: int|
                0 <= i < s.tx.inputs.len() ==> (#[trigger] s.tx.inputs[i]).script_sig.len() == 0
            &&& forall|i: int|
                0 <= i < s.sig_requests.len() ==> (#[trigger] s.sig_requests[i]).input_index == i
                    + 1
        }),
{
    let total = listing.ordinal_utxo.satoshis as nat + funding_total(funding);
    let p = spec_plan_payouts(listing.fees, total).unwrap();
    law_value_is_conserved(listing.fees, total);
    lemma_outputs_are_the_payouts(p, scripts);
}

} // verus!
