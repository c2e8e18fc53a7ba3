//! The two steps of a purchase: preparing the unsigned settlement, and
//! recording the sale once the signed transaction has been broadcast.
//!
//! The library neither fetches the buyer's outputs nor broadcasts. The
//! caller does both and hands in what came back; what is decided on it is
//! decided here.

use crate::chain::{
    consensus_encoding, decode_hex, hex_decoded, hex_encoded, transaction_id, transaction_id_of,
};
use crate::clock::current_time;
use crate::error::MarketError;
use crate::funding::{
    funding_of, law_selection_is_unique, select_funding, selection_size, spendable, total_value,
    MINER_FEE_BUFFER,
};
use crate::listings_db::ListingsDb;
use crate::models::{Listing, ListingStatus, ListingView, OrdinalUtxo, Timestamp};
use crate::store_model::{
    lemma_record_at, lemma_replace_keeps_store, position_of, record_of, sale_refusal, sold,
    store_wf, with_replaced,
};
use crate::text::same_text;
use crate::tx_builder::{build_purchase_tx, spec_build_purchase_tx, PreparePurchaseResponse};
use vstd::prelude::*;

verus! {

/// Who buys, as the caller names them: where the asset goes, and where the
/// funding comes from and the change returns to.
#[derive(Debug)]
pub struct PreparePurchaseRequest {
    pub buyer_ord_address: String,
    pub buyer_payment_address: String,
}

/// What the indexer answered when asked for the buyer's outputs.
#[derive(Debug)]
pub enum FundingLookup {
    /// The outputs of the buyer's payment address.
    Found(Vec<OrdinalUtxo>),
    /// The indexer did not answer.
    Unavailable,
}

/// What the broadcaster answered when handed the signed transaction.
#[derive(Debug)]
pub enum BroadcastOutcome {
    /// The transaction was accepted.
    Accepted,
    /// The transaction was refused, with the broadcaster's reason.
    Rejected(String),
    /// The broadcaster did not answer.
    Unavailable,
}

/// What the broadcaster's answer means: the transaction is accepted where
/// the result is `success`, and refused otherwise, with the description of
/// the answer as the reason, or `Unknown error` where it has none.
pub fn broadcast_outcome(return_result: Option<&str>, result_description: Option<&str>) -> (r:
    BroadcastOutcome)
    ensures
        match return_result {
            Some(result) if result@ == "success"@ => r is Accepted,
            _ => r matches BroadcastOutcome::Rejected(reason) && reason@ == match result_description {
                Some(description) => description@,
                None => "Unknown error"@,
            },
        },
{
    let accepted = match return_result {
        Some(result) => same_text(result, "success"),
        None => false,
    };
    if accepted {
        BroadcastOutcome::Accepted
    } else {
        match result_description {
            Some(description) => BroadcastOutcome::Rejected(description.to_owned()),
            None => BroadcastOutcome::Rejected("Unknown error".to_owned()),
        }
    }
}

/// The signed transaction as the caller hands it in, in hex.
#[derive(Debug)]
pub struct BroadcastPurchaseRequest {
    pub raw_tx_hex: String,
}

/// What the caller learns of a recorded sale.
#[derive(Debug, PartialEq, Eq)]
pub struct BroadcastPurchaseResponse {
    pub success: bool,
    pub txid: String,
    pub message: String,
}

/// The listing with this id, if it can still be sold: `NotFound` where there
/// is none, and `InvalidState` where it is sold or cancelled.
pub fn active_listing(db: &ListingsDb, listing_id: &str) -> (r: Result<Listing, MarketError>)
    requires
        db.wf(),
    ensures
        match sale_refusal(db@, listing_id@) {
            Some(e) => r == Err::<Listing, MarketError>(e),
            None => r matches Ok(listing) && Some(listing@) == record_of(db@, listing_id@),
        },
{
    match db.get_listing(listing_id) {
        None => Err(MarketError::NotFound),
        Some(listing) => {
            if listing.status != ListingStatus::Active {
                Err(MarketError::InvalidState)
            } else {
                Ok(listing)
            }
        },
    }
}

/// Why a purchase cannot start, if it cannot: no such listing, a listing
/// that is no longer active, or a price that leaves no room for the miner
/// fee buffer in the amount type.
pub open spec fn purchase_refusal(s: Seq<ListingView>, listing_id: Seq<char>) -> Option<
    MarketError,
> {
    match record_of(s, listing_id) {
        None => Some(MarketError::NotFound),
        Some(l) => if l.status != ListingStatus::Active {
            Some(MarketError::InvalidState)
        } else if l.fees.total_price + MINER_FEE_BUFFER > u64::MAX {
            Some(MarketError::InvalidArgument)
        } else {
            None
        },
    }
}

/// The listing to buy and the amount the buyer's outputs have to reach: the
/// total price and the miner fee buffer.
pub fn purchase_requirement(db: &ListingsDb, listing_id: &str) -> (r: Result<
    (Listing, u64),
    MarketError,
>)
    requires
        db.wf(),
    ensures
        match purchase_refusal(db@, listing_id@) {
            Some(e) => r == Err::<(Listing, u64), MarketError>(e),
            None => r matches Ok((listing, required)) && Some(listing@) == record_of(
                db@,
                listing_id@,
            ) && required == listing.fees.total_price + MINER_FEE_BUFFER,
        },
{
    let listing = match active_listing(db, listing_id) {
        Ok(listing) => listing,
        Err(e) => {
            return Err(e);
        },
    };
    if listing.fees.total_price > u64::MAX - MINER_FEE_BUFFER {
        return Err(MarketError::InvalidArgument);
    }
    let required = listing.fees.total_price + MINER_FEE_BUFFER;
    Ok((listing, required))
}

/// Prepares a purchase: chooses the funding and builds the unsigned
/// settlement. The store is only read.
///
/// The call fails as `purchase_refusal` says; with `ExternalUnavailable`
/// where the indexer did not answer; with `InsufficientFunds` where the
/// buyer's spendable outputs do not reach the price and the buffer; and as
/// the assembler fails on the outputs that the selector chose.
pub fn prepare_purchase(
    db: &ListingsDb,
    listing_id: &str,
    payload: &PreparePurchaseRequest,
    lookup: &FundingLookup,
    marketplace_fee_address: &str,
) -> (r: Result<PreparePurchaseResponse, MarketError>)
    requires
        db.wf(),
    ensures
        match purchase_refusal(db@, listing_id@) {
            Some(e) => r == Err::<PreparePurchaseResponse, MarketError>(e),
            None => match lookup {
                FundingLookup::Unavailable => r == Err::<PreparePurchaseResponse, MarketError>(
                    MarketError::ExternalUnavailable,
                ),
                FundingLookup::Found(candidates) => {
                    let listing = record_of(db@, listing_id@).unwrap();
                    let required = (listing.fees.total_price + MINER_FEE_BUFFER) as nat;
                    let pool = spendable(candidates.deep_view());
                    if total_value(pool) < required {
                        r == Err::<PreparePurchaseResponse, MarketError>(
                            MarketError::InsufficientFunds {
                                required: required as u64,
                                available: total_value(pool) as u64,
                            },
                        )
                    } else {
                        match spec_build_purchase_tx(
                            listing,
                            payload.buyer_ord_address@,
                            payload.buyer_payment_address@,
                            funding_of(pool.take(selection_size(pool, required))),
                            marketplace_fee_address@,
                        ) {
                            Ok(s) => r matches Ok(response) && response.raw_tx_hex@ == hex_encoded(
                                consensus_encoding(s.tx),
                            ) && response.sig_requests.deep_view() == s.sig_requests,
                            Err(e) => r == Err::<PreparePurchaseResponse, MarketError>(e),
                        }
                    }
                },
            },
        },
{
    let (listing, required) = match purchase_requirement(db, listing_id) {
        Ok(found) => found,
        Err(e) => {
            return Err(e);
        },
    };
    let candidates = match lookup {
        FundingLookup::Found(candidates) => candidates,
        FundingLookup::Unavailable => {
            return Err(MarketError::ExternalUnavailable);
        },
    };
    let chosen = match select_funding(candidates, required) {
        Ok(chosen) => chosen,
        Err(e) => {
            return Err(e);
        },
    };
    proof {
        let pool = spendable(candidates.deep_view());
        law_selection_is_unique(
            pool,
            chosen.len() as int,
            selection_size(pool, required as nat),
            required as nat,
        );
    }
    build_purchase_tx(
        &listing,
        payload.buyer_ord_address.as_str(),
        payload.buyer_payment_address.as_str(),
        chosen,
        marketplace_fee_address,
    )
}

/// The id of the transaction that a text in hex encodes, if it encodes one.
pub open spec fn signed_txid(raw_tx_hex: Seq<char>) -> Option<Seq<char>> {
    match hex_decoded(vstd::utf8::encode_utf8(raw_tx_hex)) {
        None => None,
        Some(bytes) => transaction_id_of(bytes),
    }
}

/// Why a signed purchase is not handed to the broadcaster, if it is not: no
/// such listing, a listing that is no longer active, or a text that is no
/// transaction in hex.
pub open spec fn broadcast_refusal(
    s: Seq<ListingView>,
    listing_id: Seq<char>,
    raw_tx_hex: Seq<char>,
) -> Option<MarketError> {
    if sale_refusal(s, listing_id) is Some {
        sale_refusal(s, listing_id)
    } else if signed_txid(raw_tx_hex) is None {
        Some(MarketError::MalformedTransaction)
    } else {
        None
    }
}

/// Decodes a signed transaction from hex and computes its id.
pub fn decode_signed_transaction(raw_tx_hex: &str) -> (r: Result<String, MarketError>)
    ensures
        match signed_txid(raw_tx_hex@) {
            Some(txid) => r matches Ok(t) && t@ == txid,
            None => r == Err::<String, MarketError>(MarketError::MalformedTransaction),
        },
{
    let bytes = match decode_hex(raw_tx_hex) {
        Some(bytes) => bytes,
        None => {
            return Err(MarketError::MalformedTransaction);
        },
    };
    assert(bytes.deep_view() =~= bytes@);
    match transaction_id(&bytes) {
        Some(txid) => Ok(txid),
        None => Err(MarketError::MalformedTransaction),
    }
}

/// Tests a signed purchase before it is broadcast, and gives the id of its
/// transaction. The call fails as `broadcast_refusal` says.
pub fn check_signed_purchase(db: &ListingsDb, listing_id: &str, payload: &BroadcastPurchaseRequest)
    -> (r: Result<String, MarketError>)
    requires
        db.wf(),
    ensures
        match broadcast_refusal(db@, listing_id@, payload.raw_tx_hex@) {
            Some(e) => r == Err::<String, MarketError>(e),
            None => r matches Ok(txid) && Some(txid@) == signed_txid(payload.raw_tx_hex@),
        },
{
    match active_listing(db, listing_id) {
        Ok(_) => decode_signed_transaction(payload.raw_tx_hex.as_str()),
        Err(e) => Err(e),
    }
}

/// The store after a purchase was broadcast, and the error if the sale was
/// not recorded.
///
/// Nothing changes unless the listing is active, the text is a transaction,
/// and the broadcaster accepted it; then the listing is sold to the buyer in
/// that transaction, all at once.
pub open spec fn spec_broadcast_purchase(
    s: Seq<ListingView>,
    listing_id: Seq<char>,
    raw_tx_hex: Seq<char>,
    buyer_address: Seq<char>,
    outcome: BroadcastOutcome,
    now: Timestamp,
) -> (Seq<ListingView>, Option<MarketError>) {
    match broadcast_refusal(s, listing_id, raw_tx_hex) {
        Some(e) => (s, Some(e)),
        None => match outcome {
            BroadcastOutcome::Rejected(reason) => (s, Some(MarketError::BroadcastRejected(reason))),
            BroadcastOutcome::Unavailable => (s, Some(MarketError::ExternalUnavailable)),
            BroadcastOutcome::Accepted => (
                with_replaced(
                    s,
                    sold(
                        record_of(s, listing_id).unwrap(),
                        buyer_address,
                        signed_txid(raw_tx_hex).unwrap(),
                        now,
                    ),
                ),
                None,
            ),
        },
    }
}

/// Records what came of broadcasting a signed purchase, at the time that is
/// handed in: see `spec_broadcast_purchase`. On success the response
/// carries the id of the transaction.
pub fn broadcast_purchase_at(
    db: &mut ListingsDb,
    listing_id: &str,
    payload: &BroadcastPurchaseRequest,
    buyer_address: &str,
    outcome: BroadcastOutcome,
    now: Timestamp,
) -> (r: Result<BroadcastPurchaseResponse, MarketError>)
    requires
        old(db).wf(),
    ensures
        final(db).wf(),
        final(db)@ == spec_broadcast_purchase(
            old(db)@,
            listing_id@,
            payload.raw_tx_hex@,
            buyer_address@,
            outcome,
            now,
        ).0,
        match spec_broadcast_purchase(
            old(db)@,
            listing_id@,
            payload.raw_tx_hex@,
            buyer_address@,
            outcome,
            now,
        ).1 {
            Some(e) => r == Err::<BroadcastPurchaseResponse, MarketError>(e),
            None => r matches Ok(response) && response.success && Some(response.txid@)
                == signed_txid(payload.raw_tx_hex@) && response.message@
                == "Purchase successful and broadcasted"@,
        },
{
    let txid = match check_signed_purchase(db, listing_id, payload) {
        Ok(txid) => txid,
        Err(e) => {
            return Err(e);
        },
    };
    match outcome {
        BroadcastOutcome::Rejected(reason) => Err(MarketError::BroadcastRejected(reason)),
        BroadcastOutcome::Unavailable => Err(MarketError::ExternalUnavailable),
        BroadcastOutcome::Accepted => {
            match db.mark_listing_sold_at(listing_id, buyer_address, txid.as_str(), now) {
                Ok(_) => Ok(
                    BroadcastPurchaseResponse {
                        success: true,
                        txid,
                        message: "Purchase successful and broadcasted".to_owned(),
                    },
                ),
                Err(e) => Err(e),
            }
        },
    }
}

/// Records what came of broadcasting a signed purchase, at the present
/// time: see `spec_broadcast_purchase`. The time is read from the clock, so
/// the contract speaks of it as the sold listing reports it.
pub fn broadcast_purchase(
    db: &mut ListingsDb,
    listing_id: &str,
    payload: &BroadcastPurchaseRequest,
    buyer_address: &str,
    outcome: BroadcastOutcome,
) -> (r: Result<BroadcastPurchaseResponse, MarketError>)
    requires
        old(db).wf(),
    ensures
        final(db).wf(),
        ({
            let now = match record_of(final(db)@, listing_id@) {
                Some(l) => l.updated_at,
                None => Timestamp { secs: 0, nanos: 0 },
            };
            let expected = spec_broadcast_purchase(
                old(db)@,
                listing_id@,
                payload.raw_tx_hex@,
                buyer_address@,
                outcome,
                now,
            );
            &&& final(db)@ == expected.0
            &&& match expected.1 {
                Some(e) => r == Err::<BroadcastPurchaseResponse, MarketError>(e),
                None => r matches Ok(response) && response.success && Some(response.txid@)
                    == signed_txid(payload.raw_tx_hex@) && response.message@
                    == "Purchase successful and broadcasted"@,
            }
        }),
{
    let now = current_time();
    proof {
        if spec_broadcast_purchase(
            db@,
            listing_id@,
            payload.raw_tx_hex@,
            buyer_address@,
            outcome,
            now,
        ).1 is None {
            let l = sold(
                record_of(db@, listing_id@).unwrap(),
                buyer_address@,
                signed_txid(payload.raw_tx_hex@).unwrap(),
                now,
            );
            lemma_record_at(db@, position_of(db@, listing_id@));
            lemma_replace_keeps_store(db@, l);
        }
    }
    broadcast_purchase_at(db, listing_id, payload, buyer_address, outcome, now)
}

/// A purchase is never recorded twice: once a listing was sold by a
/// broadcast that was accepted, every later attempt on it fails with
/// `InvalidState`, whatever transaction, buyer and answer it brings, and
/// changes nothing; the listing keeps the transaction id of the first.
pub proof fn law_purchase_never_recorded_twice(
    s: Seq<ListingView>,
    listing_id: Seq<char>,
    raw_tx_hex: Seq<char>,
    buyer_address: Seq<char>,
    now: Timestamp,
    later_raw_tx_hex: Seq<char>,
    later_buyer_address: Seq<char>,
    later_outcome: BroadcastOutcome,
    later: Timestamp,
)
    requires
        store_wf(s),
        spec_broadcast_purchase(
            s,
            listing_id,
            raw_tx_hex,
            buyer_address,
            BroadcastOutcome::Accepted,
            now,
        ).1 is None,
    ensures
        ({
            let after = spec_broadcast_purchase(
                s,
                listing_id,
                raw_tx_hex,
                buyer_address,
                BroadcastOutcome::Accepted,
                now,
            ).0;
            &&& store_wf(after)
            &&& record_of(after, listing_id).unwrap().status == ListingStatus::Sold
            &&& record_of(after, listing_id).unwrap().purchase_txid == signed_txid(raw_tx_hex)
            &&& spec_broadcast_purchase(
                after,
                listing_id,
                later_raw_tx_hex,
                later_buyer_address,
                later_outcome,
                later,
            ) == (after, Some(MarketError::InvalidState))
        }),
{
    let l = sold(
        record_of(s, listing_id).unwrap(),
        buyer_address,
        signed_txid(raw_tx_hex).unwrap(),
        now,
    );
    lemma_record_at(s, position_of(s, listing_id));
    lemma_replace_keeps_store(s, l);
}

} // verus!
