//! The data a marketplace works on: listings, the outputs that hold an asset
//! or fund a purchase, and the requests that create and change listings.
//!
//! Each type that holds text has a view, in which the text is a sequence of
//! characters; the contracts of the library are stated over these views.

use crate::fees::ListingFees;
use vstd::prelude::*;

verus! {

/// A point in time: whole seconds since the Unix epoch, and the nanoseconds
/// into that second.
#[derive(Clone, Copy, Debug, PartialEq, Eq, Structural)]
pub struct Timestamp {
    pub secs: i64,
    pub nanos: u32,
}

impl Timestamp {
    /// Whether `self` is strictly later than `other`.
    pub open spec fn spec_later_than(self, other: Timestamp) -> bool {
        self.secs > other.secs || (self.secs == other.secs && self.nanos > other.nanos)
    }

    /// Whether `self` is `other` or later.
    pub open spec fn spec_not_before(self, other: Timestamp) -> bool {
        !other.spec_later_than(self)
    }

    /// Whether `self` is strictly later than `other`.
    pub fn later_than(&self, other: &Timestamp) -> (r: bool)
        ensures
            r == self.spec_later_than(*other),
    {
        self.secs > other.secs || (self.secs == other.secs && self.nanos > other.nanos)
    }
}

/// Where a listing stands in its life. `Sold` and `Cancelled` are final.
#[derive(Clone, Copy, Debug, PartialEq, Eq, Structural)]
pub enum ListingStatus {
    Active,
    Sold,
    Cancelled,
}

/// A copy of an optional text.
pub fn clone_text(text: &Option<String>) -> (r: Option<String>)
    ensures
        r == *text,
{
    match text {
        Some(s) => Some(s.clone()),
        None => None,
    }
}

/// The on-chain output that holds a listed asset.
#[derive(Debug, PartialEq, Eq)]
pub struct OrdinalUtxoRef {
    pub txid: String,
    pub vout: u32,
    pub satoshis: u64,
    /// The locking script, base64 encoded.
    pub script: String,
}

/// An `OrdinalUtxoRef` with its text as sequences of characters.
pub struct OrdinalUtxoRefView {
    pub txid: Seq<char>,
    pub vout: u32,
    pub satoshis: u64,
    pub script: Seq<char>,
}

impl View for OrdinalUtxoRef {
    type V = OrdinalUtxoRefView;

    open spec fn view(&self) -> OrdinalUtxoRefView {
        OrdinalUtxoRefView {
            txid: self.txid@,
            vout: self.vout,
            satoshis: self.satoshis,
            script: self.script@,
        }
    }
}

impl Clone for OrdinalUtxoRef {
    fn clone(&self) -> (r: Self)
        ensures
            r == *self,
    {
        OrdinalUtxoRef {
            txid: self.txid.clone(),
            vout: self.vout,
            satoshis: self.satoshis,
            script: self.script.clone(),
        }
    }
}

/// One sale offer, from its creation to its sale or cancellation.
#[derive(Debug, PartialEq, Eq)]
pub struct Listing {
    /// The listing's identity, given at creation.
    pub id: String,
    /// The asset's stable identifier: the transaction and output of its first
    /// appearance.
    pub origin: String,
    /// The address that receives the payment.
    pub seller_address: String,
    /// The address that may cancel the listing.
    pub seller_ord_address: String,
    pub fees: ListingFees,
    pub status: ListingStatus,
    pub psbt_hex: Option<String>,
    pub listing_utxo: Option<String>,
    /// The output that holds the asset, and that a sale consumes.
    pub ordinal_utxo: OrdinalUtxoRef,
    pub created_at: Timestamp,
    pub updated_at: Timestamp,
    pub sold_at: Option<Timestamp>,
    pub buyer_address: Option<String>,
    pub purchase_txid: Option<String>,
}

/// A `Listing` with its text as sequences of characters.
pub struct ListingView {
    pub id: Seq<char>,
    pub origin: Seq<char>,
    pub seller_address: Seq<char>,
    pub seller_ord_address: Seq<char>,
    pub fees: ListingFees,
    pub status: ListingStatus,
    pub psbt_hex: Option<Seq<char>>,
    pub listing_utxo: Option<Seq<char>>,
    pub ordinal_utxo: OrdinalUtxoRefView,
    pub created_at: Timestamp,
    pub updated_at: Timestamp,
    pub sold_at: Option<Timestamp>,
    pub buyer_address: Option<Seq<char>>,
    pub purchase_txid: Option<Seq<char>>,
}

impl View for Listing {
    type V = ListingView;

    open spec fn view(&self) -> ListingView {
        ListingView {
            id: self.id@,
            origin: self.origin@,
            seller_address: self.seller_address@,
            seller_ord_address: self.seller_ord_address@,
            fees: self.fees,
            status: self.status,
            psbt_hex: self.psbt_hex.deep_view(),
            listing_utxo: self.listing_utxo.deep_view(),
            ordinal_utxo: self.ordinal_utxo@,
            created_at: self.created_at,
            updated_at: self.updated_at,
            sold_at: self.sold_at,
            buyer_address: self.buyer_address.deep_view(),
            purchase_txid: self.purchase_txid.deep_view(),
        }
    }
}

impl DeepView for Listing {
    type V = ListingView;

    open spec fn deep_view(&self) -> ListingView {
        self@
    }
}

impl Clone for Listing {
    fn clone(&self) -> (r: Self)
        ensures
            r == *self,
    {
        Listing {
            id: self.id.clone(),
            origin: self.origin.clone(),
            seller_address: self.seller_address.clone(),
            seller_ord_address: self.seller_ord_address.clone(),
            fees: self.fees,
            status: self.status,
            psbt_hex: clone_text(&self.psbt_hex),
            listing_utxo: clone_text(&self.listing_utxo),
            ordinal_utxo: self.ordinal_utxo.clone(),
            created_at: self.created_at,
            updated_at: self.updated_at,
            sold_at: self.sold_at,
            buyer_address: clone_text(&self.buyer_address),
            purchase_txid: clone_text(&self.purchase_txid),
        }
    }
}

/// What a seller hands in to list an asset.
#[derive(Debug)]
pub struct CreateListingRequest {
    /// The asset to list.
    pub origin: String,
    /// The output that holds the asset.
    pub ordinal_utxo: OrdinalUtxoRef,
    /// What the seller wants to receive.
    pub seller_wants_satoshis: u64,
    /// The tip for the platform in basis points: 0, 250 or 500.
    pub tip_basis_points: u32,
    /// The address that receives the payment.
    pub seller_address: String,
    /// The address that may cancel the listing.
    pub seller_ord_address: String,
}

/// A `CreateListingRequest` with its text as sequences of characters.
pub struct CreateListingRequestView {
    pub origin: Seq<char>,
    pub ordinal_utxo: OrdinalUtxoRefView,
    pub seller_wants_satoshis: u64,
    pub tip_basis_points: u32,
    pub seller_address: Seq<char>,
    pub seller_ord_address: Seq<char>,
}

impl View for CreateListingRequest {
    type V = CreateListingRequestView;

    open spec fn view(&self) -> CreateListingRequestView {
        CreateListingRequestView {
            origin: self.origin@,
            ordinal_utxo: self.ordinal_utxo@,
            seller_wants_satoshis: self.seller_wants_satoshis,
            tip_basis_points: self.tip_basis_points,
            seller_address: self.seller_address@,
            seller_ord_address: self.seller_ord_address@,
        }
    }
}

/// An unspent output as the indexer reports it.
#[derive(Debug, PartialEq, Eq)]
pub struct OrdinalUtxo {
    pub txid: String,
    pub vout: u32,
    pub satoshis: u64,
    /// The locking script.
    pub lock: String,
    pub origin: String,
    pub ordinal: u64,
    pub spend: Option<String>,
}

/// An `OrdinalUtxo` with its text as sequences of characters.
pub struct OrdinalUtxoView {
    pub txid: Seq<char>,
    pub vout: u32,
    pub satoshis: u64,
    pub lock: Seq<char>,
    pub origin: Seq<char>,
    pub ordinal: u64,
    pub spend: Option<Seq<char>>,
}

impl View for OrdinalUtxo {
    type V = OrdinalUtxoView;

    open spec fn view(&self) -> OrdinalUtxoView {
        OrdinalUtxoView {
            txid: self.txid@,
            vout: self.vout,
            satoshis: self.satoshis,
            lock: self.lock@,
            origin: self.origin@,
            ordinal: self.ordinal,
            spend: self.spend.deep_view(),
        }
    }
}

impl DeepView for OrdinalUtxo {
    type V = OrdinalUtxoView;

    open spec fn deep_view(&self) -> OrdinalUtxoView {
        self@
    }
}

/// An output of the buyer that funds a purchase. It lives for one purchase
/// attempt and is never stored.
#[derive(Debug, PartialEq, Eq)]
pub struct BuyerUtxo {
    pub txid: String,
    pub vout: u32,
    pub satoshis: u64,
    /// The locking script, in hex.
    pub script_hex: String,
}

/// A `BuyerUtxo` with its text as sequences of characters.
pub struct BuyerUtxoView {
    pub txid: Seq<char>,
    pub vout: u32,
    pub satoshis: u64,
    pub script_hex: Seq<char>,
}

impl View for BuyerUtxo {
    type V = BuyerUtxoView;

    open spec fn view(&self) -> BuyerUtxoView {
        BuyerUtxoView {
            txid: self.txid@,
            vout: self.vout,
            satoshis: self.satoshis,
            script_hex: self.script_hex@,
        }
    }
}

impl DeepView for BuyerUtxo {
    type V = BuyerUtxoView;

    open spec fn deep_view(&self) -> BuyerUtxoView {
        self@
    }
}

impl Clone for BuyerUtxo {
    fn clone(&self) -> (r: Self)
        ensures
            r == *self,
    {
        BuyerUtxo {
            txid: self.txid.clone(),
            vout: self.vout,
            satoshis: self.satoshis,
            script_hex: self.script_hex.clone(),
        }
    }
}

} // verus!
