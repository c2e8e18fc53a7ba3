//! What a store on disk has to hold for a listing: its record under its id,
//! and the two index entries that lead to it.
//!
//! The entry by origin exists exactly while the listing is active; the entry
//! by seller exists for every listing. Which entries a changed listing puts
//! and removes is decided here; writing them is the caller's part.

use crate::models::{Listing, ListingStatus, ListingView};
use vstd::prelude::*;
use vstd::string::StringExecFns;

verus! {

/// The prefix of the keys of the records.
pub const LISTING_PREFIX: &'static str = "listing:";

/// The prefix of the keys of the index by origin.
pub const ORIGIN_INDEX_PREFIX: &'static str = "listing_by_origin:";

/// The prefix of the keys of the index by seller.
pub const SELLER_INDEX_PREFIX: &'static str = "listing_by_seller:";

/// The key of the record of a listing.
pub open spec fn spec_listing_key(id: Seq<char>) -> Seq<char> {
    LISTING_PREFIX@ + id
}

/// The key of the index entry of an asset.
pub open spec fn spec_origin_key(origin: Seq<char>) -> Seq<char> {
    ORIGIN_INDEX_PREFIX@ + origin
}

/// The key of the index entry of a seller's listing.
pub open spec fn spec_seller_key(seller_address: Seq<char>, id: Seq<char>) -> Seq<char> {
    SELLER_INDEX_PREFIX@ + seller_address + ":"@ + id
}

/// The key of the record of a listing.
pub fn listing_key(id: &str) -> (r: String)
    ensures
        r@ == spec_listing_key(id@),
{
    let mut key = LISTING_PREFIX.to_owned();
    key.append(id);
    key
}

/// The key of the index entry of an asset.
pub fn origin_key(origin: &str) -> (r: String)
    ensures
        r@ == spec_origin_key(origin@),
{
    let mut key = ORIGIN_INDEX_PREFIX.to_owned();
    key.append(origin);
    key
}

/// The key of the index entry of a seller's listing.
pub fn seller_key(seller_address: &str, id: &str) -> (r: String)
    ensures
        r@ == spec_seller_key(seller_address@, id@),
{
    let mut key = SELLER_INDEX_PREFIX.to_owned();
    key.append(seller_address);
    key.append(":");
    key.append(id);
    key
}

/// The prefix of the keys of the index entries of one seller.
pub fn seller_prefix(seller_address: &str) -> (r: String)
    ensures
        r@ == SELLER_INDEX_PREFIX@ + seller_address@ + ":"@,
{
    let mut key = SELLER_INDEX_PREFIX.to_owned();
    key.append(seller_address);
    key.append(":");
    key
}

/// One change of an index on disk.
#[derive(Debug, PartialEq, Eq)]
pub enum IndexWrite {
    /// The entry under `key` leads to the listing `id`.
    Put { key: String, id: String },
    /// There is no entry under `key`.
    Remove { key: String },
}

/// An `IndexWrite` with its text as sequences of characters.
pub enum IndexWriteView {
    Put { key: Seq<char>, id: Seq<char> },
    Remove { key: Seq<char> },
}

impl View for IndexWrite {
    type V = IndexWriteView;

    open spec fn view(&self) -> IndexWriteView {
        match self {
            IndexWrite::Put { key, id } => IndexWriteView::Put { key: key@, id: id@ },
            IndexWrite::Remove { key } => IndexWriteView::Remove { key: key@ },
        }
    }
}

impl DeepView for IndexWrite {
    type V = IndexWriteView;

    open spec fn deep_view(&self) -> IndexWriteView {
        self@
    }
}

/// The index changes that go to disk with a listing: its entry by origin is
/// put while it is active and removed once it is not, and its entry by
/// seller is put in either case. That the entry by origin then agrees with
/// the store is `law_origin_index_follows` of the store's model.
pub open spec fn spec_index_writes(l: ListingView) -> Seq<IndexWriteView> {
    seq![
        if l.status == ListingStatus::Active {
            IndexWriteView::Put { key: spec_origin_key(l.origin), id: l.id }
        } else {
            IndexWriteView::Remove { key: spec_origin_key(l.origin) }
        },
        IndexWriteView::Put { key: spec_seller_key(l.seller_address, l.id), id: l.id },
    ]
}

/// The index changes that go to disk with a listing: see `spec_index_writes`.
pub fn index_writes(listing: &Listing) -> (r: Vec<IndexWrite>)
    ensures
        r.deep_view() == spec_index_writes(listing@),
{
    let by_origin = if listing.status == ListingStatus::Active {
        IndexWrite::Put { key: origin_key(listing.origin.as_str()), id: listing.id.clone() }
    } else {
        IndexWrite::Remove { key: origin_key(listing.origin.as_str()) }
    };
    let by_seller = IndexWrite::Put {
        key: seller_key(listing.seller_address.as_str(), listing.id.as_str()),
        id: listing.id.clone(),
    };
    let mut writes: Vec<IndexWrite> = Vec::new();
    writes.push(by_origin);
    writes.push(by_seller);
    assert(writes.deep_view() =~= spec_index_writes(listing@));
    writes
}

} // verus!
