//! The model of the listing store: its records as a sequence of listing
//! views, what holds of every store, and what each operation makes of it.
//!
//! The store's operations are specified by the functions of this module, and
//! the laws at its end are proved from them.

use crate::error::MarketError;
use crate::fees::{law_fees_add_up_and_round_up, total_price_of, ListingFees, TipTier};
use crate::models::{CreateListingRequestView, ListingStatus, ListingView, Timestamp};
use vstd::prelude::*;

verus! {

/// No two records share an id.
pub open spec fn distinct_ids(s: Seq<ListingView>) -> bool {
    forall|i: int, j: int| 0 <= i < j < s.len() ==> s[i].id != s[j].id
}

/// No asset has two active records.
pub open spec fn one_active_per_origin(s: Seq<ListingView>) -> bool {
    forall|i: int, j: int|
        0 <= i < j < s.len() && s[i].status == ListingStatus::Active && s[j].status
            == ListingStatus::Active ==> s[i].origin != s[j].origin
}

/// No record stands before one that was created later.
pub open spec fn newest_first(s: Seq<ListingView>) -> bool {
    forall|i: int, j: int|
        0 <= i < j < s.len() ==> s[i].created_at.spec_not_before(s[j].created_at)
}

/// What holds of the records of every store.
pub open spec fn store_wf(s: Seq<ListingView>) -> bool {
    &&& distinct_ids(s)
    &&& one_active_per_origin(s)
    &&& newest_first(s)
}

/// Whether some record has this id.
pub open spec fn has_id(s: Seq<ListingView>, id: Seq<char>) -> bool {
    exists|i: int| 0 <= i < s.len() && #[trigger] s[i].id == id
}

/// The place of the record with this id, where there is one.
pub open spec fn position_of(s: Seq<ListingView>, id: Seq<char>) -> int {
    choose|i: int| 0 <= i < s.len() && #[trigger] s[i].id == id
}

/// The record with this id, if there is one.
pub open spec fn record_of(s: Seq<ListingView>, id: Seq<char>) -> Option<ListingView> {
    if has_id(s, id) {
        Some(s[position_of(s, id)])
    } else {
        None
    }
}

/// Whether this record is the active listing of this asset.
pub open spec fn is_active_for(l: ListingView, origin: Seq<char>) -> bool {
    l.status == ListingStatus::Active && l.origin == origin
}

/// Whether the asset has an active record.
pub open spec fn has_active(s: Seq<ListingView>, origin: Seq<char>) -> bool {
    exists|i: int| 0 <= i < s.len() && #[trigger] is_active_for(s[i], origin)
}

/// The active record of this asset, if there is one. This is what the index
/// by origin holds: an entry exactly while the asset has an active listing.
pub open spec fn active_for_origin(s: Seq<ListingView>, origin: Seq<char>) -> Option<
    ListingView,
> {
    if has_active(s, origin) {
        Some(s[choose|i: int| 0 <= i < s.len() && #[trigger] is_active_for(s[i], origin)])
    } else {
        None
    }
}

/// In a store, the record at a place is the record of its id.
pub proof fn lemma_record_at(s: Seq<ListingView>, i: int)
    requires
        distinct_ids(s),
        0 <= i < s.len(),
    ensures
        has_id(s, s[i].id),
        position_of(s, s[i].id) == i,
        record_of(s, s[i].id) == Some(s[i]),
{
    let k = position_of(s, s[i].id);
    assert(s[i].id == s[i].id);
    if k < i {
        assert(s[k].id != s[i].id);
    } else if i < k {
        assert(s[i].id != s[k].id);
    }
}

/// In a store, an active record at a place is the active record of its asset.
pub proof fn lemma_active_at(s: Seq<ListingView>, i: int)
    requires
        one_active_per_origin(s),
        0 <= i < s.len(),
        s[i].status == ListingStatus::Active,
    ensures
        has_active(s, s[i].origin),
        active_for_origin(s, s[i].origin) == Some(s[i]),
{
    let origin = s[i].origin;
    assert(is_active_for(s[i], origin));
    let k = choose|k: int| 0 <= k < s.len() && #[trigger] is_active_for(s[k], origin);
    if k < i {
        assert(s[k].origin != s[i].origin);
    } else if i < k {
        assert(s[i].origin != s[k].origin);
    }
}

/// Where a record created at `t` goes: before the first record that is not
/// newer than it.
pub open spec fn insert_position(s: Seq<ListingView>, t: Timestamp) -> int
    decreases s.len(),
{
    if s.len() == 0 || !s[0].created_at.spec_later_than(t) {
        0
    } else {
        1 + insert_position(s.drop_first(), t)
    }
}

/// The records with one more, put in its place.
pub open spec fn with_inserted(s: Seq<ListingView>, l: ListingView) -> Seq<ListingView> {
    s.insert(insert_position(s, l.created_at), l)
}

/// Every record before the insert position is newer than `t`, and the record
/// at the position, if there is one, is not.
pub proof fn lemma_insert_position(s: Seq<ListingView>, t: Timestamp)
    ensures
        0 <= insert_position(s, t) <= s.len(),
        forall|i: int|
            0 <= i < insert_position(s, t) ==> (#[trigger] s[i]).created_at.spec_later_than(t),
        insert_position(s, t) < s.len() ==> !s[insert_position(s, t)].created_at.spec_later_than(
            t,
        ),
    decreases s.len(),
{
    if s.len() == 0 || !s[0].created_at.spec_later_than(t) {
    } else {
        let rest = s.drop_first();
        lemma_insert_position(rest, t);
        assert forall|i: int| 0 <= i < insert_position(s, t) implies (#[trigger] s[i])
            .created_at.spec_later_than(t) by {
            if i > 0 {
                assert(s[i] == rest[i - 1]);
            }
        }
    }
}

/// Whether a new record may join the store: its id is not taken, and where it
/// is active its asset has no active record yet.
pub open spec fn admits(s: Seq<ListingView>, l: ListingView) -> bool {
    &&& !has_id(s, l.id)
    &&& l.status == ListingStatus::Active ==> !has_active(s, l.origin)
}

/// A store that admits a record is still a store with it.
pub proof fn lemma_insert_keeps_store(s: Seq<ListingView>, l: ListingView)
    requires
        store_wf(s),
        admits(s, l),
    ensures
        store_wf(with_inserted(s, l)),
        has_id(with_inserted(s, l), l.id),
        record_of(with_inserted(s, l), l.id) == Some(l),
{
    let p = insert_position(s, l.created_at);
    let r = with_inserted(s, l);
    lemma_insert_position(s, l.created_at);
    assert forall|i: int, j: int| 0 <= i < j < r.len() implies r[i].id != r[j].id by {
        if i == p {
            assert(s[j - 1].id == r[j].id);
        } else if j == p {
            assert(s[i].id == r[i].id);
        } else {
            let a = if i < p { i } else { i - 1 };
            let b = if j < p { j } else { j - 1 };
            assert(r[i] == s[a] && r[j] == s[b]);
        }
    }
    assert forall|i: int, j: int|
        0 <= i < j < r.len() && r[i].status == ListingStatus::Active && r[j].status
            == ListingStatus::Active implies r[i].origin != r[j].origin by {
        if i == p {
            assert(is_active_for(s[j - 1], l.origin) || s[j - 1].origin != l.origin);
        } else if j == p {
            assert(is_active_for(s[i], l.origin) || s[i].origin != l.origin);
        } else {
            let a = if i < p { i } else { i - 1 };
            let b = if j < p { j } else { j - 1 };
            assert(r[i] == s[a] && r[j] == s[b]);
        }
    }
    assert forall|i: int, j: int| 0 <= i < j < r.len() implies r[i].created_at.spec_not_before(
        r[j].created_at,
    ) by {
        if i == p {
            assert(r[j] == s[j - 1]);
            assert(s[p].created_at.spec_not_before(s[j - 1].created_at));
        } else if j == p {
            assert(r[i] == s[i]);
        } else {
            let a = if i < p { i } else { i - 1 };
            let b = if j < p { j } else { j - 1 };
            assert(r[i] == s[a] && r[j] == s[b]);
        }
    }
    assert(r[p] == l);
    lemma_record_at(r, p);
}

/// The listing that a request creates.
pub open spec fn new_listing(
    req: CreateListingRequestView,
    id: Seq<char>,
    now: Timestamp,
    tip: TipTier,
) -> ListingView {
    ListingView {
        id,
        origin: req.origin,
        seller_address: req.seller_address,
        seller_ord_address: req.seller_ord_address,
        fees: ListingFees::spec_calculate(req.seller_wants_satoshis, tip),
        status: ListingStatus::Active,
        psbt_hex: None,
        listing_utxo: None,
        ordinal_utxo: req.ordinal_utxo,
        created_at: now,
        updated_at: now,
        sold_at: None,
        buyer_address: None,
        purchase_txid: None,
    }
}

/// Why a request is refused whatever id the listing would get: the asset
/// has an active listing, the tip is no tier, or the total price does not fit
/// the amount type.
pub open spec fn request_refusal(s: Seq<ListingView>, req: CreateListingRequestView) -> Option<
    MarketError,
> {
    if has_active(s, req.origin) {
        Some(MarketError::Conflict)
    } else {
        match TipTier::spec_from_basis_points(req.tip_basis_points as nat) {
            None => Some(MarketError::InvalidArgument),
            Some(tip) => if total_price_of(req.seller_wants_satoshis as nat, tip) > u64::MAX {
                Some(MarketError::InvalidArgument)
            } else {
                None
            },
        }
    }
}

/// Why a creation is refused, if it is: what `request_refusal` says, or else
/// that the id is taken.
pub open spec fn creation_refusal(
    s: Seq<ListingView>,
    req: CreateListingRequestView,
    id: Seq<char>,
) -> Option<MarketError> {
    if request_refusal(s, req) is Some {
        request_refusal(s, req)
    } else if has_id(s, id) {
        Some(MarketError::InvalidArgument)
    } else {
        None
    }
}

/// A listing after its cancellation at `now`.
pub open spec fn cancelled(l: ListingView, now: Timestamp) -> ListingView {
    ListingView { status: ListingStatus::Cancelled, updated_at: now, ..l }
}

/// A listing after its sale at `now`.
pub open spec fn sold(
    l: ListingView,
    buyer_address: Seq<char>,
    purchase_txid: Seq<char>,
    now: Timestamp,
) -> ListingView {
    ListingView {
        status: ListingStatus::Sold,
        sold_at: Some(now),
        buyer_address: Some(buyer_address),
        purchase_txid: Some(purchase_txid),
        updated_at: now,
        ..l
    }
}

/// Why a cancellation is refused, if it is: no such listing, the wrong
/// address, or a listing that is no longer active, in this order.
pub open spec fn cancel_refusal(
    s: Seq<ListingView>,
    id: Seq<char>,
    seller_ord_address: Seq<char>,
) -> Option<MarketError> {
    match record_of(s, id) {
        None => Some(MarketError::NotFound),
        Some(l) => if l.seller_ord_address != seller_ord_address {
            Some(MarketError::Unauthorized)
        } else if l.status != ListingStatus::Active {
            Some(MarketError::InvalidState)
        } else {
            None
        },
    }
}

/// Why a sale is refused, if it is: no such listing, or a listing that is no
/// longer active.
pub open spec fn sale_refusal(s: Seq<ListingView>, id: Seq<char>) -> Option<MarketError> {
    match record_of(s, id) {
        None => Some(MarketError::NotFound),
        Some(l) => if l.status != ListingStatus::Active {
            Some(MarketError::InvalidState)
        } else {
            None
        },
    }
}

/// Whether two records agree in all that is fixed when a listing is created:
/// its id, its asset and the output that holds it, the seller's two
/// addresses, the fees, and the time of creation.
pub open spec fn same_identity(a: ListingView, b: ListingView) -> bool {
    &&& a.id == b.id
    &&& a.origin == b.origin
    &&& a.seller_address == b.seller_address
    &&& a.seller_ord_address == b.seller_ord_address
    &&& a.fees == b.fees
    &&& a.ordinal_utxo == b.ordinal_utxo
    &&& a.created_at == b.created_at
}

/// Why an overwrite is refused, if it is: no such listing, a stored listing
/// that is no longer active, or a replacement that changes what is fixed.
pub open spec fn update_refusal(s: Seq<ListingView>, l: ListingView) -> Option<MarketError> {
    match record_of(s, l.id) {
        None => Some(MarketError::NotFound),
        Some(stored) => if stored.status != ListingStatus::Active {
            Some(MarketError::InvalidState)
        } else if !same_identity(stored, l) {
            Some(MarketError::InvalidArgument)
        } else {
            None
        },
    }
}

/// The records with the one of this id replaced.
pub open spec fn with_replaced(s: Seq<ListingView>, l: ListingView) -> Seq<ListingView> {
    s.update(position_of(s, l.id), l)
}

/// Replacing a record by one of the same id, asset and creation time, which
/// is active only if the stored one was, leaves a store a store.
pub proof fn lemma_replace_keeps_store(s: Seq<ListingView>, l: ListingView)
    requires
        store_wf(s),
        has_id(s, l.id),
        record_of(s, l.id).unwrap().origin == l.origin,
        record_of(s, l.id).unwrap().created_at == l.created_at,
        l.status == ListingStatus::Active ==> record_of(s, l.id).unwrap().status
            == ListingStatus::Active,
    ensures
        store_wf(with_replaced(s, l)),
        has_id(with_replaced(s, l), l.id),
        record_of(with_replaced(s, l), l.id) == Some(l),
        forall|id: Seq<char>|
            id != l.id ==> has_id(with_replaced(s, l), id) == has_id(s, id) && record_of(
                with_replaced(s, l),
                id,
            ) == record_of(s, id),
{
    let p = position_of(s, l.id);
    let r = with_replaced(s, l);
    assert forall|i: int, j: int| 0 <= i < j < r.len() implies r[i].id != r[j].id by {
        assert(r[i].id == s[i].id && r[j].id == s[j].id);
    }
    assert forall|i: int, j: int|
        0 <= i < j < r.len() && r[i].status == ListingStatus::Active && r[j].status
            == ListingStatus::Active implies r[i].origin != r[j].origin by {
        assert(r[i].origin == s[i].origin && r[j].origin == s[j].origin);
        assert(s[i].status == ListingStatus::Active && s[j].status == ListingStatus::Active);
    }
    assert forall|i: int, j: int| 0 <= i < j < r.len() implies r[i].created_at.spec_not_before(
        r[j].created_at,
    ) by {
        assert(r[i].created_at == s[i].created_at && r[j].created_at == s[j].created_at);
    }
    lemma_record_at(r, p);
    assert forall|id: Seq<char>| id != l.id implies has_id(r, id) == has_id(s, id) && record_of(
        r,
        id,
    ) == record_of(s, id) by {
        if has_id(s, id) {
            let k = position_of(s, id);
            assert(r[k] == s[k]);
            lemma_record_at(s, k);
            lemma_record_at(r, k);
        }
        if has_id(r, id) {
            let k = position_of(r, id);
            assert(r[k] == s[k]);
            lemma_record_at(s, k);
            lemma_record_at(r, k);
        }
    }
}

/// The test that picks the active listings.
pub open spec fn active_test() -> spec_fn(ListingView) -> bool {
    |l: ListingView| l.status == ListingStatus::Active
}

/// The test that picks the listings of one seller.
pub open spec fn seller_test(seller_address: Seq<char>) -> spec_fn(ListingView) -> bool {
    |l: ListingView| l.seller_address == seller_address
}

/// The active listings, newest first.
pub open spec fn active_listings(s: Seq<ListingView>) -> Seq<ListingView> {
    s.filter(active_test())
}

/// The listings of one seller, whatever their status, newest first.
pub open spec fn listings_of_seller(s: Seq<ListingView>, seller_address: Seq<char>) -> Seq<
    ListingView,
> {
    s.filter(seller_test(seller_address))
}

/// Where a page starts among the items: pages are counted from one.
pub open spec fn page_start(len: nat, page: nat, per_page: nat) -> int {
    if (page - 1) * per_page < len {
        (page - 1) * per_page
    } else {
        len as int
    }
}

/// Where a page ends among the items.
pub open spec fn page_end(len: nat, page: nat, per_page: nat) -> int {
    if page * per_page < len {
        (page * per_page) as int
    } else {
        len as int
    }
}

/// The items of one page.
pub open spec fn page_window(items: Seq<ListingView>, page: nat, per_page: nat) -> Seq<
    ListingView,
>
    recommends
        page >= 1,
{
    items.subrange(page_start(items.len(), page, per_page), page_end(items.len(), page, per_page))
}

/// What a filter keeps of one more record.
pub proof fn lemma_filter_next(s: Seq<ListingView>, test: spec_fn(ListingView) -> bool, i: int)
    requires
        0 <= i < s.len(),
    ensures
        s.take(i + 1).filter(test) == if test(s[i]) {
            s.take(i).filter(test).push(s[i])
        } else {
            s.take(i).filter(test)
        },
{
    reveal(Seq::filter);
    assert(s.take(i + 1).drop_last() =~= s.take(i));
}

/// A listing that leaves the active status frees its asset in the same
/// step: the asset has no active record any more, so it can be listed again,
/// and the active records of all other assets are as they were.
pub proof fn law_terminal_status_frees_origin(s: Seq<ListingView>, l: ListingView)
    requires
        store_wf(s),
        has_id(s, l.id),
        record_of(s, l.id).unwrap().origin == l.origin,
        record_of(s, l.id).unwrap().status == ListingStatus::Active,
        l.status != ListingStatus::Active,
    ensures
        !has_active(with_replaced(s, l), l.origin),
        forall|origin: Seq<char>|
            origin != l.origin ==> active_for_origin(with_replaced(s, l), origin)
                == active_for_origin(s, origin),
{
    let p = position_of(s, l.id);
    let r = with_replaced(s, l);
    if has_active(r, l.origin) {
        let k = choose|k: int| 0 <= k < r.len() && #[trigger] is_active_for(r[k], l.origin);
        assert(k != p);
        assert(r[k] == s[k]);
        if k < p {
            assert(s[k].origin != s[p].origin);
        } else {
            assert(s[p].origin != s[k].origin);
        }
    }
    assert forall|origin: Seq<char>| origin != l.origin implies active_for_origin(r, origin)
        == active_for_origin(s, origin) by {
        if has_active(s, origin) {
            let k = choose|k: int| 0 <= k < s.len() && #[trigger] is_active_for(s[k], origin);
            assert(r[k] == s[k]);
            assert(is_active_for(r[k], origin));
            lemma_active_at(s, k);
            assert(one_active_per_origin(r)) by {
                assert forall|i: int, j: int|
                    0 <= i < j < r.len() && r[i].status == ListingStatus::Active && r[j].status
                        == ListingStatus::Active implies r[i].origin != r[j].origin by {
                    assert(r[i] == s[i] && r[j] == s[j]);
                }
            }
            lemma_active_at(r, k);
        }
        if has_active(r, origin) {
            let k = choose|k: int| 0 <= k < r.len() && #[trigger] is_active_for(r[k], origin);
            assert(r[k] == s[k]);
            assert(is_active_for(s[k], origin));
        }
    }
}

/// Every listing that a request creates carries fees that add up: the total
/// price is the ask, the marketplace fee and the tip together, the seller
/// receives the ask, and the fee and the tip are the ceilings of one percent
/// and of the tier's percentage of the ask.
pub proof fn law_created_fees_add_up(
    s: Seq<ListingView>,
    req: CreateListingRequestView,
    id: Seq<char>,
    now: Timestamp,
)
    requires
        creation_refusal(s, req, id) is None,
    ensures
        ({
            let tip = TipTier::spec_from_basis_points(req.tip_basis_points as nat).unwrap();
            let fees = new_listing(req, id, now, tip).fees;
            &&& fees.total_price == fees.seller_receives + fees.marketplace_fee + fees.tip_amount
            &&& fees.seller_receives == req.seller_wants_satoshis
            &&& fees.marketplace_fee * 100 >= fees.seller_receives
            &&& fees.marketplace_fee * 100 < fees.seller_receives + 100
            &&& fees.tip_amount * 10000 >= fees.seller_receives * tip.spec_basis_points()
            &&& fees.tip_amount * 10000 < fees.seller_receives * tip.spec_basis_points() + 10000
            &&& fees.tip == tip
        }),
{
    let tip = TipTier::spec_from_basis_points(req.tip_basis_points as nat).unwrap();
    law_fees_add_up_and_round_up(req.seller_wants_satoshis, tip);
}

/// What is fixed at a listing's creation stays fixed in every transition: a
/// cancellation and a sale change neither its id, its asset and the output
/// that holds it, the seller's addresses, its fees, nor its time of creation.
pub proof fn law_transitions_keep_identity(
    l: ListingView,
    buyer_address: Seq<char>,
    purchase_txid: Seq<char>,
    now: Timestamp,
)
    ensures
        same_identity(l, cancelled(l, now)),
        same_identity(l, sold(l, buyer_address, purchase_txid, now)),
        cancelled(l, now).status == ListingStatus::Cancelled,
        sold(l, buyer_address, purchase_txid, now).status == ListingStatus::Sold,
{
}

/// At every moment an asset has at most one active listing: two active
/// records of one asset are one record, and it is the one that a lookup by
/// origin finds.
pub proof fn law_one_active_per_origin(s: Seq<ListingView>, origin: Seq<char>, a: int, b: int)
    requires
        store_wf(s),
        0 <= a < s.len(),
        0 <= b < s.len(),
        is_active_for(s[a], origin),
        is_active_for(s[b], origin),
    ensures
        a == b,
        active_for_origin(s, origin) == Some(s[a]),
{
    if a < b {
        assert(s[a].origin != s[b].origin);
    } else if b < a {
        assert(s[b].origin != s[a].origin);
    }
    lemma_active_at(s, a);
}

/// A listing that is sold or cancelled cannot be cancelled: the attempt
/// fails with `InvalidState` where the address is the one that may cancel
/// it, and with `Unauthorized` where it is not.
pub proof fn law_cancel_of_terminal_fails(
    s: Seq<ListingView>,
    id: Seq<char>,
    seller_ord_address: Seq<char>,
)
    requires
        store_wf(s),
        has_id(s, id),
        record_of(s, id).unwrap().status != ListingStatus::Active,
    ensures
        cancel_refusal(s, id, seller_ord_address) == Some(
            if record_of(s, id).unwrap().seller_ord_address == seller_ord_address {
                MarketError::InvalidState
            } else {
                MarketError::Unauthorized
            },
        ),
{
}

/// A cancellation never succeeds twice: after one that succeeded, the same
/// request fails with `InvalidState`, at whatever time the first was made.
pub proof fn law_cancel_never_twice(
    s: Seq<ListingView>,
    id: Seq<char>,
    seller_ord_address: Seq<char>,
    now: Timestamp,
)
    requires
        store_wf(s),
        cancel_refusal(s, id, seller_ord_address) is None,
    ensures
        cancel_refusal(
            with_replaced(s, cancelled(record_of(s, id).unwrap(), now)),
            id,
            seller_ord_address,
        ) == Some(MarketError::InvalidState),
{
    let l = cancelled(record_of(s, id).unwrap(), now);
    lemma_record_at(s, position_of(s, id));
    lemma_replace_keeps_store(s, l);
}

/// A sale never succeeds twice: after one that succeeded, a second attempt
/// on the listing fails with `InvalidState`, whatever buyer and transaction
/// it names, and the listing still carries the buyer and the transaction of
/// the first.
pub proof fn law_sale_never_twice(
    s: Seq<ListingView>,
    id: Seq<char>,
    buyer_address: Seq<char>,
    purchase_txid: Seq<char>,
    now: Timestamp,
)
    requires
        store_wf(s),
        sale_refusal(s, id) is None,
    ensures
        ({
            let after = with_replaced(
                s,
                sold(record_of(s, id).unwrap(), buyer_address, purchase_txid, now),
            );
            &&& sale_refusal(after, id) == Some(MarketError::InvalidState)
            &&& record_of(after, id).unwrap().purchase_txid == Some(purchase_txid)
            &&& record_of(after, id).unwrap().buyer_address == Some(buyer_address)
            &&& record_of(after, id).unwrap().status == ListingStatus::Sold
        }),
{
    let l = sold(record_of(s, id).unwrap(), buyer_address, purchase_txid, now);
    lemma_record_at(s, position_of(s, id));
    lemma_replace_keeps_store(s, l);
}

/// A listing that was just created is the active listing of its asset, and
/// the one its id names.
pub proof fn law_created_is_listed(s: Seq<ListingView>, l: ListingView)
    requires
        store_wf(s),
        admits(s, l),
        l.status == ListingStatus::Active,
    ensures
        record_of(with_inserted(s, l), l.id) == Some(l),
        active_for_origin(with_inserted(s, l), l.origin) == Some(l),
{
    lemma_insert_keeps_store(s, l);
    lemma_insert_position(s, l.created_at);
    let p = insert_position(s, l.created_at);
    assert(with_inserted(s, l)[p] == l);
    lemma_active_at(with_inserted(s, l), p);
}

/// The index by origin: for every asset that has an active listing, the id of
/// that listing, and nothing for any other asset.
pub open spec fn origin_index(s: Seq<ListingView>) -> Map<Seq<char>, Seq<char>> {
    Map::new(
        |origin: Seq<char>| has_active(s, origin),
        |origin: Seq<char>| active_for_origin(s, origin).unwrap().id,
    )
}

/// The index by origin after a listing was written: the listing's entry is
/// there while the listing is active, and gone once it is not.
pub open spec fn origin_index_with(index: Map<Seq<char>, Seq<char>>, l: ListingView) -> Map<
    Seq<char>,
    Seq<char>,
> {
    if l.status == ListingStatus::Active {
        index.insert(l.origin, l.id)
    } else {
        index.remove(l.origin)
    }
}

/// The index by origin follows the records: when a new active listing joins
/// the store, and when an active listing is replaced by one of the same
/// asset, writing that one listing's entry brings the index up to date.
pub proof fn law_origin_index_follows(s: Seq<ListingView>, l: ListingView)
    requires
        store_wf(s),
    ensures
        admits(s, l) && l.status == ListingStatus::Active ==> origin_index(with_inserted(s, l))
            == origin_index_with(origin_index(s), l),
        has_id(s, l.id) && record_of(s, l.id).unwrap().status == ListingStatus::Active
            && record_of(s, l.id).unwrap().origin == l.origin && record_of(
            s,
            l.id,
        ).unwrap().created_at == l.created_at ==> origin_index(with_replaced(s, l))
            == origin_index_with(origin_index(s), l),
{
    if admits(s, l) && l.status == ListingStatus::Active {
        let r = with_inserted(s, l);
        let p = insert_position(s, l.created_at);
        lemma_insert_position(s, l.created_at);
        lemma_insert_keeps_store(s, l);
        law_created_is_listed(s, l);
        assert forall|origin: Seq<char>| origin != l.origin implies has_active(r, origin)
            == has_active(s, origin) && active_for_origin(r, origin) == active_for_origin(
            s,
            origin,
        ) by {
            if has_active(s, origin) {
                let k = choose|k: int| 0 <= k < s.len() && #[trigger] is_active_for(s[k], origin);
                let k2 = if k < p {
                    k
                } else {
                    k + 1
                };
                assert(r[k2] == s[k]);
                assert(is_active_for(r[k2], origin));
                lemma_active_at(s, k);
                lemma_active_at(r, k2);
            }
            if has_active(r, origin) {
                let k = choose|k: int| 0 <= k < r.len() && #[trigger] is_active_for(r[k], origin);
                assert(k != p);
                let k2 = if k < p {
                    k
                } else {
                    k - 1
                };
                assert(r[k] == s[k2]);
                assert(is_active_for(s[k2], origin));
            }
        }
        assert(origin_index(r) =~= origin_index_with(origin_index(s), l));
    }
    if has_id(s, l.id) && record_of(s, l.id).unwrap().status == ListingStatus::Active && record_of(
        s,
        l.id,
    ).unwrap().origin == l.origin && record_of(s, l.id).unwrap().created_at == l.created_at {
        let r = with_replaced(s, l);
        let p = position_of(s, l.id);
        lemma_replace_keeps_store(s, l);
        assert(r[p] == l);
        assert forall|origin: Seq<char>| origin != l.origin implies has_active(r, origin)
            == has_active(s, origin) && active_for_origin(r, origin) == active_for_origin(
            s,
            origin,
        ) by {
            if has_active(s, origin) {
                let k = choose|k: int| 0 <= k < s.len() && #[trigger] is_active_for(s[k], origin);
                assert(r[k] == s[k]);
                assert(is_active_for(r[k], origin));
                lemma_active_at(s, k);
                lemma_active_at(r, k);
            }
            if has_active(r, origin) {
                let k = choose|k: int| 0 <= k < r.len() && #[trigger] is_active_for(r[k], origin);
                assert(r[k] == s[k]);
                assert(is_active_for(s[k], origin));
            }
        }
        if l.status == ListingStatus::Active {
            lemma_active_at(r, p);
        } else {
            law_terminal_status_frees_origin(s, l);
        }
        assert(origin_index(r) =~= origin_index_with(origin_index(s), l));
    }
}

} // verus!
