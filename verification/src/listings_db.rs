//! The listing store: every listing that was ever created, with the
//! transitions a listing can make.
//!
//! The store keeps its records newest first. It never holds two records with
//! one id, nor two active records for one asset; the operations below keep it
//! so, and say exactly which records they change.

use crate::clock::{current_time, fresh_listing_id};
use crate::error::MarketError;
use crate::fees::{ListingFees, TipTier};
use crate::models::{CreateListingRequest, Listing, ListingStatus, ListingView, Timestamp};
use crate::store_model::{
    active_for_origin, active_listings, active_test, admits, cancel_refusal, cancelled,
    creation_refusal, has_active, has_id, insert_position, is_active_for, lemma_active_at,
    lemma_filter_next, lemma_insert_keeps_store, lemma_record_at, lemma_replace_keeps_store,
    listings_of_seller, new_listing, page_window, position_of, record_of, request_refusal,
    sale_refusal, seller_test, sold, store_wf, update_refusal, with_inserted, with_replaced,
};
use crate::text::same_text;
use vstd::prelude::*;

verus! {

/// The listing store.
pub struct ListingsDb {
    records: Vec<Listing>,
}

impl View for ListingsDb {
    type V = Seq<ListingView>;

    closed spec fn view(&self) -> Seq<ListingView> {
        self.records.deep_view()
    }
}

impl ListingsDb {
    /// What holds of every store: see `store_wf`.
    pub open spec fn wf(&self) -> bool {
        store_wf(self@)
    }

    /// A store without records.
    pub fn new() -> (db: ListingsDb)
        ensures
            db.wf(),
            db@ == Seq::<ListingView>::empty(),
    {
        let db = ListingsDb { records: Vec::new() };
        assert(db@ =~= Seq::<ListingView>::empty());
        db
    }

    /// The place of the record with this id, or the number of records where
    /// there is none.
    fn find(&self, id: &str) -> (i: usize)
        requires
            self.wf(),
        ensures
            i <= self.records.len(),
            i < self.records.len() ==> self@[i as int].id == id@ && has_id(self@, id@)
                && position_of(self@, id@) == i,
            i == self.records.len() ==> !has_id(self@, id@),
    {
        let mut i: usize = 0;
        while i < self.records.len()
            invariant
                i <= self.records.len(),
                self.wf(),
                self@ == self.records.deep_view(),
                forall|j: int| 0 <= j < i ==> self@[j].id != id@,
            decreases self.records.len() - i,
        {
            if same_text(self.records[i].id.as_str(), id) {
                proof {
                    lemma_record_at(self@, i as int);
                }
                return i;
            }
            i += 1;
        }
        i
    }

    /// The place of the active record of this asset, or the number of records
    /// where there is none.
    fn find_active(&self, origin: &str) -> (i: usize)
        requires
            self.wf(),
        ensures
            i <= self.records.len(),
            i < self.records.len() ==> is_active_for(self@[i as int], origin@) && has_active(
                self@,
                origin@,
            ) && active_for_origin(self@, origin@) == Some(self@[i as int]),
            i == self.records.len() ==> !has_active(self@, origin@),
    {
        let mut i: usize = 0;
        while i < self.records.len()
            invariant
                i <= self.records.len(),
                self.wf(),
                self@ == self.records.deep_view(),
                forall|j: int| 0 <= j < i ==> !is_active_for(self@[j], origin@),
            decreases self.records.len() - i,
        {
            if self.records[i].status == ListingStatus::Active && same_text(
                self.records[i].origin.as_str(),
                origin,
            ) {
                proof {
                    lemma_active_at(self@, i as int);
                }
                return i;
            }
            i += 1;
        }
        i
    }

    /// Puts a record into the store, at its place by creation time. A record
    /// whose id is taken is refused, and so is an active record for an asset
    /// that has one.
    pub fn insert_record(&mut self, listing: Listing) -> (r: Result<(), MarketError>)
        requires
            old(self).wf(),
        ensures
            final(self).wf(),
            admits(old(self)@, listing@) ==> r is Ok && final(self)@ == with_inserted(
                old(self)@,
                listing@,
            ),
            !admits(old(self)@, listing@) ==> r == Err::<(), MarketError>(MarketError::Conflict)
                && final(self)@ == old(self)@,
    {
        if self.find(listing.id.as_str()) < self.records.len() {
            return Err(MarketError::Conflict);
        }
        if listing.status == ListingStatus::Active && self.find_active(listing.origin.as_str())
            < self.records.len() {
            return Err(MarketError::Conflict);
        }
        let mut p: usize = 0;
        assert(self@.skip(0) =~= self@);
        while p < self.records.len() && self.records[p].created_at.later_than(&listing.created_at)
            invariant
                p <= self.records.len(),
                self@ == self.records.deep_view(),
                insert_position(self@, listing.created_at) == p + insert_position(
                    self@.skip(p as int),
                    listing.created_at,
                ),
            decreases self.records.len() - p,
        {
            proof {
                assert(self@.skip(p as int).drop_first() =~= self@.skip(p + 1));
            }
            p += 1;
        }
        proof {
            lemma_insert_keeps_store(self@, listing@);
        }
        let ghost before = self@;
        let ghost added = listing@;
        self.records.insert(p, listing);
        assert(self@ =~= before.insert(p as int, added));
        Ok(())
    }

    /// Creates a listing under the id and at the time that are handed in.
    ///
    /// The request is refused with `Conflict` where the asset has an active
    /// listing, and with `InvalidArgument` where the tip is none of the tiers,
    /// the total price does not fit the amount type, or the id is taken. Else
    /// the new listing is active, carries the fees of its ask and tier, and
    /// stands in the store.
    pub fn create_listing_with(
        &mut self,
        request: CreateListingRequest,
        id: String,
        now: Timestamp,
    ) -> (r: Result<Listing, MarketError>)
        requires
            old(self).wf(),
        ensures
            final(self).wf(),
            match creation_refusal(old(self)@, request@, id@) {
                Some(e) => r == Err::<Listing, MarketError>(e) && final(self)@ == old(self)@,
                None => r matches Ok(l) && l@ == new_listing(
                    request@,
                    id@,
                    now,
                    TipTier::spec_from_basis_points(request.tip_basis_points as nat).unwrap(),
                ) && final(self)@ == with_inserted(old(self)@, l@),
            },
    {
        if self.find_active(request.origin.as_str()) < self.records.len() {
            return Err(MarketError::Conflict);
        }
        let tip = match TipTier::from_basis_points(request.tip_basis_points) {
            Some(tip) => tip,
            None => {
                return Err(MarketError::InvalidArgument);
            },
        };
        let fees = match ListingFees::checked_calculate(request.seller_wants_satoshis, tip) {
            Some(fees) => fees,
            None => {
                return Err(MarketError::InvalidArgument);
            },
        };
        if self.find(id.as_str()) < self.records.len() {
            return Err(MarketError::InvalidArgument);
        }
        let listing = Listing {
            id,
            origin: request.origin,
            seller_address: request.seller_address,
            seller_ord_address: request.seller_ord_address,
            fees,
            status: ListingStatus::Active,
            psbt_hex: None,
            listing_utxo: None,
            ordinal_utxo: request.ordinal_utxo,
            created_at: now,
            updated_at: now,
            sold_at: None,
            buyer_address: None,
            purchase_txid: None,
        };
        let created = listing.clone();
        let inserted = self.insert_record(listing);
        Ok(created)
    }

    /// Creates a listing with a fresh id, at the present time.
    ///
    /// The request is refused as `create_listing_with` refuses it. The id is
    /// drawn at random and the time is read from the clock, so the contract
    /// speaks of them as the new listing reports them. A request that is not
    /// refused for what it holds fails only where the id that was drawn is
    /// taken, which no id is in a store without records.
    pub fn create_listing(&mut self, request: CreateListingRequest) -> (r: Result<
        Listing,
        MarketError,
    >)
        requires
            old(self).wf(),
        ensures
            final(self).wf(),
            request_refusal(old(self)@, request@) matches Some(e) ==> r == Err::<
                Listing,
                MarketError,
            >(e),
            request_refusal(old(self)@, request@) is None && old(self)@.len() == 0 ==> r is Ok,
            r matches Ok(l) ==> (creation_refusal(old(self)@, request@, l@.id) is None && l@
                == new_listing(
                request@,
                l@.id,
                l@.created_at,
                TipTier::spec_from_basis_points(request.tip_basis_points as nat).unwrap(),
            ) && final(self)@ == with_inserted(old(self)@, l@)),
            r matches Err(e) ==> (final(self)@ == old(self)@ && (request_refusal(
                old(self)@,
                request@,
            ) == Some(e) || (request_refusal(old(self)@, request@) is None && e
                == MarketError::InvalidArgument))),
    {
        let id = fresh_listing_id();
        let now = current_time();
        self.create_listing_with(request, id, now)
    }

    /// Overwrites the record that has the id of `listing`.
    ///
    /// The overwrite is refused with `NotFound` where no record has the id,
    /// with `InvalidState` where the stored record is no longer active, and
    /// with `InvalidArgument` where the replacement differs from the stored
    /// record in what is fixed at creation (see `same_identity`). No other
    /// record changes.
    pub fn update_listing(&mut self, listing: &Listing) -> (r: Result<(), MarketError>)
        requires
            old(self).wf(),
        ensures
            final(self).wf(),
            match update_refusal(old(self)@, listing@) {
                Some(e) => r == Err::<(), MarketError>(e) && final(self)@ == old(self)@,
                None => r is Ok && final(self)@ == with_replaced(old(self)@, listing@),
            },
    {
        let i = self.find(listing.id.as_str());
        if i >= self.records.len() {
            return Err(MarketError::NotFound);
        }
        let stored = &self.records[i];
        if stored.status != ListingStatus::Active {
            return Err(MarketError::InvalidState);
        }
        let unchanged = same_text(stored.origin.as_str(), listing.origin.as_str()) && same_text(
            stored.seller_address.as_str(),
            listing.seller_address.as_str(),
        ) && same_text(stored.seller_ord_address.as_str(), listing.seller_ord_address.as_str())
            && stored.fees == listing.fees && same_text(
            stored.ordinal_utxo.txid.as_str(),
            listing.ordinal_utxo.txid.as_str(),
        ) && stored.ordinal_utxo.vout == listing.ordinal_utxo.vout && stored.ordinal_utxo.satoshis
            == listing.ordinal_utxo.satoshis && same_text(
            stored.ordinal_utxo.script.as_str(),
            listing.ordinal_utxo.script.as_str(),
        ) && stored.created_at == listing.created_at;
        if !unchanged {
            return Err(MarketError::InvalidArgument);
        }
        self.replace_at(i, listing.clone());
        Ok(())
    }

    /// Puts `listing` in the place of the record at `i`, which has its id.
    fn replace_at(&mut self, i: usize, listing: Listing)
        requires
            old(self).wf(),
            i < old(self)@.len(),
            old(self)@[i as int].id == listing@.id,
            old(self)@[i as int].origin == listing@.origin,
            old(self)@[i as int].created_at == listing@.created_at,
            listing@.status == ListingStatus::Active ==> old(self)@[i as int].status
                == ListingStatus::Active,
        ensures
            final(self).wf(),
            final(self)@ == with_replaced(old(self)@, listing@),
            record_of(final(self)@, listing@.id) == Some(listing@),
    {
        proof {
            lemma_record_at(self@, i as int);
            lemma_replace_keeps_store(self@, listing@);
        }
        let ghost before = self@;
        let ghost put = listing@;
        self.records.set(i, listing);
        assert(self@ =~= before.update(i as int, put));
    }

    /// Cancels a listing at the time that is handed in.
    ///
    /// The cancellation is refused with `NotFound` where no listing has the
    /// id, with `Unauthorized` where the address is not the one that may
    /// cancel it, and with `InvalidState` where the listing is no longer
    /// active. Else the listing becomes `Cancelled`, its time of change is
    /// `now`, and from then on its asset has no active listing.
    pub fn cancel_listing_at(&mut self, id: &str, seller_ord_address: &str, now: Timestamp) -> (r:
        Result<Listing, MarketError>)
        requires
            old(self).wf(),
        ensures
            final(self).wf(),
            match cancel_refusal(old(self)@, id@, seller_ord_address@) {
                Some(e) => r == Err::<Listing, MarketError>(e) && final(self)@ == old(self)@,
                None => r matches Ok(l) && l@ == cancelled(
                    record_of(old(self)@, id@).unwrap(),
                    now,
                ) && final(self)@ == with_replaced(old(self)@, l@),
            },
    {
        let i = self.find(id);
        if i >= self.records.len() {
            return Err(MarketError::NotFound);
        }
        if !same_text(self.records[i].seller_ord_address.as_str(), seller_ord_address) {
            return Err(MarketError::Unauthorized);
        }
        if self.records[i].status != ListingStatus::Active {
            return Err(MarketError::InvalidState);
        }
        let mut listing = self.records[i].clone();
        listing.status = ListingStatus::Cancelled;
        listing.updated_at = now;
        let changed = listing.clone();
        self.replace_at(i, listing);
        Ok(changed)
    }

    /// Cancels a listing at the present time.
    ///
    /// The cancellation is refused as `cancel_listing_at` refuses it. The
    /// time is read from the clock, so the contract speaks of it as the
    /// cancelled listing reports it.
    pub fn cancel_listing(&mut self, id: &str, seller_ord_address: &str) -> (r: Result<
        Listing,
        MarketError,
    >)
        requires
            old(self).wf(),
        ensures
            final(self).wf(),
            match cancel_refusal(old(self)@, id@, seller_ord_address@) {
                Some(e) => r == Err::<Listing, MarketError>(e) && final(self)@ == old(self)@,
                None => r matches Ok(l) && l@ == cancelled(
                    record_of(old(self)@, id@).unwrap(),
                    l@.updated_at,
                ) && final(self)@ == with_replaced(old(self)@, l@),
            },
    {
        let now = current_time();
        self.cancel_listing_at(id, seller_ord_address, now)
    }

    /// Marks a listing as sold at the time that is handed in.
    ///
    /// The sale is refused with `NotFound` where no listing has the id and
    /// with `InvalidState` where the listing is no longer active. Else the
    /// status, the buyer, the purchase transaction and the times change
    /// together, and from then on the asset has no active listing.
    pub fn mark_listing_sold_at(
        &mut self,
        id: &str,
        buyer_address: &str,
        purchase_txid: &str,
        now: Timestamp,
    ) -> (r: Result<Listing, MarketError>)
        requires
            old(self).wf(),
        ensures
            final(self).wf(),
            match sale_refusal(old(self)@, id@) {
                Some(e) => r == Err::<Listing, MarketError>(e) && final(self)@ == old(self)@,
                None => r matches Ok(l) && l@ == sold(
                    record_of(old(self)@, id@).unwrap(),
                    buyer_address@,
                    purchase_txid@,
                    now,
                ) && final(self)@ == with_replaced(old(self)@, l@),
            },
    {
        let i = self.find(id);
        if i >= self.records.len() {
            return Err(MarketError::NotFound);
        }
        if self.records[i].status != ListingStatus::Active {
            return Err(MarketError::InvalidState);
        }
        let mut listing = self.records[i].clone();
        listing.status = ListingStatus::Sold;
        listing.sold_at = Some(now);
        listing.buyer_address = Some(buyer_address.to_owned());
        listing.purchase_txid = Some(purchase_txid.to_owned());
        listing.updated_at = now;
        let changed = listing.clone();
        self.replace_at(i, listing);
        Ok(changed)
    }

    /// Marks a listing as sold at the present time.
    ///
    /// The sale is refused as `mark_listing_sold_at` refuses it. The time is
    /// read from the clock, so the contract speaks of it as the sold listing
    /// reports it.
    pub fn mark_listing_sold(&mut self, id: &str, buyer_address: &str, purchase_txid: &str) -> (r:
        Result<Listing, MarketError>)
        requires
            old(self).wf(),
        ensures
            final(self).wf(),
            match sale_refusal(old(self)@, id@) {
                Some(e) => r == Err::<Listing, MarketError>(e) && final(self)@ == old(self)@,
                None => r matches Ok(l) && l@ == sold(
                    record_of(old(self)@, id@).unwrap(),
                    buyer_address@,
                    purchase_txid@,
                    l@.updated_at,
                ) && final(self)@ == with_replaced(old(self)@, l@),
            },
    {
        let now = current_time();
        self.mark_listing_sold_at(id, buyer_address, purchase_txid, now)
    }

    /// Copies of the active records, in the order of the store.
    fn collect_active(&self) -> (r: Vec<Listing>)
        ensures
            r.deep_view() == active_listings(self@),
    {
        let mut out: Vec<Listing> = Vec::new();
        let mut i: usize = 0;
        assert(self@.take(0).filter(active_test()) =~= Seq::<ListingView>::empty()) by {
            reveal(Seq::filter);
        }
        while i < self.records.len()
            invariant
                i <= self.records.len(),
                self@ == self.records.deep_view(),
                out.deep_view() == self@.take(i as int).filter(active_test()),
            decreases self.records.len() - i,
        {
            proof {
                lemma_filter_next(self@, active_test(), i as int);
            }
            if self.records[i].status == ListingStatus::Active {
                let ghost before = out.deep_view();
                out.push(self.records[i].clone());
                assert(out.deep_view() =~= before.push(self@[i as int]));
            }
            i += 1;
        }
        assert(self@.take(i as int) =~= self@);
        out
    }

    /// The active listings of one page, newest first, and the number of all
    /// active listings. Pages are counted from one; page zero, or a page of
    /// no items, is refused with `InvalidArgument`.
    pub fn get_active_listings(&self, page: usize, per_page: usize) -> (r: Result<
        (Vec<Listing>, usize),
        MarketError,
    >)
        requires
            self.wf(),
        ensures
            page < 1 || per_page == 0 ==> r == Err::<(Vec<Listing>, usize), MarketError>(
                MarketError::InvalidArgument,
            ),
            page >= 1 && per_page >= 1 ==> (r matches Ok((items, total)) && total
                == active_listings(self@).len() && items.deep_view() == page_window(
                active_listings(self@),
                page as nat,
                per_page as nat,
            )),
    {
        if page < 1 || per_page == 0 {
            return Err(MarketError::InvalidArgument);
        }
        let all = self.collect_active();
        let total = all.len();
        assert((page - 1) * per_page <= 0xffff_ffff_ffff_ffff * 0xffff_ffff_ffff_ffff
            && page * per_page <= 0xffff_ffff_ffff_ffff * 0xffff_ffff_ffff_ffff)
            by (nonlinear_arith)
            requires
                1 <= page <= 0xffff_ffff_ffff_ffff,
                per_page <= 0xffff_ffff_ffff_ffff,
        ;
        let first: u128 = (page - 1) as u128 * per_page as u128;
        let past: u128 = page as u128 * per_page as u128;
        let from: usize = if first < total as u128 {
            first as usize
        } else {
            total
        };
        let to: usize = if past < total as u128 {
            past as usize
        } else {
            total
        };
        assert(from <= to) by (nonlinear_arith)
            requires
                first == (page - 1) * per_page,
                past == page * per_page,
                from == (if first < total { first as int } else { total as int }),
                to == (if past < total { past as int } else { total as int }),
                per_page >= 0,
        ;
        let mut items: Vec<Listing> = Vec::new();
        let mut i: usize = from;
        while i < to
            invariant
                from <= i <= to <= all.len(),
                items.deep_view() == all.deep_view().subrange(from as int, i as int),
            decreases to - i,
        {
            let ghost before = items.deep_view();
            items.push(all[i].clone());
            assert(items.deep_view() =~= before.push(all.deep_view()[i as int]));
            assert(all.deep_view().subrange(from as int, i + 1) =~= all.deep_view().subrange(
                from as int,
                i as int,
            ).push(all.deep_view()[i as int]));
            i += 1;
        }
        Ok((items, total))
    }

    /// All listings of one seller, whatever their status, newest first.
    pub fn get_listings_by_seller(&self, seller_address: &str) -> (r: Vec<Listing>)
        requires
            self.wf(),
        ensures
            r.deep_view() == listings_of_seller(self@, seller_address@),
    {
        let mut out: Vec<Listing> = Vec::new();
        let mut i: usize = 0;
        assert(self@.take(0).filter(seller_test(seller_address@)) =~= Seq::<ListingView>::empty())
            by {
            reveal(Seq::filter);
        }
        while i < self.records.len()
            invariant
                i <= self.records.len(),
                self@ == self.records.deep_view(),
                out.deep_view() == self@.take(i as int).filter(seller_test(seller_address@)),
            decreases self.records.len() - i,
        {
            proof {
                lemma_filter_next(self@, seller_test(seller_address@), i as int);
            }
            if same_text(self.records[i].seller_address.as_str(), seller_address) {
                let ghost before = out.deep_view();
                out.push(self.records[i].clone());
                assert(out.deep_view() =~= before.push(self@[i as int]));
            }
            i += 1;
        }
        assert(self@.take(i as int) =~= self@);
        out
    }

    /// The number of active listings.
    pub fn count_active_listings(&self) -> (r: usize)
        requires
            self.wf(),
        ensures
            r == active_listings(self@).len(),
    {
        let mut count: usize = 0;
        let mut i: usize = 0;
        assert(self@.take(0).filter(active_test()) =~= Seq::<ListingView>::empty()) by {
            reveal(Seq::filter);
        }
        while i < self.records.len()
            invariant
                i <= self.records.len(),
                self@ == self.records.deep_view(),
                count == self@.take(i as int).filter(active_test()).len(),
                count <= i,
            decreases self.records.len() - i,
        {
            proof {
                lemma_filter_next(self@, active_test(), i as int);
            }
            if self.records[i].status == ListingStatus::Active {
                count += 1;
            }
            i += 1;
        }
        assert(self@.take(i as int) =~= self@);
        count
    }

    /// The active listing of this asset, if it has one.
    pub fn get_listing_by_origin(&self, origin: &str) -> (r: Option<Listing>)
        requires
            self.wf(),
        ensures
            r.deep_view() == active_for_origin(self@, origin@),
    {
        let i = self.find_active(origin);
        if i < self.records.len() {
            Some(self.records[i].clone())
        } else {
            None
        }
    }

    /// Whether this asset has an active listing.
    pub fn is_origin_listed(&self, origin: &str) -> (r: bool)
        requires
            self.wf(),
        ensures
            r == has_active(self@, origin@),
    {
        self.find_active(origin) < self.records.len()
    }

    /// The listing with this id, if there is one.
    pub fn get_listing(&self, id: &str) -> (r: Option<Listing>)
        requires
            self.wf(),
        ensures
            r.deep_view() == record_of(self@, id@),
    {
        let i = self.find(id);
        if i < self.records.len() {
            Some(self.records[i].clone())
        } else {
            None
        }
    }
}

} // verus!
