//! The requests a marketplace answers, as values: what is asked, what is
//! decided on it, and what is answered. Carrying the values over a network
//! is the caller's part.

use crate::error::MarketError;
use crate::fees::{total_price_of, ListingFees, TipTier};
use crate::listings_db::ListingsDb;
use crate::models::{CreateListingRequest, Listing, ListingView, OrdinalUtxoRef};
use crate::store_model::{
    active_for_origin, active_listings, cancel_refusal, cancelled, creation_refusal,
    listings_of_seller, new_listing, page_window, record_of, request_refusal, with_inserted,
    with_replaced,
};
use crate::text::same_text;
use vstd::prelude::*;

verus! {

/// What a caller is told when a request fails: the kind of the failure, a
/// reason to show, and details if there are any.
#[derive(Debug, PartialEq, Eq)]
pub struct ApiError {
    pub error: String,
    pub message: String,
    pub details: Option<String>,
}

impl ApiError {
    /// An error of a kind, with a reason and without details.
    pub fn new(error: &str, message: &str) -> (r: Self)
        ensures
            r.error@ == error@,
            r.message@ == message@,
            r.details is None,
    {
        ApiError { error: error.to_owned(), message: message.to_owned(), details: None }
    }

    /// The same error with these details, in place of any it had.
    pub fn with_details(self, details: &str) -> (r: Self)
        ensures
            r.error == self.error,
            r.message == self.message,
            r.details matches Some(d) && d@ == details@,
    {
        ApiError { error: self.error, message: self.message, details: Some(details.to_owned()) }
    }
}

/// What a caller is told of a failure: its kind and its reason, without
/// details.
pub fn api_error(e: &MarketError) -> (r: ApiError)
    ensures
        r.error@ == e.spec_kind(),
        r.message@ == e.spec_reason(),
        r.details is None,
{
    let reason = e.reason();
    ApiError::new(e.kind(), reason.as_str())
}

/// The query of a fee preview.
#[derive(Debug)]
pub struct FeeCalcQuery {
    pub amount: u64,
    /// The tip in basis points: 0, 250 or 500.
    pub tip_basis_points: u32,
}

/// The answer to a fee preview.
#[derive(Debug, PartialEq, Eq)]
pub struct FeeCalculationResponse {
    pub success: bool,
    pub fees: ListingFees,
}

/// Previews the fees of an ask at a tier. A tip that is no tier is refused
/// with `InvalidArgument`, and so is an ask whose total price does not fit
/// the amount type.
pub fn calculate_fees(params: &FeeCalcQuery) -> (r: Result<FeeCalculationResponse, MarketError>)
    ensures
        match TipTier::spec_from_basis_points(params.tip_basis_points as nat) {
            Some(tip) => if total_price_of(params.amount as nat, tip) <= u64::MAX {
                r == Ok::<FeeCalculationResponse, MarketError>(
                    FeeCalculationResponse {
                        success: true,
                        fees: ListingFees::spec_calculate(params.amount, tip),
                    },
                )
            } else {
                r == Err::<FeeCalculationResponse, MarketError>(MarketError::InvalidArgument)
            },
            None => r == Err::<FeeCalculationResponse, MarketError>(MarketError::InvalidArgument),
        },
{
    let tip = match TipTier::from_basis_points(params.tip_basis_points) {
        Some(tip) => tip,
        None => {
            return Err(MarketError::InvalidArgument);
        },
    };
    match ListingFees::checked_calculate(params.amount, tip) {
        Some(fees) => Ok(FeeCalculationResponse { success: true, fees }),
        None => Err(MarketError::InvalidArgument),
    }
}

/// The page of a list of listings where the query names none: the first.
pub fn default_page() -> (r: usize)
    ensures
        r == 1,
{
    1
}

/// The size of a page where the query names none.
pub fn default_per_page() -> (r: usize)
    ensures
        r == 50,
{
    50
}

/// The query of a list of listings.
#[derive(Debug)]
pub struct ListingsQuery {
    /// The page, counted from one.
    pub page: usize,
    pub per_page: usize,
    /// Where it is set, the listings of this seller are asked for.
    pub seller: Option<String>,
    pub status: Option<String>,
}

/// A list of listings, with the window it was cut to.
#[derive(Debug, PartialEq, Eq)]
pub struct ListingsResponse {
    pub success: bool,
    pub listings: Vec<Listing>,
    pub total: usize,
    pub page: usize,
    pub per_page: usize,
}

/// Lists listings.
///
/// With a seller, the answer holds all of that seller's listings, whatever
/// their status, as one page. Without one, it holds the asked page of the
/// active listings, and their number; page zero or a page of no items is
/// refused with `InvalidArgument`. Either way the newest come first.
pub fn get_listings(db: &ListingsDb, params: &ListingsQuery) -> (r: Result<
    ListingsResponse,
    MarketError,
>)
    requires
        db.wf(),
    ensures
        match params.seller {
            Some(seller) => (r matches Ok(response) && response.success
                && response.listings.deep_view() == listings_of_seller(db@, seller@)
                && response.total == response.listings.len() && response.page == 1
                && response.per_page == response.total),
            None => if params.page < 1 || params.per_page == 0 {
                r == Err::<ListingsResponse, MarketError>(MarketError::InvalidArgument)
            } else {
                (r matches Ok(response) && response.success && response.listings.deep_view()
                    == page_window(
                    active_listings(db@),
                    params.page as nat,
                    params.per_page as nat,
                ) && response.total == active_listings(db@).len() && response.page == params.page
                    && response.per_page == params.per_page)
            },
        },
{
    match &params.seller {
        Some(seller) => {
            let listings = db.get_listings_by_seller(seller.as_str());
            let total = listings.len();
            Ok(ListingsResponse { success: true, listings, total, page: 1, per_page: total })
        },
        None => {
            match db.get_active_listings(params.page, params.per_page) {
                Ok((listings, total)) => Ok(
                    ListingsResponse {
                        success: true,
                        listings,
                        total,
                        page: params.page,
                        per_page: params.per_page,
                    },
                ),
                Err(e) => Err(e),
            }
        },
    }
}

/// The listing with this id, or `NotFound`.
pub fn get_listing(db: &ListingsDb, id: &str) -> (r: Result<Listing, MarketError>)
    requires
        db.wf(),
    ensures
        match record_of(db@, id@) {
            Some(l) => r matches Ok(listing) && listing@ == l,
            None => r == Err::<Listing, MarketError>(MarketError::NotFound),
        },
{
    match db.get_listing(id) {
        Some(listing) => Ok(listing),
        None => Err(MarketError::NotFound),
    }
}

/// Whether an asset is listed, and its active listing if it is.
#[derive(Debug, PartialEq, Eq)]
pub struct ListingLookup {
    pub success: bool,
    pub listed: bool,
    pub listing: Option<Listing>,
}

/// Looks up the active listing of an asset. That there is none is an answer,
/// not a failure.
pub fn get_listing_by_origin(db: &ListingsDb, origin: &str) -> (r: ListingLookup)
    requires
        db.wf(),
    ensures
        r.success,
        r.listed == (active_for_origin(db@, origin@) is Some),
        r.listing.deep_view() == active_for_origin(db@, origin@),
{
    let listing = db.get_listing_by_origin(origin);
    ListingLookup { success: true, listed: listing.is_some(), listing }
}

/// The answer to a listing that was created.
#[derive(Debug, PartialEq, Eq)]
pub struct CreateListingResponse {
    pub success: bool,
    pub listing: Listing,
    pub message: String,
}

/// Creates a listing for a request, with a fresh id and at the present time.
///
/// The request is refused with `Conflict` where the asset has an active
/// listing, and with `InvalidArgument` where the tip is no tier or the total
/// price does not fit the amount type; see `ListingsDb::create_listing`.
pub fn create_listing(db: &mut ListingsDb, request: CreateListingRequest) -> (r: Result<
    CreateListingResponse,
    MarketError,
>)
    requires
        old(db).wf(),
    ensures
        final(db).wf(),
        request_refusal(old(db)@, request@) matches Some(e) ==> r == Err::<
            CreateListingResponse,
            MarketError,
        >(e),
        request_refusal(old(db)@, request@) is None && old(db)@.len() == 0 ==> r is Ok,
        r matches Ok(response) ==> (response.success && response.message@
            == "Listing created successfully"@ && creation_refusal(
            old(db)@,
            request@,
            response.listing@.id,
        ) is None && response.listing@ == new_listing(
            request@,
            response.listing@.id,
            response.listing@.created_at,
            TipTier::spec_from_basis_points(request.tip_basis_points as nat).unwrap(),
        ) && final(db)@ == with_inserted(old(db)@, response.listing@)),
        r matches Err(e) ==> (final(db)@ == old(db)@ && (request_refusal(old(db)@, request@)
            == Some(e) || (request_refusal(old(db)@, request@) is None && e
            == MarketError::InvalidArgument))),
{
    match db.create_listing(request) {
        Ok(listing) => Ok(
            CreateListingResponse {
                success: true,
                listing,
                message: "Listing created successfully".to_owned(),
            },
        ),
        Err(e) => Err(e),
    }
}

/// The body of a request to cancel a listing.
#[derive(Debug)]
pub struct CancelListingRequest {
    pub listing_id: String,
    pub seller_ord_address: String,
}

/// Cancels the listing that a request and its path name.
///
/// Where the two ids differ the request is refused with `InvalidArgument`
/// and nothing is looked up. Else it is refused as
/// `ListingsDb::cancel_listing` refuses it.
pub fn cancel_listing(db: &mut ListingsDb, id: &str, request: &CancelListingRequest) -> (r: Result<
    Listing,
    MarketError,
>)
    requires
        old(db).wf(),
    ensures
        final(db).wf(),
        if id@ != request.listing_id@ {
            r == Err::<Listing, MarketError>(MarketError::InvalidArgument) && final(db)@ == old(
                db,
            )@
        } else {
            match cancel_refusal(old(db)@, id@, request.seller_ord_address@) {
                Some(e) => r == Err::<Listing, MarketError>(e) && final(db)@ == old(db)@,
                None => r matches Ok(l) && l@ == cancelled(
                    record_of(old(db)@, id@).unwrap(),
                    l@.updated_at,
                ) && final(db)@ == with_replaced(old(db)@, l@),
            }
        },
{
    if !same_text(id, request.listing_id.as_str()) {
        return Err(MarketError::InvalidArgument);
    }
    db.cancel_listing(id, request.seller_ord_address.as_str())
}

/// The body of a request to purchase a listing.
#[derive(Debug)]
pub struct PurchaseListingRequest {
    pub listing_id: String,
    pub buyer_address: String,
    pub buyer_ord_address: String,
    /// The outputs that fund the purchase.
    pub payment_utxos: Vec<OrdinalUtxoRef>,
}

/// What a buyer needs to know to complete a purchase on their side.
#[derive(Debug, PartialEq, Eq)]
pub struct PurchaseInfo {
    pub total_satoshis: u64,
    pub seller_receives: u64,
    pub marketplace_fee: u64,
    pub tip_amount: u64,
    pub seller_address: String,
    pub ordinal_utxo: OrdinalUtxoRef,
}

/// The answer to a request to purchase: the listing, and what to pay whom.
#[derive(Debug, PartialEq, Eq)]
pub struct PurchaseListingResponse {
    pub success: bool,
    pub listing: Listing,
    pub message: String,
    pub purchase_info: PurchaseInfo,
}

/// What a buyer has to pay for a listing, and to whom.
pub open spec fn purchase_info_of(l: ListingView) -> (u64, u64, u64, u64, Seq<char>) {
    (
        l.fees.total_price,
        l.fees.seller_receives,
        l.fees.marketplace_fee,
        l.fees.tip_amount,
        l.seller_address,
    )
}

/// Answers a request to purchase with the listing and what to pay whom.
///
/// Where the id of the request and the id of the path differ the request is
/// refused with `InvalidArgument`, and where no listing has the id with
/// `NotFound`. The store is only read.
pub fn purchase_listing(db: &ListingsDb, id: &str, request: &PurchaseListingRequest) -> (r: Result<
    PurchaseListingResponse,
    MarketError,
>)
    requires
        db.wf(),
    ensures
        if id@ != request.listing_id@ {
            r == Err::<PurchaseListingResponse, MarketError>(MarketError::InvalidArgument)
        } else {
            match record_of(db@, id@) {
                None => r == Err::<PurchaseListingResponse, MarketError>(MarketError::NotFound),
                Some(l) => (r matches Ok(response) && response.success && response.listing@ == l
                    && response.message@ == "Purchase ready - complete transaction client-side"@
                    && purchase_info_of(l) == (
                    response.purchase_info.total_satoshis,
                    response.purchase_info.seller_receives,
                    response.purchase_info.marketplace_fee,
                    response.purchase_info.tip_amount,
                    response.purchase_info.seller_address@,
                ) && response.purchase_info.ordinal_utxo@ == l.ordinal_utxo),
            }
        },
{
    if !same_text(id, request.listing_id.as_str()) {
        return Err(MarketError::InvalidArgument);
    }
    let listing = match db.get_listing(id) {
        Some(listing) => listing,
        None => {
            return Err(MarketError::NotFound);
        },
    };
    let purchase_info = PurchaseInfo {
        total_satoshis: listing.fees.total_price,
        seller_receives: listing.fees.seller_receives,
        marketplace_fee: listing.fees.marketplace_fee,
        tip_amount: listing.fees.tip_amount,
        seller_address: listing.seller_address.clone(),
        ordinal_utxo: listing.ordinal_utxo.clone(),
    };
    Ok(
        PurchaseListingResponse {
            success: true,
            listing,
            message: "Purchase ready - complete transaction client-side".to_owned(),
            purchase_info,
        },
    )
}

} // verus!
