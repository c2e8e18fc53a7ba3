use ordinals_marketplace::api::{
    cancel_listing, create_listing, get_listing, get_listing_by_origin, get_listings,
    purchase_listing, ApiError, CancelListingRequest, ListingLookup, ListingsQuery,
    PurchaseInfo, PurchaseListingRequest,
};
use ordinals_marketplace::config::Config;
use ordinals_marketplace::error::MarketError;
use ordinals_marketplace::listings_db::ListingsDb;
use ordinals_marketplace::models::{CreateListingRequest, ListingStatus, OrdinalUtxoRef, Timestamp};

const SELLER_ORD: &str = "1BvBMSEYstWetqTFn5Au4m4GFg7xJaNVN2";

fn at(secs: i64) -> Timestamp {
    Timestamp { secs, nanos: 0 }
}

fn asset() -> OrdinalUtxoRef {
    OrdinalUtxoRef { txid: "ab".repeat(32), vout: 1, satoshis: 1, script: "AA==".to_string() }
}

fn request(seller: &str, origin: &str, wants: u64, tip: u32) -> CreateListingRequest {
    CreateListingRequest {
        origin: origin.to_string(),
        ordinal_utxo: asset(),
        seller_wants_satoshis: wants,
        tip_basis_points: tip,
        seller_address: seller.to_string(),
        seller_ord_address: SELLER_ORD.to_string(),
    }
}

fn store() -> ListingsDb {
    let mut db = ListingsDb::new();
    db.create_listing_with(request("alice", "o_0", 1000, 250), "a".to_string(), at(1)).unwrap();
    db.create_listing_with(request("bob", "o_1", 2000, 0), "b".to_string(), at(2)).unwrap();
    db.create_listing_with(request("alice", "o_2", 3000, 500), "c".to_string(), at(3)).unwrap();
    db.cancel_listing_at("a", SELLER_ORD, at(4)).unwrap();
    db
}

fn query(page: usize, per_page: usize, seller: Option<&str>) -> ListingsQuery {
    ListingsQuery { page, per_page, seller: seller.map(|s| s.to_string()), status: None }
}

#[test]
fn an_error_has_a_kind_and_a_reason() {
    let e = ApiError::new("not_found", "Listing not found");
    assert_eq!(
        e,
        ApiError {
            error: "not_found".to_string(),
            message: "Listing not found".to_string(),
            details: None,
        }
    );
}

#[test]
fn an_error_can_carry_details() {
    let e = ApiError::new("fetch_error", "Failed to fetch ordinals").with_details("timed out");
    assert_eq!(e.error, "fetch_error");
    assert_eq!(e.message, "Failed to fetch ordinals");
    assert_eq!(e.details, Some("timed out".to_string()));
    let replaced = e.with_details("refused");
    assert_eq!(replaced.details, Some("refused".to_string()));
}

#[test]
fn the_default_settings() {
    let c = Config::default();
    assert_eq!(c.server_addr, "0.0.0.0");
    assert_eq!(c.server_port, 3000);
    assert_eq!(c.gorillapool_base_url, "https://ordinals.gorillapool.io/api");
    assert_eq!(c.whatsonchain_base_url, "https://plugins.whatsonchain.com/api/plugin/main");
    assert_eq!(c.api_rate_limit_per_second, 10);
    assert_eq!(c.api_rate_limit_burst, 20);
    assert_eq!(c.ownership_cache_ttl, 30);
    assert_eq!(c.content_cache_ttl, 86400);
    assert_eq!(c.metadata_cache_ttl, 300);
    assert_eq!(c.max_cache_entries, 10_000);
    assert_eq!(c.max_concurrent_requests, 5);
    assert_eq!(c.db_path, "marketplace_db");
    assert_eq!(c.marketplace_fee_address, "15BvxtG9U61ndVZccSmuG9nQzygzjDqC41");
    assert_eq!(c.handcash_app_id, "68082b6ba117aae3817ec15f");
}

#[test]
fn listings_without_a_seller_are_a_page_of_the_active_ones() {
    let db = store();
    let r = get_listings(&db, &query(1, 1, None)).unwrap();
    assert!(r.success);
    assert_eq!((r.total, r.page, r.per_page), (2, 1, 1));
    assert_eq!(r.listings.len(), 1);
    assert_eq!(r.listings[0].id, "c");
    let r = get_listings(&db, &query(2, 1, None)).unwrap();
    assert_eq!((r.total, r.page, r.per_page), (2, 2, 1));
    assert_eq!(r.listings[0].id, "b");
    let r = get_listings(&db, &query(3, 1, None)).unwrap();
    assert!(r.listings.is_empty());
}

#[test]
fn listings_of_a_seller_are_one_page_of_all_of_them() {
    let db = store();
    let r = get_listings(&db, &query(7, 1, Some("alice"))).unwrap();
    assert!(r.success);
    assert_eq!((r.total, r.page, r.per_page), (2, 1, 2));
    assert_eq!(r.listings[0].id, "c");
    assert_eq!(r.listings[1].id, "a");
    assert_eq!(r.listings[1].status, ListingStatus::Cancelled);
    // With a seller the page is not looked at.
    let r = get_listings(&db, &query(0, 0, Some("nobody"))).unwrap();
    assert_eq!((r.total, r.page, r.per_page), (0, 1, 0));
}

#[test]
fn listings_of_page_zero_are_refused() {
    let db = store();
    assert_eq!(get_listings(&db, &query(0, 10, None)), Err(MarketError::InvalidArgument));
    assert_eq!(get_listings(&db, &query(1, 0, None)), Err(MarketError::InvalidArgument));
}

#[test]
fn a_listing_is_found_by_its_id() {
    let db = store();
    assert_eq!(get_listing(&db, "b"), Ok(db.get_listing("b").unwrap()));
    assert_eq!(get_listing(&db, "z"), Err(MarketError::NotFound));
}

#[test]
fn an_asset_is_looked_up_by_its_origin() {
    let db = store();
    assert_eq!(
        get_listing_by_origin(&db, "o_1"),
        ListingLookup { success: true, listed: true, listing: db.get_listing("b") }
    );
    // The listing of this asset was cancelled.
    assert_eq!(
        get_listing_by_origin(&db, "o_0"),
        ListingLookup { success: true, listed: false, listing: None }
    );
    assert_eq!(
        get_listing_by_origin(&db, "o_9"),
        ListingLookup { success: true, listed: false, listing: None }
    );
}

#[test]
fn a_request_creates_a_listing() {
    let mut db = store();
    let r = create_listing(&mut db, request("carol", "o_5", 1000, 250)).unwrap();
    assert!(r.success);
    assert_eq!(r.message, "Listing created successfully");
    assert_eq!(r.listing.fees.total_price, 1035);
    assert_eq!(r.listing.status, ListingStatus::Active);
    assert_eq!(db.get_listing(&r.listing.id), Some(r.listing));
    assert_eq!(db.count_active_listings(), 3);
}

#[test]
fn a_request_on_a_fresh_store_creates_a_listing() {
    let mut db = ListingsDb::new();
    let r = create_listing(&mut db, request("carol", "o1", 10000, 0)).unwrap();
    assert!(r.success);
    assert_eq!(
        (
            r.listing.fees.seller_receives,
            r.listing.fees.marketplace_fee,
            r.listing.fees.tip_amount,
            r.listing.fees.total_price
        ),
        (10000, 100, 0, 10100)
    );
    assert_eq!(r.listing.status, ListingStatus::Active);
    assert_eq!(r.listing.origin, "o1");
}

#[test]
fn a_request_for_a_listed_asset_is_a_conflict() {
    let mut db = store();
    assert_eq!(
        create_listing(&mut db, request("carol", "o_1", 1000, 0)),
        Err(MarketError::Conflict)
    );
    assert_eq!(
        create_listing(&mut db, request("carol", "o_5", 1000, 260)),
        Err(MarketError::InvalidArgument)
    );
    assert_eq!(db.count_active_listings(), 2);
}

#[test]
fn a_cancellation_names_the_listing_twice() {
    let mut db = store();
    let body = |id: &str, address: &str| CancelListingRequest {
        listing_id: id.to_string(),
        seller_ord_address: address.to_string(),
    };
    assert_eq!(
        cancel_listing(&mut db, "b", &body("c", SELLER_ORD)),
        Err(MarketError::InvalidArgument)
    );
    // The ids are compared before anything is looked up.
    assert_eq!(
        cancel_listing(&mut db, "z", &body("y", SELLER_ORD)),
        Err(MarketError::InvalidArgument)
    );
    assert_eq!(cancel_listing(&mut db, "z", &body("z", SELLER_ORD)), Err(MarketError::NotFound));
    assert_eq!(cancel_listing(&mut db, "b", &body("b", "x")), Err(MarketError::Unauthorized));
    assert_eq!(cancel_listing(&mut db, "a", &body("a", SELLER_ORD)), Err(MarketError::InvalidState));
    let l = cancel_listing(&mut db, "b", &body("b", SELLER_ORD)).unwrap();
    assert_eq!(l.status, ListingStatus::Cancelled);
    assert_eq!(db.get_listing("b"), Some(l));
    assert_eq!(db.count_active_listings(), 1);
}

#[test]
fn a_purchase_request_is_answered_with_what_to_pay() {
    let db = store();
    let body = |id: &str| PurchaseListingRequest {
        listing_id: id.to_string(),
        buyer_address: "buyer".to_string(),
        buyer_ord_address: "buyer-ord".to_string(),
        payment_utxos: vec![],
    };
    let r = purchase_listing(&db, "c", &body("c")).unwrap();
    assert!(r.success);
    assert_eq!(r.message, "Purchase ready - complete transaction client-side");
    assert_eq!(Some(r.listing), db.get_listing("c"));
    assert_eq!(
        r.purchase_info,
        PurchaseInfo {
            total_satoshis: 3180,
            seller_receives: 3000,
            marketplace_fee: 30,
            tip_amount: 150,
            seller_address: "alice".to_string(),
            ordinal_utxo: asset(),
        }
    );
    assert_eq!(purchase_listing(&db, "c", &body("b")), Err(MarketError::InvalidArgument));
    assert_eq!(purchase_listing(&db, "z", &body("z")), Err(MarketError::NotFound));
}

#[test]
fn only_storage_and_collaborators_are_worth_a_retry() {
    assert!(MarketError::StorageError.is_retryable());
    assert!(MarketError::ExternalUnavailable.is_retryable());
    for e in [
        MarketError::NotFound,
        MarketError::Conflict,
        MarketError::Unauthorized,
        MarketError::InvalidState,
        MarketError::InvalidArgument,
        MarketError::InsufficientFunds { required: 2, available: 1 },
        MarketError::Underfunded,
        MarketError::InvalidAddress,
        MarketError::MalformedTransaction,
        MarketError::BroadcastRejected("no".to_string()),
    ] {
        assert!(!e.is_retryable());
    }
}
