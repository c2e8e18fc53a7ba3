use ordinals_marketplace::api::{default_page, default_per_page};
use ordinals_marketplace::listings_db::ListingsDb;
use ordinals_marketplace::models::{CreateListingRequest, OrdinalUtxoRef, Timestamp};
use ordinals_marketplace::persistence::{
    index_writes, listing_key, origin_key, seller_key, seller_prefix, IndexWrite, LISTING_PREFIX,
    ORIGIN_INDEX_PREFIX, SELLER_INDEX_PREFIX,
};

fn store() -> ListingsDb {
    let mut db = ListingsDb::new();
    let request = CreateListingRequest {
        origin: "ab_0".to_string(),
        ordinal_utxo: OrdinalUtxoRef {
            txid: "ab".to_string(),
            vout: 0,
            satoshis: 1,
            script: String::new(),
        },
        seller_wants_satoshis: 1000,
        tip_basis_points: 0,
        seller_address: "alice".to_string(),
        seller_ord_address: "alice-ord".to_string(),
    };
    db.create_listing_with(request, "id-1".to_string(), Timestamp { secs: 1, nanos: 0 }).unwrap();
    db
}

fn put(key: &str, id: &str) -> IndexWrite {
    IndexWrite::Put { key: key.to_string(), id: id.to_string() }
}

#[test]
fn keys_are_a_prefix_and_a_name() {
    assert_eq!(LISTING_PREFIX, "listing:");
    assert_eq!(ORIGIN_INDEX_PREFIX, "listing_by_origin:");
    assert_eq!(SELLER_INDEX_PREFIX, "listing_by_seller:");
    assert_eq!(listing_key("id-1"), "listing:id-1");
    assert_eq!(origin_key("ab_0"), "listing_by_origin:ab_0");
    assert_eq!(seller_key("alice", "id-1"), "listing_by_seller:alice:id-1");
    assert_eq!(seller_prefix("alice"), "listing_by_seller:alice:");
    assert_eq!(listing_key(""), "listing:");
}

#[test]
fn an_active_listing_is_indexed_by_origin_and_seller() {
    let db = store();
    let l = db.get_listing("id-1").unwrap();
    assert_eq!(
        index_writes(&l),
        vec![put("listing_by_origin:ab_0", "id-1"), put("listing_by_seller:alice:id-1", "id-1")]
    );
}

#[test]
fn a_cancelled_listing_leaves_the_index_by_origin() {
    let mut db = store();
    let l = db.cancel_listing_at("id-1", "alice-ord", Timestamp { secs: 2, nanos: 0 }).unwrap();
    assert_eq!(
        index_writes(&l),
        vec![
            IndexWrite::Remove { key: "listing_by_origin:ab_0".to_string() },
            put("listing_by_seller:alice:id-1", "id-1"),
        ]
    );
}

#[test]
fn a_sold_listing_leaves_the_index_by_origin() {
    let mut db = store();
    let l = db.mark_listing_sold_at("id-1", "bob", "tx", Timestamp { secs: 2, nanos: 0 }).unwrap();
    assert_eq!(
        index_writes(&l),
        vec![
            IndexWrite::Remove { key: "listing_by_origin:ab_0".to_string() },
            put("listing_by_seller:alice:id-1", "id-1"),
        ]
    );
}

#[test]
fn a_query_without_a_page_asks_for_the_first_fifty() {
    assert_eq!(default_page(), 1);
    assert_eq!(default_per_page(), 50);
}
