use footballcaster2::errors::ApiError;
use footballcaster2::records::{InventoryItem, ListingStatus};
use footballcaster2::state::MarketState;
use footballcaster2::text::normalize;
use footballcaster2::wei::parse_wei;
use footballcaster2::DEV_FID;

fn item(id: &str, owner: i64, hold_until: i64) -> InventoryItem {
    InventoryItem {
        item_id: id.to_string(),
        owner_fid: owner,
        item_type: "player".to_string(),
        acquired_at_ms: 0,
        hold_until_ms: hold_until,
        source_event_id: "seed".to_string(),
    }
}

#[test]
fn normalize_lowercases_addresses() {
    assert_eq!(normalize("0xAbCdEf"), "0xabcdef");
    assert_eq!(normalize("0xabcdef"), "0xabcdef");
    assert_eq!(normalize(""), "");
}

#[test]
fn parse_wei_exact_values() {
    assert_eq!(parse_wei(Some("123")), 123);
    assert_eq!(parse_wei(Some("+7")), 7);
    assert_eq!(parse_wei(Some("-5")), -5);
    assert_eq!(parse_wei(Some("0")), 0);
    assert_eq!(parse_wei(None), 0);
    assert_eq!(parse_wei(Some("")), 0);
    assert_eq!(parse_wei(Some("-")), 0);
    assert_eq!(parse_wei(Some("12a")), 0);
    assert_eq!(parse_wei(Some("100000000000000000000")), 100_000_000_000_000_000_000);
    assert_eq!(
        parse_wei(Some("170141183460469231731687303715884105727")),
        i128::MAX
    );
    assert_eq!(
        parse_wei(Some("-170141183460469231731687303715884105728")),
        i128::MIN
    );
    // One past either end of the i128 range parses to zero.
    assert_eq!(parse_wei(Some("170141183460469231731687303715884105728")), 0);
    assert_eq!(parse_wei(Some("-170141183460469231731687303715884105729")), 0);
}

#[test]
fn link_wallet_creates_then_moves_address() {
    let mut s = MarketState::new();
    s.link_wallet(1, "0xAAA".to_string(), 10);
    assert_eq!(s.users.len(), 1);
    assert_eq!(s.users[0].fid, 1);
    assert_eq!(s.users[0].wallet.as_deref(), Some("0xAAA"));
    assert_eq!(s.wallet_links.len(), 1);
    assert_eq!(s.wallet_links[0].address, "0xaaa");
    assert_eq!(s.wallet_links[0].fid, 1);

    // Relinking the same address (spelled differently) moves it to the
    // new identity and leaves exactly one link row.
    s.link_wallet(2, "0xaAa".to_string(), 20);
    assert_eq!(s.users.len(), 2);
    assert_eq!(s.wallet_links.len(), 1);
    assert_eq!(s.wallet_links[0].address, "0xaaa");
    assert_eq!(s.wallet_links[0].fid, 2);
}

#[test]
fn transfer_item_requires_matching_owner() {
    let mut s = MarketState::new();
    s.inventory.push(item("sword", 1, 0));
    // Wrong asserted owner: rejected, nothing changes.
    let r = s.transfer_item("sword".to_string(), 9, 2, "evt1".to_string(), 50);
    assert_eq!(r, Err(ApiError::NotOwner));
    assert_eq!(s.inventory[0].owner_fid, 1);
    assert_eq!(s.inventory[0].source_event_id, "seed");
    // Unknown item.
    let r = s.transfer_item("axe".to_string(), 1, 2, "evt1".to_string(), 50);
    assert_eq!(r, Err(ApiError::ItemNotFound));
    // Matching owner: ownership moves and provenance is stamped.
    let r = s.transfer_item("sword".to_string(), 1, 2, "evt1".to_string(), 50);
    assert_eq!(r, Ok(()));
    assert_eq!(s.inventory[0].owner_fid, 2);
    assert_eq!(s.inventory[0].acquired_at_ms, 50);
    assert_eq!(s.inventory[0].source_event_id, "evt1");
}

#[test]
fn grant_starter_pack_is_write_once() {
    let mut s = MarketState::new();
    let payload = "{\"players\":[{\"player_id\":\"p1\"},{\"player_id\":\"p2\"}]}";
    let r = s.grant_starter_pack(7, payload.to_string(), 1_000);
    assert_eq!(r, Ok(()));
    assert_eq!(s.starter_claims.len(), 1);
    assert_eq!(s.starter_claims[0].fid, 7);
    assert_eq!(s.inventory.len(), 2);
    assert!(s.inventory.iter().all(|it| it.owner_fid == 7));
    assert!(s.inventory.iter().all(|it| it.hold_until_ms == 1_000 + 604_800_000));
    assert_eq!(s.events.len(), 1);
    assert_eq!(s.events[0].kind, "starter_pack_granted");
    assert_eq!(s.inbox.len(), 1);
    assert_eq!(s.inbox[0].fid, 7);
    assert_eq!(s.inbox[0].body, "You received 2 players from starter pack.");

    // The second grant observes the conflict and changes nothing.
    let before_items = s.inventory.len();
    let r = s.grant_starter_pack(7, payload.to_string(), 2_000);
    assert_eq!(r, Err(ApiError::AlreadyClaimed));
    assert_eq!(s.starter_claims.len(), 1);
    assert_eq!(s.inventory.len(), before_items);
    assert_eq!(s.events.len(), 1);
}

#[test]
fn grant_starter_pack_malformed_payload_grants_no_items() {
    let mut s = MarketState::new();
    let r = s.grant_starter_pack(7, "not json".to_string(), 1_000);
    assert_eq!(r, Ok(()));
    assert_eq!(s.starter_claims.len(), 1);
    assert!(s.inventory.is_empty());
    assert_eq!(s.inbox[0].body, "You received 0 players from starter pack.");
}

#[test]
fn grant_starter_pack_overwrites_existing_item() {
    let mut s = MarketState::new();
    s.inventory.push(item("p1", 99, 0));
    let payload = "{\"players\":[{\"player_id\":\"p1\"}]}";
    let r = s.grant_starter_pack(7, payload.to_string(), 1_000);
    assert_eq!(r, Ok(()));
    assert_eq!(s.inventory.len(), 1);
    assert_eq!(s.inventory[0].owner_fid, 7);
}

#[test]
fn create_listing_checks_ownership_and_hold() {
    let mut s = MarketState::new();
    let r = s.create_listing(1, "sword".to_string(), "100".to_string(), 10);
    assert_eq!(r, Err(ApiError::ItemNotFound));
    s.inventory.push(item("sword", 1, 1_000));
    let r = s.create_listing(2, "sword".to_string(), "100".to_string(), 10);
    assert_eq!(r, Err(ApiError::NotOwner));
    // Still inside the hold period.
    let r = s.create_listing(1, "sword".to_string(), "100".to_string(), 10);
    assert_eq!(r, Err(ApiError::InHold));
    assert!(s.listings.is_empty());
    // After the hold period.
    let r = s.create_listing(1, "sword".to_string(), "100".to_string(), 1_000);
    assert_eq!(r, Ok(()));
    assert_eq!(s.listings.len(), 1);
    assert_eq!(s.listings[0].status, ListingStatus::Active);
    assert_eq!(s.listings[0].seller_fid, 1);
    assert_eq!(s.listings[0].price_wei, "100");
}

#[test]
fn dev_identity_bypasses_hold() {
    let mut s = MarketState::new();
    s.inventory.push(item("sword", DEV_FID, i64::MAX));
    let r = s.create_listing(DEV_FID, "sword".to_string(), "100".to_string(), 10);
    assert_eq!(r, Ok(()));
}

#[test]
fn close_listing_round_trip_transfers_item() {
    let mut s = MarketState::new();
    s.inventory.push(item("sword", 1, 0));
    s.create_listing(1, "sword".to_string(), "100".to_string(), 10).unwrap();
    let listing_id = s.listings[0].id.clone();
    let events_before = s.events.len();
    let inbox_before = s.inbox.len();

    let r = s.close_listing_and_transfer(listing_id.clone(), 2, 20);
    assert_eq!(r, Ok(()));
    // The item now belongs to the buyer.
    assert_eq!(s.inventory[0].owner_fid, 2);
    // The listing is closed, one way.
    assert_eq!(s.listings[0].status, ListingStatus::Closed);
    assert_eq!(s.listings[0].closed_at_ms, Some(20));
    // Exactly one ListingSold event and two inbox rows were appended.
    assert_eq!(s.events.len(), events_before + 1);
    assert_eq!(s.events.last().unwrap().kind, "ListingSold");
    assert_eq!(s.inbox.len(), inbox_before + 2);
    assert_eq!(s.inbox[inbox_before].fid, 1);
    assert_eq!(s.inbox[inbox_before + 1].fid, 2);

    // Closing again fails and changes nothing.
    let r = s.close_listing_and_transfer(listing_id, 3, 30);
    assert_eq!(r, Err(ApiError::ListingClosed));
    assert_eq!(s.inventory[0].owner_fid, 2);
    let r = s.close_listing_and_transfer("missing".to_string(), 3, 30);
    assert_eq!(r, Err(ApiError::ListingNotFound));
}

#[test]
fn mark_tx_used_is_write_once() {
    let mut s = MarketState::new();
    let r = s.mark_tx_used("0xdead".to_string(), 1, "buy".to_string(), 10);
    assert_eq!(r, Ok(()));
    assert_eq!(s.tx_used.len(), 1);
    assert_eq!(s.tx_used[0].tx_hash, "0xdead");
    assert_eq!(s.tx_used[0].used_by_fid, 1);
    // The same hash cannot be consumed twice, whichever endpoint asks.
    let r = s.mark_tx_used("0xdead".to_string(), 2, "auction".to_string(), 20);
    assert_eq!(r, Err(ApiError::AlreadyUsed));
    assert_eq!(s.tx_used.len(), 1);
    assert_eq!(s.tx_used[0].used_by_fid, 1);
}

#[test]
fn inbox_mark_read_skips_foreign_and_unknown_ids() {
    let mut s = MarketState::new();
    s.push_inbox(1, "m1".to_string(), "k", "t", "b", 10);
    s.push_inbox(2, "m2".to_string(), "k", "t", "b", 10);
    s.inbox_mark_read(1, "[\"m1\",\"m2\",\"m3\"]".to_string(), 50);
    assert_eq!(s.inbox[0].read_at_ms, Some(50));
    // m2 belongs to someone else and stays unread; m3 does not exist.
    assert_eq!(s.inbox[1].read_at_ms, None);
    assert_eq!(s.inbox.len(), 2);
}

#[test]
fn push_inbox_collides_instead_of_duplicating() {
    let mut s = MarketState::new();
    s.push_inbox(1, "m1".to_string(), "k", "t", "b", 10);
    s.push_inbox(1, "m1".to_string(), "k", "t", "other", 20);
    assert_eq!(s.inbox.len(), 1);
    assert_eq!(s.inbox[0].body, "b");
}

#[test]
fn error_codes_are_stable() {
    assert_eq!(ApiError::NotOwner.code(), "not_owner");
    assert_eq!(ApiError::AlreadyClaimed.code(), "starter_already_claimed");
    assert_eq!(ApiError::AlreadyUsed.code(), "tx_already_used");
    assert_eq!(ApiError::ScoreOutOfRange.code(), "score_out_of_range");
}
