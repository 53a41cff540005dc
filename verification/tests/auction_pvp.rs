use footballcaster2::errors::ApiError;
use footballcaster2::records::{Auction, AuctionStatus, InventoryItem, MatchStatus};
use footballcaster2::state::MarketState;
use footballcaster2::text::new_id;
use footballcaster2::pvp::validate_pvp_result_json;

fn item(id: &str, owner: i64) -> InventoryItem {
    InventoryItem {
        item_id: id.to_string(),
        owner_fid: owner,
        item_type: "player".to_string(),
        acquired_at_ms: 0,
        hold_until_ms: 0,
        source_event_id: "seed".to_string(),
    }
}

fn auction(id: &str, item_id: &str, seller: i64, reserve: &str, ends_at_ms: i64) -> Auction {
    Auction {
        id: id.to_string(),
        item_id: item_id.to_string(),
        seller_fid: seller,
        reserve_wei: reserve.to_string(),
        ends_at_ms,
        status: AuctionStatus::Active,
        top_bid_wei: None,
        top_bidder_fid: None,
        buy_now_wei: None,
        anti_snipe_used: false,
        created_at_ms: 0,
        finalized_at_ms: None,
    }
}

#[test]
fn new_id_is_deterministic_and_shaped_like_a_uuid() {
    let a = new_id("evt", 123, "x");
    let b = new_id("evt", 123, "x");
    let c = new_id("evt", 123, "y");
    assert_eq!(a, b);
    assert_ne!(a, c);
    assert_eq!(a.len(), 36);
    assert_eq!(a.as_bytes()[8], b'-');
    assert_ne!(a, "evt:123:x");
}

#[test]
fn create_auction_sets_deadline_and_no_top_bid() {
    let mut s = MarketState::new();
    s.inventory.push(item("sword", 1));
    let r = s.create_auction(1, "sword".to_string(), "100".to_string(), 3600, None, 1_000);
    assert_eq!(r, Ok(()));
    assert_eq!(s.auctions.len(), 1);
    let a = &s.auctions[0];
    assert_eq!(a.ends_at_ms, 1_000 + 3600 * 1000);
    assert_eq!(a.status, AuctionStatus::Active);
    assert!(a.top_bid_wei.is_none());
    assert!(!a.anti_snipe_used);
}

#[test]
fn auction_scenario_reserve_and_anti_snipe() {
    // Auction with reserve 100 ending at T; bids land 10 seconds before.
    let t: i64 = 1_000_000;
    let mut s = MarketState::new();
    s.auctions.push(auction("a1", "sword", 1, "100", t));

    // A bid below the reserve is rejected and leaves everything alone.
    let r = s.place_bid(5, "a1".to_string(), "90".to_string(), t - 10_000);
    assert_eq!(r, Err(ApiError::BelowReserve));
    assert!(s.auctions[0].top_bid_wei.is_none());
    assert!(s.bids.is_empty());

    // A bid meeting the reserve is accepted; it lands inside the window,
    // so the deadline moves out by the anti-snipe extension, once.
    let r = s.place_bid(5, "a1".to_string(), "100".to_string(), t - 10_000);
    assert_eq!(r, Ok(()));
    let a = &s.auctions[0];
    assert_eq!(a.top_bid_wei.as_deref(), Some("100"));
    assert_eq!(a.top_bidder_fid, Some(5));
    assert!(a.anti_snipe_used);
    assert_eq!(a.ends_at_ms, t + 180_000);
    assert_eq!(s.bids.len(), 1);
    assert_eq!(s.bids[0].amount_wei, "100");

    // The next bid must reach the exact ceiling of 100 * 1.02 = 102.
    let r = s.place_bid(6, "a1".to_string(), "101".to_string(), t);
    assert_eq!(r, Err(ApiError::BelowIncrement));
    let r = s.place_bid(6, "a1".to_string(), "102".to_string(), t);
    assert_eq!(r, Ok(()));
    // Accepted inside the extended window, but no second extension.
    let a = &s.auctions[0];
    assert_eq!(a.top_bid_wei.as_deref(), Some("102"));
    assert_eq!(a.ends_at_ms, t + 180_000);
}

#[test]
fn bid_increment_is_exact_for_large_values() {
    let t: i64 = 10_000_000_000;
    let mut s = MarketState::new();
    let mut a = auction("a1", "sword", 1, "1", t);
    // Current top bid of 10^20: the exact minimum next bid is
    // 102 * 10^20 / 100, with no precision loss.
    a.top_bid_wei = Some("100000000000000000000".to_string());
    a.top_bidder_fid = Some(5);
    s.auctions.push(a);
    let r = s.place_bid(6, "a1".to_string(), "101999999999999999999".to_string(), 0);
    assert_eq!(r, Err(ApiError::BelowIncrement));
    let r = s.place_bid(6, "a1".to_string(), "102000000000000000000".to_string(), 0);
    assert_eq!(r, Ok(()));
    assert_eq!(
        s.auctions[0].top_bid_wei.as_deref(),
        Some("102000000000000000000")
    );
}

#[test]
fn bids_rejected_after_deadline_or_finalization() {
    let t: i64 = 1_000_000;
    let mut s = MarketState::new();
    s.auctions.push(auction("a1", "sword", 1, "100", t));
    let r = s.place_bid(5, "a1".to_string(), "100".to_string(), t + 1);
    assert_eq!(r, Err(ApiError::AuctionEnded));
    s.auctions[0].status = AuctionStatus::Finalized;
    let r = s.place_bid(5, "a1".to_string(), "100".to_string(), t - 1);
    assert_eq!(r, Err(ApiError::AuctionClosed));
    let r = s.place_bid(5, "missing".to_string(), "100".to_string(), 0);
    assert_eq!(r, Err(ApiError::AuctionNotFound));
}

#[test]
fn buy_now_needs_exact_price_and_transfers() {
    let t: i64 = 1_000_000;
    let mut s = MarketState::new();
    s.inventory.push(item("sword", 1));
    let mut a = auction("a1", "sword", 1, "100", t);
    a.buy_now_wei = Some("500".to_string());
    s.auctions.push(a);

    let r = s.buy_now("a1".to_string(), 2, "499".to_string(), 10);
    assert_eq!(r, Err(ApiError::InvalidBuyNow));
    assert_eq!(s.inventory[0].owner_fid, 1);

    let r = s.buy_now("a1".to_string(), 2, "500".to_string(), 10);
    assert_eq!(r, Ok(()));
    assert_eq!(s.auctions[0].status, AuctionStatus::Finalized);
    assert_eq!(s.auctions[0].top_bidder_fid, Some(2));
    assert_eq!(s.inventory[0].owner_fid, 2);
    assert_eq!(s.events.last().unwrap().kind, "AuctionBuyNow");
}

#[test]
fn finalize_auction_needs_recorded_winner() {
    let t: i64 = 1_000_000;
    let mut s = MarketState::new();
    s.inventory.push(item("sword", 1));
    let mut a = auction("a1", "sword", 1, "100", t);
    a.top_bid_wei = Some("150".to_string());
    a.top_bidder_fid = Some(5);
    s.auctions.push(a);

    let r = s.finalize_auction("a1".to_string(), 6, 10);
    assert_eq!(r, Err(ApiError::NotWinner));
    assert_eq!(s.inventory[0].owner_fid, 1);

    let r = s.finalize_auction("a1".to_string(), 5, 10);
    assert_eq!(r, Ok(()));
    assert_eq!(s.auctions[0].status, AuctionStatus::Finalized);
    assert_eq!(s.inventory[0].owner_fid, 5);
    assert_eq!(s.events.last().unwrap().kind, "AuctionFinalized");

    let r = s.finalize_auction("a1".to_string(), 5, 20);
    assert_eq!(r, Err(ApiError::AuctionClosed));
}

#[test]
fn pvp_challenge_rejects_self_and_duplicates() {
    let mut s = MarketState::new();
    let r = s.pvp_create_challenge(1, 1, 10);
    assert_eq!(r, Err(ApiError::SelfChallenge));
    let r = s.pvp_create_challenge(1, 2, 10);
    assert_eq!(r, Ok(()));
    assert_eq!(s.pvp_matches.len(), 1);
    assert_eq!(s.pvp_matches[0].status, MatchStatus::Pending);
    assert_eq!(s.inbox.len(), 1);
    assert_eq!(s.inbox[0].fid, 2);
    assert_eq!(s.inbox[0].body, "FID 1 challenged you.");
    // The same unordered pair cannot have two pending challenges.
    let r = s.pvp_create_challenge(2, 1, 20);
    assert_eq!(r, Err(ApiError::DuplicatePending));
    assert_eq!(s.pvp_matches.len(), 1);
}

#[test]
fn pvp_lifecycle_is_pending_active_finalized() {
    let mut s = MarketState::new();
    s.pvp_create_challenge(1, 2, 10).unwrap();
    let mid = s.pvp_matches[0].id.clone();

    // A result cannot land on a pending match.
    let r = s.pvp_submit_result(mid.clone(), 1, "{\"home\":1,\"away\":0}".to_string(), 20);
    assert_eq!(r, Err(ApiError::InvalidState));
    assert_eq!(s.pvp_matches[0].status, MatchStatus::Pending);

    // Only the challenged party may accept, and only while pending.
    let r = s.pvp_accept(mid.clone(), 1, 20);
    assert_eq!(r, Err(ApiError::NotChallenged));
    let r = s.pvp_accept(mid.clone(), 2, 20);
    assert_eq!(r, Ok(()));
    assert_eq!(s.pvp_matches[0].status, MatchStatus::Active);
    assert_eq!(s.pvp_matches[0].accepted_at_ms, Some(20));
    let r = s.pvp_accept(mid.clone(), 2, 25);
    assert_eq!(r, Err(ApiError::InvalidState));
    assert_eq!(s.pvp_matches[0].status, MatchStatus::Active);

    // Only a participant may report.
    let r = s.pvp_submit_result(mid.clone(), 9, "{\"home\":1,\"away\":0}".to_string(), 30);
    assert_eq!(r, Err(ApiError::NotParticipant));

    let r = s.pvp_submit_result(mid.clone(), 1, "{\"home\":3,\"away\":1}".to_string(), 30);
    assert_eq!(r, Ok(()));
    assert_eq!(s.pvp_matches[0].status, MatchStatus::Finalized);
    assert_eq!(
        s.pvp_matches[0].result_json.as_deref(),
        Some("{\"home\":3,\"away\":1}")
    );
    // A finalized match takes nothing further.
    let r = s.pvp_submit_result(mid, 1, "{\"home\":0,\"away\":0}".to_string(), 40);
    assert_eq!(r, Err(ApiError::InvalidState));
}

#[test]
fn result_payload_schema_is_enforced() {
    assert_eq!(validate_pvp_result_json("not json"), Err(ApiError::InvalidJson));
    assert_eq!(validate_pvp_result_json("{}"), Err(ApiError::MissingField));
    assert_eq!(
        validate_pvp_result_json("{\"home\":1}"),
        Err(ApiError::MissingField)
    );
    assert_eq!(
        validate_pvp_result_json("{\"home\":-1,\"away\":0}"),
        Err(ApiError::NegativeScore)
    );
    assert_eq!(
        validate_pvp_result_json("{\"home\":21,\"away\":3}"),
        Err(ApiError::ScoreOutOfRange)
    );
    assert_eq!(validate_pvp_result_json("{\"home\":3,\"away\":1}"), Ok(()));
    assert_eq!(validate_pvp_result_json("{\"home\":20,\"away\":20}"), Ok(()));
    // Fractional scores do not count as integers.
    assert_eq!(
        validate_pvp_result_json("{\"home\":1.5,\"away\":0}"),
        Err(ApiError::MissingField)
    );
}

#[test]
fn rejected_result_leaves_match_active() {
    let mut s = MarketState::new();
    s.pvp_create_challenge(1, 2, 10).unwrap();
    let mid = s.pvp_matches[0].id.clone();
    s.pvp_accept(mid.clone(), 2, 20).unwrap();
    let r = s.pvp_submit_result(mid, 1, "{\"home\":21,\"away\":3}".to_string(), 30);
    assert_eq!(r, Err(ApiError::ScoreOutOfRange));
    assert_eq!(s.pvp_matches[0].status, MatchStatus::Active);
    assert!(s.pvp_matches[0].result_json.is_none());
}
