//! The durable record types, one per keyed collection of the store.

use vstd::prelude::*;

verus! {

/// A user identity, keyed by `fid`.
#[derive(Clone, Debug)]
pub struct User {
    pub fid: i64,
    pub wallet: Option<String>,
    pub created_at_ms: i64,
}

/// Maps a lowercase-normalized address to an identity; keyed by `address`.
#[derive(Clone, Debug)]
pub struct WalletLink {
    pub address: String,
    pub fid: i64,
    pub linked_at_ms: i64,
}

/// Write-once marker that an identity consumed its starter grant.
#[derive(Clone, Debug)]
pub struct StarterClaim {
    pub fid: i64,
    pub claimed_at_ms: i64,
}

/// An owned item, keyed by `item_id`; the single source of truth for
/// ownership.
#[derive(Clone, Debug)]
pub struct InventoryItem {
    pub item_id: String,
    pub owner_fid: i64,
    pub item_type: String,
    pub acquired_at_ms: i64,
    pub hold_until_ms: i64,
    pub source_event_id: String,
}

/// Lifecycle state of a fixed-price listing.
#[derive(Clone, Copy, PartialEq, Eq, Structural, Debug)]
pub enum ListingStatus {
    Active,
    Closed,
}

/// A fixed-price sale of one item, keyed by `id`.
#[derive(Clone, Debug)]
pub struct Listing {
    pub id: String,
    pub item_id: String,
    pub seller_fid: i64,
    pub price_wei: String,
    pub status: ListingStatus,
    pub created_at_ms: i64,
    pub closed_at_ms: Option<i64>,
}

/// Lifecycle state of a timed auction.
#[derive(Clone, Copy, PartialEq, Eq, Structural, Debug)]
pub enum AuctionStatus {
    Active,
    Finalized,
}

/// A timed auction of one item, keyed by `id`.
#[derive(Clone, Debug)]
pub struct Auction {
    pub id: String,
    pub item_id: String,
    pub seller_fid: i64,
    pub reserve_wei: String,
    pub ends_at_ms: i64,
    pub status: AuctionStatus,
    pub top_bid_wei: Option<String>,
    pub top_bidder_fid: Option<i64>,
    pub buy_now_wei: Option<String>,
    pub anti_snipe_used: bool,
    pub created_at_ms: i64,
    pub finalized_at_ms: Option<i64>,
}

/// An immutable record of one bid attempt, keyed by `id`.
#[derive(Clone, Debug)]
pub struct Bid {
    pub id: String,
    pub auction_id: String,
    pub fid: i64,
    pub amount_wei: String,
    pub placed_at_ms: i64,
}

/// An append-only audit record, keyed by `id`.
#[derive(Clone, Debug)]
pub struct Event {
    pub id: String,
    pub ts_ms: i64,
    pub kind: String,
    pub actor_fid: i64,
    pub topic_id: Option<String>,
    pub payload_json: String,
}

/// A per-identity notification, keyed by `msg_id`.
#[derive(Clone, Debug)]
pub struct Inbox {
    pub msg_id: String,
    pub fid: i64,
    pub kind: String,
    pub title: String,
    pub body: String,
    pub created_at_ms: i64,
    pub read_at_ms: Option<i64>,
}

/// Lifecycle state of a PvP match; the only valid order is
/// pending, then active, then finalized.
#[derive(Clone, Copy, PartialEq, Eq, Structural, Debug)]
pub enum MatchStatus {
    Pending,
    Active,
    Finalized,
}

/// A PvP challenge match, keyed by `id`.
#[derive(Clone, Debug)]
pub struct PvpMatch {
    pub id: String,
    pub challenger_fid: i64,
    pub challenged_fid: i64,
    pub status: MatchStatus,
    pub created_at_ms: i64,
    pub accepted_at_ms: Option<i64>,
    pub result_json: Option<String>,
}

/// A durable idempotency record, keyed by client-supplied `id`. Declared
/// for callers but not consulted by any operation here.
#[derive(Clone, Debug)]
pub struct Idempotency {
    pub id: String,
    pub endpoint: String,
    pub first_seen_at_ms: i64,
    pub response_json: String,
    pub ttl_until_ms: i64,
}

/// Write-once marker that an external transaction hash was consumed.
#[derive(Clone, Debug)]
pub struct TransactionUsed {
    pub tx_hash: String,
    pub used_at_ms: i64,
    pub used_by_fid: i64,
    pub endpoint: String,
}

/// One player item inside a starter pack payload.
#[derive(Clone, Debug)]
pub struct StarterPlayer {
    pub player_id: String,
    pub name: Option<String>,
    pub position: Option<String>,
    pub rating: Option<i32>,
}

/// The parsed starter pack payload.
#[derive(Clone, Debug)]
pub struct StarterPackPayload {
    pub players: Vec<StarterPlayer>,
}

} // verus!
