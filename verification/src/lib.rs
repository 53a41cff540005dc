//! Transactional business logic of a collectible-item marketplace: wallet
//! linking, inventory ownership, fixed-price listings, timed auctions with
//! anti-snipe protection, PvP challenge matches, and replay guards, all
//! modelled as atomic operations on an in-memory keyed record store.

use vstd::prelude::*;

pub mod errors;
pub mod records;
pub mod state;
pub mod starter;
pub mod pvp;
pub mod auction;
pub mod listing;
pub mod wallet;
pub mod events;
pub mod text;
pub mod wei;
pub mod inventory;
pub mod guard;

verus! {

/// Number of days an item stays in its hold period after acquisition.
pub const HOLD_DAYS: i64 = 7;

/// One-shot auction extension, in seconds, when a bid lands near the end.
pub const ANTI_SNIPE_EXTEND_SECONDS: i64 = 180;

/// Operator identity allowed to bypass the hold period.
pub const DEV_FID: i64 = 250704;

} // verus!
