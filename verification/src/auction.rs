//! The auction engine: timed auctions with exact-integer bidding rules, a
//! one-shot anti-snipe extension, a buy-now shortcut, and winner
//! finalization.

use vstd::prelude::*;

use crate::errors::ApiError;
use crate::events::{event_appended, event_id_of, opt_string_view};
use crate::records::{Auction, AuctionStatus, Bid};
use crate::state::{
    find_auction_idx, find_item_idx, first_auction, first_item, no_auction, no_item, vec_update,
    MarketState,
};
use crate::inventory::item_transferred;
use crate::listing::{hold_allows, pair_extra};
use crate::text::{dec_i64, dec_int, new_id, new_id_of};
use crate::wei::{
    lemma_min_next_increases, meets_increment, min_next_wei, parse_wei_of, parse_wei_str,
};
use crate::DEV_FID;

verus! {

/// The anti-snipe extension in milliseconds.
pub const ANTI_SNIPE_EXTEND_MS: i64 = crate::ANTI_SNIPE_EXTEND_SECONDS * 1000;

/// The parsed value of the current top bid; zero when there is none.
pub open spec fn top_wei(a: Auction) -> int {
    parse_wei_of(opt_string_view(a.top_bid_wei))
}

/// The parsed reserve price of an auction.
pub open spec fn reserve_wei_val(a: Auction) -> int {
    parse_wei_of(Some(a.reserve_wei@))
}

/// The parsed value of a bid amount string.
pub open spec fn amount_val(amount: Seq<char>) -> int {
    parse_wei_of(Some(amount))
}

/// Whether an amount passes bid validation: at least the reserve for a
/// first bid, at least the exact ceiling of `top * 102 / 100` afterwards.
pub open spec fn bid_ok(a: Auction, amount: Seq<char>) -> bool {
    if top_wei(a) == 0 {
        amount_val(amount) >= reserve_wei_val(a)
    } else {
        amount_val(amount) >= min_next_wei(top_wei(a))
    }
}

/// Whether a bid at `now_ms` triggers the one-shot anti-snipe extension.
pub open spec fn snipe_fires(a: Auction, now_ms: i64) -> bool {
    !a.anti_snipe_used && a.ends_at_ms - now_ms <= ANTI_SNIPE_EXTEND_MS
}

/// The auction as it stands after an accepted bid: new top bid and bidder,
/// and the end time pushed out once if the bid landed inside the anti-snipe
/// window.
pub open spec fn auction_after_bid(a: Auction, fid: i64, amount: String, now_ms: i64) -> Auction {
    Auction {
        top_bid_wei: Some(amount),
        top_bidder_fid: Some(fid),
        anti_snipe_used: a.anti_snipe_used || snipe_fires(a, now_ms),
        ends_at_ms: if snipe_fires(a, now_ms) {
            (a.ends_at_ms + ANTI_SNIPE_EXTEND_MS) as i64
        } else {
            a.ends_at_ms
        },
        ..a
    }
}

/// The context a bid id is derived over.
pub open spec fn bid_extra(fid: i64, auction_id: Seq<char>, amount: Seq<char>) -> Seq<char> {
    dec_int(fid as int) + ":"@ + auction_id + ":"@ + amount
}

/// The snapshot of an auction carried by its buy-now and finalization
/// events, taken before the status flip.
pub open spec fn auction_event_payload(a: Auction) -> Seq<char> {
    "{\"id\":\""@ + a.id@ + "\",\"item_id\":\""@ + a.item_id@ + "\",\"seller_fid\":"@ + dec_int(
        a.seller_fid as int,
    ) + ",\"reserve_wei\":\""@ + a.reserve_wei@ + "\",\"ends_at_ms\":"@ + dec_int(
        a.ends_at_ms as int,
    ) + "}"@
}

/// Law: over a positive top bid, an accepted bid raises the top bid to at
/// least the exact minimum increment, and therefore strictly.
pub proof fn lemma_top_bid_monotone(a: Auction, fid: i64, amount: String, now_ms: i64)
    requires
        bid_ok(a, amount@),
        top_wei(a) > 0,
    ensures
        top_wei(auction_after_bid(a, fid, amount, now_ms)) >= min_next_wei(top_wei(a)),
        top_wei(auction_after_bid(a, fid, amount, now_ms)) > top_wei(a),
{
    lemma_min_next_increases(top_wei(a));
}

/// Law: the anti-snipe extension fires at most once. Once a bid extends
/// the end time, every later accepted bid leaves it unchanged, and the end
/// time never decreases.
pub proof fn lemma_anti_snipe_at_most_once(
    a: Auction,
    fid1: i64,
    amt1: String,
    now1: i64,
    fid2: i64,
    amt2: String,
    now2: i64,
)
    requires
        a.ends_at_ms + ANTI_SNIPE_EXTEND_MS <= i64::MAX,
    ensures
        auction_after_bid(a, fid1, amt1, now1).ends_at_ms >= a.ends_at_ms,
        snipe_fires(a, now1) ==> ({
            let a1 = auction_after_bid(a, fid1, amt1, now1);
            &&& a1.anti_snipe_used
            &&& a1.ends_at_ms == a.ends_at_ms + ANTI_SNIPE_EXTEND_MS
            &&& auction_after_bid(a1, fid2, amt2, now2).ends_at_ms == a1.ends_at_ms
        }),
        a.anti_snipe_used ==> auction_after_bid(a, fid1, amt1, now1).ends_at_ms == a.ends_at_ms,
{
}

impl MarketState {
    /// Builds the snapshot text an auction event carries.
    fn render_auction_payload(&self, a: &Auction) -> (r: String)
        ensures
            r@ == auction_event_payload(*a),
    {
        let mut s = String::from_str("{\"id\":\"");
        s.append(a.id.as_str());
        s.append("\",\"item_id\":\"");
        s.append(a.item_id.as_str());
        s.append("\",\"seller_fid\":");
        let seller = dec_i64(a.seller_fid);
        s.append(seller.as_str());
        s.append(",\"reserve_wei\":\"");
        s.append(a.reserve_wei.as_str());
        s.append("\",\"ends_at_ms\":");
        let ends = dec_i64(a.ends_at_ms);
        s.append(ends.as_str());
        s.append("}");
        assert(s@ =~= auction_event_payload(*a));
        s
    }

    /// Creates an active auction for an item the caller owns and may
    /// dispose of, ending `duration_seconds` from now.
    pub fn create_auction(
        &mut self,
        fid: i64,
        item_id: String,
        reserve_wei: String,
        duration_seconds: i64,
        buy_now_wei: Option<String>,
        now_ms: i64,
    ) -> (r: Result<(), ApiError>)
        requires
            0 <= duration_seconds,
            duration_seconds * 1000 <= i64::MAX,
            now_ms + duration_seconds * 1000 + 180_000 <= i64::MAX,
        ensures
            r is Err ==> *final(self) == *old(self),
            r == Err::<(), ApiError>(ApiError::ItemNotFound) <==> no_item(
                old(self).inventory@,
                item_id@,
            ),
            r == Err::<(), ApiError>(ApiError::NotOwner) <==> (exists|k: int|
                #[trigger] first_item(old(self).inventory@, item_id@, k)
                    && old(self).inventory@[k].owner_fid != fid),
            r == Err::<(), ApiError>(ApiError::InHold) <==> (exists|k: int|
                #[trigger] first_item(old(self).inventory@, item_id@, k)
                    && old(self).inventory@[k].owner_fid == fid
                    && !hold_allows(old(self).inventory@[k].hold_until_ms, fid, now_ms)),
            r is Ok <==> (exists|k: int|
                #[trigger] first_item(old(self).inventory@, item_id@, k)
                    && old(self).inventory@[k].owner_fid == fid
                    && hold_allows(old(self).inventory@[k].hold_until_ms, fid, now_ms)),
            r is Ok ==> {
                &&& final(self).auctions@.len() == old(self).auctions@.len() + 1
                &&& (forall|j: int|
                    0 <= j < old(self).auctions@.len() ==> final(self).auctions@[j]
                        == old(self).auctions@[j])
                &&& ({
                    let a = final(self).auctions@.last();
                    &&& a.id@ == new_id_of("auc"@, now_ms as int, pair_extra(fid, item_id@))
                    &&& a.item_id == item_id
                    &&& a.seller_fid == fid
                    &&& a.reserve_wei == reserve_wei
                    &&& a.ends_at_ms == now_ms + duration_seconds * 1000
                    &&& a.status == AuctionStatus::Active
                    &&& a.top_bid_wei is None
                    &&& a.top_bidder_fid is None
                    &&& a.buy_now_wei == buy_now_wei
                    &&& !a.anti_snipe_used
                    &&& a.created_at_ms == now_ms
                    &&& a.finalized_at_ms is None
                })
            },
            r is Ok ==> *final(self) == (MarketState { auctions: final(self).auctions, ..*old(self) }),
    {
        let k = match find_item_idx(&self.inventory, &item_id) {
            None => {
                return Err(ApiError::ItemNotFound);
            },
            Some(k) => k,
        };
        let item = &self.inventory[k];
        if item.owner_fid != fid {
            return Err(ApiError::NotOwner);
        }
        if now_ms < item.hold_until_ms && fid != DEV_FID {
            return Err(ApiError::InHold);
        }
        let mut extra = dec_i64(fid);
        extra.append(":");
        extra.append(item_id.as_str());
        assert(extra@ =~= pair_extra(fid, item_id@));
        let id = new_id("auc", now_ms, extra.as_str());
        let ends = now_ms + duration_seconds * 1000;
        let a = Auction {
            id,
            item_id,
            seller_fid: fid,
            reserve_wei,
            ends_at_ms: ends,
            status: AuctionStatus::Active,
            top_bid_wei: None,
            top_bidder_fid: None,
            buy_now_wei,
            anti_snipe_used: false,
            created_at_ms: now_ms,
            finalized_at_ms: None,
        };
        self.auctions.push(a);
        Ok(())
    }

    /// Places a bid: validates it against the reserve or the exact minimum
    /// increment, always records the accepted bid, updates the top bid,
    /// and extends the end time once if the bid landed late.
    pub fn place_bid(
        &mut self,
        fid: i64,
        auction_id: String,
        amount_wei: String,
        now_ms: i64,
    ) -> (r: Result<(), ApiError>)
        requires
            now_ms <= i64::MAX - 360_000,
        ensures
            r is Err ==> *final(self) == *old(self),
            r == Err::<(), ApiError>(ApiError::AuctionNotFound) <==> no_auction(
                old(self).auctions@,
                auction_id@,
            ),
            r == Err::<(), ApiError>(ApiError::AuctionClosed) <==> (exists|i: int|
                #[trigger] first_auction(old(self).auctions@, auction_id@, i)
                    && old(self).auctions@[i].status != AuctionStatus::Active),
            r == Err::<(), ApiError>(ApiError::AuctionEnded) <==> (exists|i: int|
                #[trigger] first_auction(old(self).auctions@, auction_id@, i)
                    && old(self).auctions@[i].status == AuctionStatus::Active
                    && now_ms > old(self).auctions@[i].ends_at_ms),
            r == Err::<(), ApiError>(ApiError::BelowReserve) <==> (exists|i: int|
                #[trigger] first_auction(old(self).auctions@, auction_id@, i)
                    && old(self).auctions@[i].status == AuctionStatus::Active
                    && now_ms <= old(self).auctions@[i].ends_at_ms
                    && top_wei(old(self).auctions@[i]) == 0
                    && amount_val(amount_wei@) < reserve_wei_val(old(self).auctions@[i])),
            r == Err::<(), ApiError>(ApiError::BelowIncrement) <==> (exists|i: int|
                #[trigger] first_auction(old(self).auctions@, auction_id@, i)
                    && old(self).auctions@[i].status == AuctionStatus::Active
                    && now_ms <= old(self).auctions@[i].ends_at_ms
                    && top_wei(old(self).auctions@[i]) != 0
                    && amount_val(amount_wei@) < min_next_wei(top_wei(old(self).auctions@[i]))),
            r is Ok <==> (exists|i: int|
                #[trigger] first_auction(old(self).auctions@, auction_id@, i)
                    && old(self).auctions@[i].status == AuctionStatus::Active
                    && now_ms <= old(self).auctions@[i].ends_at_ms
                    && bid_ok(old(self).auctions@[i], amount_wei@)),
            r is Ok ==> (exists|i: int|
                #[trigger] first_auction(old(self).auctions@, auction_id@, i)
                    && final(self).auctions@ =~= old(self).auctions@.update(
                    i,
                    auction_after_bid(old(self).auctions@[i], fid, amount_wei, now_ms),
                )),
            r is Ok ==> (exists|i: int|
                #[trigger] first_auction(old(self).auctions@, auction_id@, i)
                    && (top_wei(old(self).auctions@[i]) > 0 ==> top_wei(final(self).auctions@[i])
                    >= min_next_wei(top_wei(old(self).auctions@[i])) && top_wei(
                    final(self).auctions@[i],
                ) > top_wei(old(self).auctions@[i]))),
            r is Ok ==> (exists|i: int|
                #[trigger] first_auction(old(self).auctions@, auction_id@, i)
                    && final(self).auctions@[i].ends_at_ms >= old(self).auctions@[i].ends_at_ms
                    && (old(self).auctions@[i].anti_snipe_used
                    ==> final(self).auctions@[i].ends_at_ms == old(self).auctions@[i].ends_at_ms)),
            r is Ok ==> {
                &&& final(self).bids@.len() == old(self).bids@.len() + 1
                &&& (forall|j: int|
                    0 <= j < old(self).bids@.len() ==> final(self).bids@[j] == old(self).bids@[j])
                &&& ({
                    let b = final(self).bids@.last();
                    &&& b.id@ == new_id_of(
                        "bid"@,
                        now_ms as int,
                        bid_extra(fid, auction_id@, amount_wei@),
                    )
                    &&& b.auction_id == auction_id
                    &&& b.fid == fid
                    &&& b.amount_wei == amount_wei
                    &&& b.placed_at_ms == now_ms
                })
            },
            r is Ok ==> *final(self) == (MarketState {
                auctions: final(self).auctions,
                bids: final(self).bids,
                ..*old(self)
            }),
    {
        let i = match find_auction_idx(&self.auctions, &auction_id) {
            None => {
                return Err(ApiError::AuctionNotFound);
            },
            Some(i) => i,
        };
        if self.auctions[i].status != AuctionStatus::Active {
            return Err(ApiError::AuctionClosed);
        }
        if now_ms > self.auctions[i].ends_at_ms {
            return Err(ApiError::AuctionEnded);
        }
        let current: i128 = match &self.auctions[i].top_bid_wei {
            Some(s) => parse_wei_str(s.as_str()),
            None => 0,
        };
        let next: i128 = parse_wei_str(amount_wei.as_str());
        if current == 0 {
            let reserve = parse_wei_str(self.auctions[i].reserve_wei.as_str());
            if next < reserve {
                return Err(ApiError::BelowReserve);
            }
        } else {
            if !meets_increment(next, current) {
                return Err(ApiError::BelowIncrement);
            }
        }
        let mut extra = dec_i64(fid);
        extra.append(":");
        extra.append(auction_id.as_str());
        extra.append(":");
        extra.append(amount_wei.as_str());
        assert(extra@ =~= bid_extra(fid, auction_id@, amount_wei@));
        let bid_id = new_id("bid", now_ms, extra.as_str());
        let bid = Bid {
            id: bid_id,
            auction_id: auction_id.clone(),
            fid,
            amount_wei: amount_wei.clone(),
            placed_at_ms: now_ms,
        };
        self.bids.push(bid);
        let a = &self.auctions[i];
        let fires = !a.anti_snipe_used && a.ends_at_ms as i128 - now_ms as i128
            <= ANTI_SNIPE_EXTEND_MS as i128;
        let new_ends = if fires {
            a.ends_at_ms + ANTI_SNIPE_EXTEND_MS
        } else {
            a.ends_at_ms
        };
        let updated = Auction {
            id: a.id.clone(),
            item_id: a.item_id.clone(),
            seller_fid: a.seller_fid,
            reserve_wei: a.reserve_wei.clone(),
            ends_at_ms: new_ends,
            status: a.status,
            top_bid_wei: Some(amount_wei),
            top_bidder_fid: Some(fid),
            buy_now_wei: match &a.buy_now_wei {
                Some(p) => Some(p.clone()),
                None => None,
            },
            anti_snipe_used: a.anti_snipe_used || fires,
            created_at_ms: a.created_at_ms,
            finalized_at_ms: a.finalized_at_ms,
        };
        vec_update(&mut self.auctions, i, updated);
        proof {
            if current as int > 0 {
                lemma_min_next_increases(current as int);
            }
        }
        Ok(())
    }

    /// Finalizes an auction immediately at its exact buy-now price and
    /// transfers the item, all as one atomic unit: a transfer that cannot
    /// succeed aborts the whole operation, including the status flip.
    pub fn buy_now(
        &mut self,
        auction_id: String,
        buyer_fid: i64,
        buy_now_wei: String,
        now_ms: i64,
    ) -> (r: Result<(), ApiError>)
        ensures
            r is Err ==> *final(self) == *old(self),
            r == Err::<(), ApiError>(ApiError::AuctionNotFound) <==> no_auction(
                old(self).auctions@,
                auction_id@,
            ),
            r == Err::<(), ApiError>(ApiError::AuctionClosed) <==> (exists|i: int|
                #[trigger] first_auction(old(self).auctions@, auction_id@, i)
                    && old(self).auctions@[i].status != AuctionStatus::Active),
            r == Err::<(), ApiError>(ApiError::InvalidBuyNow) <==> (exists|i: int|
                #[trigger] first_auction(old(self).auctions@, auction_id@, i)
                    && old(self).auctions@[i].status == AuctionStatus::Active
                    && opt_string_view(old(self).auctions@[i].buy_now_wei) != Some(buy_now_wei@)),
            r == Err::<(), ApiError>(ApiError::ItemNotFound) <==> (exists|i: int|
                #[trigger] first_auction(old(self).auctions@, auction_id@, i)
                    && old(self).auctions@[i].status == AuctionStatus::Active
                    && opt_string_view(old(self).auctions@[i].buy_now_wei) == Some(buy_now_wei@)
                    && no_item(old(self).inventory@, old(self).auctions@[i].item_id@)),
            r == Err::<(), ApiError>(ApiError::NotOwner) <==> (exists|i: int, k: int|
                #[trigger] first_auction(old(self).auctions@, auction_id@, i)
                    && old(self).auctions@[i].status == AuctionStatus::Active
                    && opt_string_view(old(self).auctions@[i].buy_now_wei) == Some(buy_now_wei@)
                    && #[trigger] first_item(
                    old(self).inventory@,
                    old(self).auctions@[i].item_id@,
                    k,
                ) && old(self).inventory@[k].owner_fid != old(self).auctions@[i].seller_fid),
            r is Ok <==> (exists|i: int, k: int|
                #[trigger] first_auction(old(self).auctions@, auction_id@, i)
                    && old(self).auctions@[i].status == AuctionStatus::Active
                    && opt_string_view(old(self).auctions@[i].buy_now_wei) == Some(buy_now_wei@)
                    && #[trigger] first_item(
                    old(self).inventory@,
                    old(self).auctions@[i].item_id@,
                    k,
                ) && old(self).inventory@[k].owner_fid == old(self).auctions@[i].seller_fid),
            r is Ok ==> (exists|i: int, k: int|
                #![trigger first_auction(old(self).auctions@, auction_id@, i), first_item(old(self).inventory@, old(self).auctions@[i].item_id@, k)]
                {
                    let a0 = old(self).auctions@[i];
                    let eid = event_id_of(
                        "AuctionBuyNow"@,
                        buyer_fid,
                        Some(auction_id@),
                        now_ms as int,
                    );
                    &&& first_auction(old(self).auctions@, auction_id@, i)
                    &&& first_item(old(self).inventory@, a0.item_id@, k)
                    &&& final(self).auctions@ =~= old(self).auctions@.update(
                        i,
                        (Auction {
                            status: AuctionStatus::Finalized,
                            finalized_at_ms: Some(now_ms),
                            top_bid_wei: Some(buy_now_wei),
                            top_bidder_fid: Some(buyer_fid),
                            ..a0
                        }),
                    )
                    &&& final(self).inventory@.len() == old(self).inventory@.len()
                    &&& (forall|j: int|
                        0 <= j < old(self).inventory@.len() && j != k ==> final(self).inventory@[j]
                            == old(self).inventory@[j])
                    &&& item_transferred(
                        old(self).inventory@[k],
                        final(self).inventory@[k],
                        buyer_fid,
                        eid,
                        now_ms,
                    )
                    &&& event_appended(
                        old(self).events@,
                        final(self).events@,
                        eid,
                        "AuctionBuyNow"@,
                        buyer_fid,
                        Some(auction_id@),
                        auction_event_payload(a0),
                        now_ms,
                    )
                }),
            r is Ok ==> *final(self) == (MarketState {
                auctions: final(self).auctions,
                inventory: final(self).inventory,
                events: final(self).events,
                ..*old(self)
            }),
    {
        let i = match find_auction_idx(&self.auctions, &auction_id) {
            None => {
                return Err(ApiError::AuctionNotFound);
            },
            Some(i) => i,
        };
        if self.auctions[i].status != AuctionStatus::Active {
            return Err(ApiError::AuctionClosed);
        }
        let price_matches = match &self.auctions[i].buy_now_wei {
            Some(p) => *p == buy_now_wei,
            None => false,
        };
        if !price_matches {
            return Err(ApiError::InvalidBuyNow);
        }
        let item_id = self.auctions[i].item_id.clone();
        let seller_fid = self.auctions[i].seller_fid;
        let k = match find_item_idx(&self.inventory, &item_id) {
            None => {
                return Err(ApiError::ItemNotFound);
            },
            Some(k) => k,
        };
        if self.inventory[k].owner_fid != seller_fid {
            return Err(ApiError::NotOwner);
        }
        let payload = self.render_auction_payload(&self.auctions[i]);
        let a = &self.auctions[i];
        let updated = Auction {
            id: a.id.clone(),
            item_id: a.item_id.clone(),
            seller_fid: a.seller_fid,
            reserve_wei: a.reserve_wei.clone(),
            ends_at_ms: a.ends_at_ms,
            status: AuctionStatus::Finalized,
            top_bid_wei: Some(buy_now_wei),
            top_bidder_fid: Some(buyer_fid),
            buy_now_wei: match &a.buy_now_wei {
                Some(p) => Some(p.clone()),
                None => None,
            },
            anti_snipe_used: a.anti_snipe_used,
            created_at_ms: a.created_at_ms,
            finalized_at_ms: Some(now_ms),
        };
        let eid = self.append_event(
            "AuctionBuyNow",
            buyer_fid,
            payload,
            Some(auction_id.clone()),
            now_ms,
        );
        vec_update(&mut self.auctions, i, updated);
        let tr = self.transfer_item(item_id, seller_fid, buyer_fid, eid, now_ms);
        match tr {
            Ok(()) => {},
            Err(_) => {
                proof {
                    assert(false);
                }
            },
        }
        Ok(())
    }

    /// Finalizes an auction to its recorded top bidder and transfers the
    /// item, all as one atomic unit: a transfer that cannot succeed aborts
    /// the whole operation, including the status flip.
    pub fn finalize_auction(
        &mut self,
        auction_id: String,
        winner_fid: i64,
        now_ms: i64,
    ) -> (r: Result<(), ApiError>)
        ensures
            r is Err ==> *final(self) == *old(self),
            r == Err::<(), ApiError>(ApiError::AuctionNotFound) <==> no_auction(
                old(self).auctions@,
                auction_id@,
            ),
            r == Err::<(), ApiError>(ApiError::AuctionClosed) <==> (exists|i: int|
                #[trigger] first_auction(old(self).auctions@, auction_id@, i)
                    && old(self).auctions@[i].status != AuctionStatus::Active),
            r == Err::<(), ApiError>(ApiError::NotWinner) <==> (exists|i: int|
                #[trigger] first_auction(old(self).auctions@, auction_id@, i)
                    && old(self).auctions@[i].status == AuctionStatus::Active
                    && old(self).auctions@[i].top_bidder_fid != Some(winner_fid)),
            r == Err::<(), ApiError>(ApiError::ItemNotFound) <==> (exists|i: int|
                #[trigger] first_auction(old(self).auctions@, auction_id@, i)
                    && old(self).auctions@[i].status == AuctionStatus::Active
                    && old(self).auctions@[i].top_bidder_fid == Some(winner_fid)
                    && no_item(old(self).inventory@, old(self).auctions@[i].item_id@)),
            r == Err::<(), ApiError>(ApiError::NotOwner) <==> (exists|i: int, k: int|
                #[trigger] first_auction(old(self).auctions@, auction_id@, i)
                    && old(self).auctions@[i].status == AuctionStatus::Active
                    && old(self).auctions@[i].top_bidder_fid == Some(winner_fid)
                    && #[trigger] first_item(
                    old(self).inventory@,
                    old(self).auctions@[i].item_id@,
                    k,
                ) && old(self).inventory@[k].owner_fid != old(self).auctions@[i].seller_fid),
            r is Ok <==> (exists|i: int, k: int|
                #[trigger] first_auction(old(self).auctions@, auction_id@, i)
                    && old(self).auctions@[i].status == AuctionStatus::Active
                    && old(self).auctions@[i].top_bidder_fid == Some(winner_fid)
                    && #[trigger] first_item(
                    old(self).inventory@,
                    old(self).auctions@[i].item_id@,
                    k,
                ) && old(self).inventory@[k].owner_fid == old(self).auctions@[i].seller_fid),
            r is Ok ==> (exists|i: int, k: int|
                #![trigger first_auction(old(self).auctions@, auction_id@, i), first_item(old(self).inventory@, old(self).auctions@[i].item_id@, k)]
                {
                    let a0 = old(self).auctions@[i];
                    let eid = event_id_of(
                        "AuctionFinalized"@,
                        winner_fid,
                        Some(auction_id@),
                        now_ms as int,
                    );
                    &&& first_auction(old(self).auctions@, auction_id@, i)
                    &&& first_item(old(self).inventory@, a0.item_id@, k)
                    &&& final(self).auctions@ =~= old(self).auctions@.update(
                        i,
                        (Auction {
                            status: AuctionStatus::Finalized,
                            finalized_at_ms: Some(now_ms),
                            ..a0
                        }),
                    )
                    &&& final(self).inventory@.len() == old(self).inventory@.len()
                    &&& (forall|j: int|
                        0 <= j < old(self).inventory@.len() && j != k ==> final(self).inventory@[j]
                            == old(self).inventory@[j])
                    &&& item_transferred(
                        old(self).inventory@[k],
                        final(self).inventory@[k],
                        winner_fid,
                        eid,
                        now_ms,
                    )
                    &&& event_appended(
                        old(self).events@,
                        final(self).events@,
                        eid,
                        "AuctionFinalized"@,
                        winner_fid,
                        Some(auction_id@),
                        auction_event_payload(a0),
                        now_ms,
                    )
                }),
            r is Ok ==> *final(self) == (MarketState {
                auctions: final(self).auctions,
                inventory: final(self).inventory,
                events: final(self).events,
                ..*old(self)
            }),
    {
        let i = match find_auction_idx(&self.auctions, &auction_id) {
            None => {
                return Err(ApiError::AuctionNotFound);
            },
            Some(i) => i,
        };
        if self.auctions[i].status != AuctionStatus::Active {
            return Err(ApiError::AuctionClosed);
        }
        let is_winner = match self.auctions[i].top_bidder_fid {
            Some(f) => f == winner_fid,
            None => false,
        };
        if !is_winner {
            return Err(ApiError::NotWinner);
        }
        let item_id = self.auctions[i].item_id.clone();
        let seller_fid = self.auctions[i].seller_fid;
        let k = match find_item_idx(&self.inventory, &item_id) {
            None => {
                return Err(ApiError::ItemNotFound);
            },
            Some(k) => k,
        };
        if self.inventory[k].owner_fid != seller_fid {
            return Err(ApiError::NotOwner);
        }
        let payload = self.render_auction_payload(&self.auctions[i]);
        let a = &self.auctions[i];
        let updated = Auction {
            id: a.id.clone(),
            item_id: a.item_id.clone(),
            seller_fid: a.seller_fid,
            reserve_wei: a.reserve_wei.clone(),
            ends_at_ms: a.ends_at_ms,
            status: AuctionStatus::Finalized,
            top_bid_wei: match &a.top_bid_wei {
                Some(p) => Some(p.clone()),
                None => None,
            },
            top_bidder_fid: a.top_bidder_fid,
            buy_now_wei: match &a.buy_now_wei {
                Some(p) => Some(p.clone()),
                None => None,
            },
            anti_snipe_used: a.anti_snipe_used,
            created_at_ms: a.created_at_ms,
            finalized_at_ms: Some(now_ms),
        };
        let eid = self.append_event(
            "AuctionFinalized",
            winner_fid,
            payload,
            Some(auction_id.clone()),
            now_ms,
        );
        vec_update(&mut self.auctions, i, updated);
        let tr = self.transfer_item(item_id, seller_fid, winner_fid, eid, now_ms);
        match tr {
            Ok(()) => {},
            Err(_) => {
                proof {
                    assert(false);
                }
            },
        }
        Ok(())
    }
}

} // verus!
