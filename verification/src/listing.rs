//! The fixed-price listing market: create, then close-and-transfer as one
//! atomic unit.

use vstd::prelude::*;

use crate::errors::ApiError;
use crate::events::{event_appended, event_id_of, inbox_grown};
use crate::records::{Inbox, Listing, ListingStatus};
use crate::state::{
    find_item_idx, find_listing_idx, first_item, first_listing, no_item, no_listing, vec_update,
    MarketState,
};
use crate::inventory::item_transferred;
use crate::text::{dec_i64, dec_int, new_id, new_id_of};
use crate::DEV_FID;

verus! {

/// The context a listing or auction id is derived over: actor and item.
pub open spec fn pair_extra(fid: i64, item: Seq<char>) -> Seq<char> {
    dec_int(fid as int) + ":"@ + item
}

/// The snapshot of a just-closed listing carried by its `ListingSold`
/// event.
pub open spec fn listing_sold_payload(l: Listing, closed_at_ms: int) -> Seq<char> {
    "{\"id\":\""@ + l.id@ + "\",\"item_id\":\""@ + l.item_id@ + "\",\"seller_fid\":"@ + dec_int(
        l.seller_fid as int,
    ) + ",\"price_wei\":\""@ + l.price_wei@ + "\",\"status\":\"closed\",\"closed_at_ms\":"@
        + dec_int(closed_at_ms) + "}"@
}

/// Whether the hold period permits this caller to dispose of the item.
pub open spec fn hold_allows(hold_until_ms: i64, fid: i64, now_ms: i64) -> bool {
    now_ms >= hold_until_ms || fid == DEV_FID
}

impl MarketState {
    /// Builds the `ListingSold` snapshot text for a listing.
    fn render_sold_payload(&self, l: &Listing, closed_at_ms: i64) -> (r: String)
        ensures
            r@ == listing_sold_payload(*l, closed_at_ms as int),
    {
        let mut s = String::from_str("{\"id\":\"");
        s.append(l.id.as_str());
        s.append("\",\"item_id\":\"");
        s.append(l.item_id.as_str());
        s.append("\",\"seller_fid\":");
        let seller = dec_i64(l.seller_fid);
        s.append(seller.as_str());
        s.append(",\"price_wei\":\"");
        s.append(l.price_wei.as_str());
        s.append("\",\"status\":\"closed\",\"closed_at_ms\":");
        let closed = dec_i64(closed_at_ms);
        s.append(closed.as_str());
        s.append("}");
        assert(s@ =~= listing_sold_payload(*l, closed_at_ms as int));
        s
    }

    /// Creates an active listing for an item the caller owns and may
    /// dispose of.
    pub fn create_listing(
        &mut self,
        fid: i64,
        item_id: String,
        price_wei: String,
        now_ms: i64,
    ) -> (r: Result<(), ApiError>)
        ensures
            r is Err ==> *final(self) == *old(self),
            r == Err::<(), ApiError>(ApiError::ItemNotFound) <==> no_item(
                old(self).inventory@,
                item_id@,
            ),
            r == Err::<(), ApiError>(ApiError::NotOwner) <==> (exists|k: int|
                #[trigger] first_item(old(self).inventory@, item_id@, k)
                    && old(self).inventory@[k].owner_fid != fid),
            r == Err::<(), ApiError>(ApiError::InHold) <==> (exists|k: int|
                #[trigger] first_item(old(self).inventory@, item_id@, k)
                    && old(self).inventory@[k].owner_fid == fid
                    && !hold_allows(old(self).inventory@[k].hold_until_ms, fid, now_ms)),
            r is Ok <==> (exists|k: int|
                #[trigger] first_item(old(self).inventory@, item_id@, k)
                    && old(self).inventory@[k].owner_fid == fid
                    && hold_allows(old(self).inventory@[k].hold_until_ms, fid, now_ms)),
            r is Ok ==> {
                &&& final(self).listings@.len() == old(self).listings@.len() + 1
                &&& (forall|j: int|
                    0 <= j < old(self).listings@.len() ==> final(self).listings@[j]
                        == old(self).listings@[j])
                &&& ({
                    let l = final(self).listings@.last();
                    &&& l.id@ == new_id_of("lst"@, now_ms as int, pair_extra(fid, item_id@))
                    &&& l.item_id == item_id
                    &&& l.seller_fid == fid
                    &&& l.price_wei == price_wei
                    &&& l.status == ListingStatus::Active
                    &&& l.created_at_ms == now_ms
                    &&& l.closed_at_ms is None
                })
            },
            r is Ok ==> *final(self) == (MarketState { listings: final(self).listings, ..*old(self) }),
    {
        let k = match find_item_idx(&self.inventory, &item_id) {
            None => {
                return Err(ApiError::ItemNotFound);
            },
            Some(k) => k,
        };
        let item = &self.inventory[k];
        if item.owner_fid != fid {
            return Err(ApiError::NotOwner);
        }
        if now_ms < item.hold_until_ms && fid != DEV_FID {
            return Err(ApiError::InHold);
        }
        let mut extra = dec_i64(fid);
        extra.append(":");
        extra.append(item_id.as_str());
        assert(extra@ =~= pair_extra(fid, item_id@));
        let id = new_id("lst", now_ms, extra.as_str());
        let listing = Listing {
            id,
            item_id,
            seller_fid: fid,
            price_wei,
            status: ListingStatus::Active,
            created_at_ms: now_ms,
            closed_at_ms: None,
        };
        self.listings.push(listing);
        Ok(())
    }

    /// Closes an active listing and transfers its item to the buyer, all
    /// as one atomic unit: a transfer that cannot succeed aborts the whole
    /// operation, including the status flip.
    pub fn close_listing_and_transfer(
        &mut self,
        listing_id: String,
        buyer_fid: i64,
        now_ms: i64,
    ) -> (r: Result<(), ApiError>)
        ensures
            r is Err ==> *final(self) == *old(self),
            r == Err::<(), ApiError>(ApiError::ListingNotFound) <==> no_listing(
                old(self).listings@,
                listing_id@,
            ),
            r == Err::<(), ApiError>(ApiError::ListingClosed) <==> (exists|i: int|
                #[trigger] first_listing(old(self).listings@, listing_id@, i)
                    && old(self).listings@[i].status != ListingStatus::Active),
            r == Err::<(), ApiError>(ApiError::ItemNotFound) <==> (exists|i: int|
                #[trigger] first_listing(old(self).listings@, listing_id@, i)
                    && old(self).listings@[i].status == ListingStatus::Active
                    && no_item(old(self).inventory@, old(self).listings@[i].item_id@)),
            r == Err::<(), ApiError>(ApiError::NotOwner) <==> (exists|i: int, k: int|
                #[trigger] first_listing(old(self).listings@, listing_id@, i)
                    && old(self).listings@[i].status == ListingStatus::Active
                    && #[trigger] first_item(
                    old(self).inventory@,
                    old(self).listings@[i].item_id@,
                    k,
                ) && old(self).inventory@[k].owner_fid != old(self).listings@[i].seller_fid),
            r is Ok <==> (exists|i: int, k: int|
                #[trigger] first_listing(old(self).listings@, listing_id@, i)
                    && old(self).listings@[i].status == ListingStatus::Active
                    && #[trigger] first_item(
                    old(self).inventory@,
                    old(self).listings@[i].item_id@,
                    k,
                ) && old(self).inventory@[k].owner_fid == old(self).listings@[i].seller_fid),
            r is Ok ==> (exists|i: int, k: int|
                #![trigger first_listing(old(self).listings@, listing_id@, i), first_item(old(self).inventory@, old(self).listings@[i].item_id@, k)]
                {
                    let l0 = old(self).listings@[i];
                    let eid = event_id_of(
                        "ListingSold"@,
                        buyer_fid,
                        Some(listing_id@),
                        now_ms as int,
                    );
                    &&& first_listing(old(self).listings@, listing_id@, i)
                    &&& first_item(old(self).inventory@, l0.item_id@, k)
                    &&& final(self).listings@ =~= old(self).listings@.update(
                        i,
                        (Listing {
                            status: ListingStatus::Closed,
                            closed_at_ms: Some(now_ms),
                            ..l0
                        }),
                    )
                    &&& final(self).inventory@.len() == old(self).inventory@.len()
                    &&& (forall|j: int|
                        0 <= j < old(self).inventory@.len() && j != k ==> final(self).inventory@[j]
                            == old(self).inventory@[j])
                    &&& item_transferred(
                        old(self).inventory@[k],
                        final(self).inventory@[k],
                        buyer_fid,
                        eid,
                        now_ms,
                    )
                    &&& event_appended(
                        old(self).events@,
                        final(self).events@,
                        eid,
                        "ListingSold"@,
                        buyer_fid,
                        Some(listing_id@),
                        listing_sold_payload(
                            (Listing {
                                status: ListingStatus::Closed,
                                closed_at_ms: Some(now_ms),
                                ..l0
                            }),
                            now_ms as int,
                        ),
                        now_ms,
                    )
                    &&& (exists|mid: Seq<Inbox>|
                        inbox_grown(
                            old(self).inbox@,
                            mid,
                            l0.seller_fid,
                            "listing-sold-"@ + eid,
                            "listing_sold"@,
                            "Item Sold!"@,
                            "Your item was purchased."@,
                            now_ms,
                        ) && inbox_grown(
                            mid,
                            final(self).inbox@,
                            buyer_fid,
                            "listing-bought-"@ + eid,
                            "listing_bought"@,
                            "Purchase Complete"@,
                            "You bought an item."@,
                            now_ms,
                        ))
                }),
            r is Ok ==> *final(self) == (MarketState {
                listings: final(self).listings,
                inventory: final(self).inventory,
                events: final(self).events,
                inbox: final(self).inbox,
                ..*old(self)
            }),
    {
        let i = match find_listing_idx(&self.listings, &listing_id) {
            None => {
                return Err(ApiError::ListingNotFound);
            },
            Some(i) => i,
        };
        if self.listings[i].status != ListingStatus::Active {
            return Err(ApiError::ListingClosed);
        }
        let item_id = self.listings[i].item_id.clone();
        let seller_fid = self.listings[i].seller_fid;
        let k = match find_item_idx(&self.inventory, &item_id) {
            None => {
                return Err(ApiError::ItemNotFound);
            },
            Some(k) => k,
        };
        if self.inventory[k].owner_fid != seller_fid {
            return Err(ApiError::NotOwner);
        }
        let l = &self.listings[i];
        let closed = Listing {
            id: l.id.clone(),
            item_id: l.item_id.clone(),
            seller_fid: l.seller_fid,
            price_wei: l.price_wei.clone(),
            status: ListingStatus::Closed,
            created_at_ms: l.created_at_ms,
            closed_at_ms: Some(now_ms),
        };
        let payload = self.render_sold_payload(&closed, now_ms);
        vec_update(&mut self.listings, i, closed);
        let eid = self.append_event(
            "ListingSold",
            buyer_fid,
            payload,
            Some(listing_id.clone()),
            now_ms,
        );
        let tr = self.transfer_item(item_id, seller_fid, buyer_fid, eid.clone(), now_ms);
        match tr {
            Ok(()) => {},
            Err(_) => {
                proof {
                    assert(false);
                }
            },
        }
        let mut sold_id = String::from_str("listing-sold-");
        sold_id.append(eid.as_str());
        self.push_inbox(
            seller_fid,
            sold_id,
            "listing_sold",
            "Item Sold!",
            "Your item was purchased.",
            now_ms,
        );
        let mut bought_id = String::from_str("listing-bought-");
        bought_id.append(eid.as_str());
        self.push_inbox(
            buyer_fid,
            bought_id,
            "listing_bought",
            "Purchase Complete",
            "You bought an item.",
            now_ms,
        );
        Ok(())
    }
}

} // verus!
