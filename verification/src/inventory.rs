//! The inventory ledger's atomic transfer primitive: the only path that may
//! change an item's owner.

use vstd::prelude::*;

use crate::errors::ApiError;
use crate::records::InventoryItem;
use crate::state::{first_item, find_item_idx, no_item, vec_update, MarketState};

verus! {

/// The item as it stands after a successful transfer: new owner, refreshed
/// acquisition time, provenance stamped with the causing event.
pub open spec fn item_after_transfer(
    it: InventoryItem,
    to_fid: i64,
    event_id: String,
    now_ms: i64,
) -> InventoryItem {
    InventoryItem {
        owner_fid: to_fid,
        acquired_at_ms: now_ms,
        source_event_id: event_id,
        ..it
    }
}

/// How a transferred item relates to its old self, stated over views so
/// that callers can speak of derived event ids.
pub open spec fn item_transferred(
    it0: InventoryItem,
    it1: InventoryItem,
    to_fid: i64,
    event_id: Seq<char>,
    now_ms: i64,
) -> bool {
    &&& it1.item_id == it0.item_id
    &&& it1.owner_fid == to_fid
    &&& it1.item_type == it0.item_type
    &&& it1.acquired_at_ms == now_ms
    &&& it1.hold_until_ms == it0.hold_until_ms
    &&& it1.source_event_id@ == event_id
}

impl MarketState {
    /// Transfers one item from `from_fid` to `to_fid`.
    ///
    /// Ownership changes only when the caller-asserted previous owner
    /// matches the stored owner; any error leaves the store untouched.
    pub fn transfer_item(
        &mut self,
        item_id: String,
        from_fid: i64,
        to_fid: i64,
        event_id: String,
        now_ms: i64,
    ) -> (r: Result<(), ApiError>)
        ensures
            r is Err ==> *final(self) == *old(self),
            r == Err::<(), ApiError>(ApiError::ItemNotFound) <==> no_item(
                old(self).inventory@,
                item_id@,
            ),
            r == Err::<(), ApiError>(ApiError::NotOwner) <==> (exists|i: int|
                #[trigger] first_item(old(self).inventory@, item_id@, i)
                    && old(self).inventory@[i].owner_fid != from_fid),
            r is Ok <==> (exists|i: int|
                #[trigger] first_item(old(self).inventory@, item_id@, i)
                    && old(self).inventory@[i].owner_fid == from_fid),
            r is Ok ==> (exists|i: int|
                #[trigger] first_item(old(self).inventory@, item_id@, i)
                    && final(self).inventory@ =~= old(self).inventory@.update(
                    i,
                    item_after_transfer(old(self).inventory@[i], to_fid, event_id, now_ms),
                )),
            r is Ok ==> *final(self) == (MarketState { inventory: final(self).inventory, ..*old(self) }),
            r is Ok ==> (exists|i: int|
                #[trigger] first_item(old(self).inventory@, item_id@, i)
                    && final(self).inventory@.len() == old(self).inventory@.len()
                    && (forall|j: int|
                    0 <= j < old(self).inventory@.len() && j != i ==> final(self).inventory@[j]
                        == old(self).inventory@[j])
                    && item_transferred(
                    old(self).inventory@[i],
                    final(self).inventory@[i],
                    to_fid,
                    event_id@,
                    now_ms,
                )),
    {
        match find_item_idx(&self.inventory, &item_id) {
            None => Err(ApiError::ItemNotFound),
            Some(i) => {
                if self.inventory[i].owner_fid != from_fid {
                    return Err(ApiError::NotOwner);
                }
                let it = &self.inventory[i];
                let updated = InventoryItem {
                    item_id: it.item_id.clone(),
                    owner_fid: to_fid,
                    item_type: it.item_type.clone(),
                    acquired_at_ms: now_ms,
                    hold_until_ms: it.hold_until_ms,
                    source_event_id: event_id,
                };
                vec_update(&mut self.inventory, i, updated);
                Ok(())
            },
        }
    }
}

} // verus!
