//! The one-time starter pack grant: a write-once claim, one audit event,
//! and an idempotent reseed of the granted player items.

use vstd::prelude::*;

use crate::errors::ApiError;
use crate::events::{event_appended, event_id_of, inbox_grown};
use crate::records::{InventoryItem, StarterClaim, StarterPackPayload, StarterPlayer};
use crate::state::{claim_exists, find_item_idx, first_item, has_claim, MarketState};
use crate::text::{dec_int, dec_u64};

verus! {

/// The hold period applied to granted items, in milliseconds.
pub const HOLD_MS: i64 = crate::HOLD_DAYS * 24 * 60 * 60 * 1000;

/// The player ids a starter payload text parses to: a function of the
/// text alone; malformed text parses to no players.
pub uninterp spec fn players_of(s: Seq<char>) -> Seq<Seq<char>>;

/// Relies on `serde_json::from_str::<serde_json::Value>`,
/// `serde_json::Value::get`, `serde_json::Value::as_array` and
/// `serde_json::Value::as_str`: what a fixed text parses to is a function
/// of that text alone. Only the player ids are read; a payload without a
/// well-formed `players` array of objects carrying string `player_id`
/// fields degrades to an empty list.
#[verifier::external_body]
fn parse_starter_payload(s: &str) -> (r: StarterPackPayload)
    ensures
        r.players@.map_values(|p: StarterPlayer| p.player_id@) == players_of(s@),
{
    let ids: Option<Vec<String>> = serde_json::from_str::<serde_json::Value>(s)
        .ok()
        .and_then(|v| {
            v.get("players").and_then(|p| p.as_array()).and_then(|arr| {
                arr.iter()
                    .map(|p| p.get("player_id").and_then(|x| x.as_str()).map(String::from))
                    .collect()
            })
        });
    let players = ids
        .unwrap_or_default()
        .into_iter()
        .map(|player_id| StarterPlayer { player_id, name: None, position: None, rating: None })
        .collect();
    StarterPackPayload { players }
}

/// One granted item replaced any previous item under the same id: the old
/// row, if any, is gone, and the new row sits at the end.
pub open spec fn one_granted(
    s0: Seq<InventoryItem>,
    s1: Seq<InventoryItem>,
    id: Seq<char>,
    fid: i64,
    now_ms: i64,
    hold_until_ms: i64,
    event_id: Seq<char>,
) -> bool {
    let base = if exists|i: int| first_item(s0, id, i) {
        s0.remove(choose|i: int| first_item(s0, id, i))
    } else {
        s0
    };
    &&& s1.len() == base.len() + 1
    &&& (forall|j: int| 0 <= j < base.len() ==> s1[j] == base[j])
    &&& ({
        let it = s1.last();
        &&& it.item_id@ == id
        &&& it.owner_fid == fid
        &&& it.item_type@ == "player"@
        &&& it.acquired_at_ms == now_ms
        &&& it.hold_until_ms == hold_until_ms
        &&& it.source_event_id@ == event_id
    })
}

/// The whole reseed: each id in order replaced its previous row.
pub open spec fn grant_applied(
    s0: Seq<InventoryItem>,
    s1: Seq<InventoryItem>,
    ids: Seq<Seq<char>>,
    fid: i64,
    now_ms: i64,
    hold_until_ms: i64,
    event_id: Seq<char>,
) -> bool
    decreases ids.len(),
{
    if ids.len() == 0 {
        s1 == s0
    } else {
        exists|mid: Seq<InventoryItem>|
            grant_applied(s0, mid, ids.drop_last(), fid, now_ms, hold_until_ms, event_id)
                && #[trigger] one_granted(mid, s1, ids.last(), fid, now_ms, hold_until_ms, event_id)
    }
}

/// Extending a reseed by one more id keeps the whole reseed valid.
pub proof fn lemma_grant_applied_step(
    s0: Seq<InventoryItem>,
    mid: Seq<InventoryItem>,
    s1: Seq<InventoryItem>,
    ids: Seq<Seq<char>>,
    fid: i64,
    now_ms: i64,
    hold_until_ms: i64,
    event_id: Seq<char>,
)
    requires
        ids.len() > 0,
        grant_applied(s0, mid, ids.drop_last(), fid, now_ms, hold_until_ms, event_id),
        one_granted(mid, s1, ids.last(), fid, now_ms, hold_until_ms, event_id),
    ensures
        grant_applied(s0, s1, ids, fid, now_ms, hold_until_ms, event_id),
{
    assert(grant_applied(s0, s1, ids, fid, now_ms, hold_until_ms, event_id)) by {
        reveal_with_fuel(grant_applied, 2);
    };
}

impl MarketState {
    /// Grants the starter pack once per identity: records the claim,
    /// appends the audit event, reseeds the granted items under a seven
    /// day hold, and notifies the identity.
    pub fn grant_starter_pack(
        &mut self,
        fid: i64,
        players_json: String,
        now_ms: i64,
    ) -> (r: Result<(), ApiError>)
        requires
            now_ms <= i64::MAX - HOLD_MS,
        ensures
            r is Err ==> *final(self) == *old(self),
            r == Err::<(), ApiError>(ApiError::AlreadyClaimed) <==> has_claim(
                old(self).starter_claims@,
                fid,
            ),
            r is Ok <==> !has_claim(old(self).starter_claims@, fid),
            r is Ok ==> ({
                let eid = event_id_of("starter_pack_granted"@, fid, None, now_ms as int);
                let ids = players_of(players_json@);
                &&& final(self).starter_claims@ =~= old(self).starter_claims@.push(
                    (StarterClaim { fid, claimed_at_ms: now_ms }),
                )
                &&& has_claim(final(self).starter_claims@, fid)
                &&& event_appended(
                    old(self).events@,
                    final(self).events@,
                    eid,
                    "starter_pack_granted"@,
                    fid,
                    None,
                    players_json@,
                    now_ms,
                )
                &&& grant_applied(
                    old(self).inventory@,
                    final(self).inventory@,
                    ids,
                    fid,
                    now_ms,
                    (now_ms + HOLD_MS) as i64,
                    eid,
                )
                &&& inbox_grown(
                    old(self).inbox@,
                    final(self).inbox@,
                    fid,
                    "starter-"@ + eid,
                    "starter_pack"@,
                    "Starter Pack Granted"@,
                    "You received "@ + dec_int(ids.len() as int)
                        + " players from starter pack."@,
                    now_ms,
                )
            }),
            r is Ok ==> *final(self) == (MarketState {
                starter_claims: final(self).starter_claims,
                events: final(self).events,
                inventory: final(self).inventory,
                inbox: final(self).inbox,
                ..*old(self)
            }),
    {
        if claim_exists(&self.starter_claims, fid) {
            return Err(ApiError::AlreadyClaimed);
        }
        self.starter_claims.push(StarterClaim { fid, claimed_at_ms: now_ms });
        let eid = self.append_event(
            "starter_pack_granted",
            fid,
            players_json.clone(),
            None,
            now_ms,
        );
        let payload = parse_starter_payload(players_json.as_str());
        let hold_until = now_ms + HOLD_MS;
        let ghost ids = players_of(players_json@);
        let ghost pre_loop = *self;
        let mut idx: usize = 0;
        while idx < payload.players.len()
            invariant
                idx <= payload.players.len(),
                payload.players@.map_values(|p: StarterPlayer| p.player_id@) == ids,
                ids.len() == payload.players@.len(),
                eid@ == event_id_of("starter_pack_granted"@, fid, None, now_ms as int),
                hold_until == now_ms + HOLD_MS,
                pre_loop.starter_claims@ =~= old(self).starter_claims@.push(
                    (StarterClaim { fid, claimed_at_ms: now_ms }),
                ),
                event_appended(
                    old(self).events@,
                    pre_loop.events@,
                    eid@,
                    "starter_pack_granted"@,
                    fid,
                    None,
                    players_json@,
                    now_ms,
                ),
                pre_loop == (MarketState {
                    starter_claims: pre_loop.starter_claims,
                    events: pre_loop.events,
                    ..*old(self)
                }),
                grant_applied(
                    pre_loop.inventory@,
                    self.inventory@,
                    ids.take(idx as int),
                    fid,
                    now_ms,
                    hold_until,
                    eid@,
                ),
                *self == (MarketState { inventory: self.inventory, ..pre_loop }),
            decreases payload.players.len() - idx,
        {
            let ghost pre = self.inventory@;
            let player_id = payload.players[idx].player_id.clone();
            proof {
                assert(ids[idx as int] == payload.players@[idx as int].player_id@);
            }
            match find_item_idx(&self.inventory, &player_id) {
                Some(i) => {
                    proof {
                        let w = choose|w: int| first_item(pre, player_id@, w);
                        crate::state::lemma_first_item_unique(pre, player_id@, i as int, w);
                    }
                    self.inventory.remove(i);
                },
                None => {},
            }
            let item = InventoryItem {
                item_id: player_id,
                owner_fid: fid,
                item_type: String::from_str("player"),
                acquired_at_ms: now_ms,
                hold_until_ms: hold_until,
                source_event_id: eid.clone(),
            };
            self.inventory.push(item);
            proof {
                let cur = ids.take(idx + 1int);
                assert(cur.drop_last() =~= ids.take(idx as int));
                assert(cur.last() == ids[idx as int]);
                assert(one_granted(pre, self.inventory@, cur.last(), fid, now_ms, hold_until, eid@));
                assert(grant_applied(
                    pre_loop.inventory@,
                    pre,
                    cur.drop_last(),
                    fid,
                    now_ms,
                    hold_until,
                    eid@,
                ));
                lemma_grant_applied_step(
                    pre_loop.inventory@,
                    pre,
                    self.inventory@,
                    cur,
                    fid,
                    now_ms,
                    hold_until,
                    eid@,
                );
            }
            idx += 1;
        }
        proof {
            assert(ids.take(payload.players.len() as int) =~= ids);
        }
        let mut msg_id = String::from_str("starter-");
        msg_id.append(eid.as_str());
        let mut body = String::from_str("You received ");
        let count = dec_u64(payload.players.len() as u64);
        body.append(count.as_str());
        body.append(" players from starter pack.");
        proof {
            assert(ids.len() == payload.players@.len());
        }
        self.push_inbox(fid, msg_id, "starter_pack", "Starter Pack Granted", body.as_str(), now_ms);
        proof {
            let n = old(self).starter_claims@.len() as int;
            assert(self.starter_claims@[n].fid == fid);
        }
        Ok(())
    }
}

/// The claim is write-once: once a grant succeeded, the claim stands, so a
/// later grant for the same identity observes the conflict, as long as no
/// claim was removed.
pub proof fn lemma_claim_write_once(s: Seq<StarterClaim>, t: Seq<StarterClaim>, fid: i64)
    requires
        has_claim(s, fid),
        forall|j: int| 0 <= j < s.len() ==> t[j] == s[j],
        t.len() >= s.len(),
    ensures
        has_claim(t, fid),
{
    let j = choose|j: int| 0 <= j < s.len() && s[j].fid == fid;
    assert(t[j].fid == fid);
}

} // verus!
