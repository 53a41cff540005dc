//! Identity and wallet linking: idempotent relink with a globally unique
//! address key.

use vstd::prelude::*;

use crate::records::{User, WalletLink};
use crate::state::{
    find_link_idx, find_user_idx, first_link, first_user, no_link, no_user, vec_update,
    MarketState,
};
use crate::text::{lower_of, normalize};

verus! {

impl MarketState {
    /// Links an address to an identity: creates or updates the identity
    /// record, and moves the lowercase-normalized address key onto this
    /// identity, deleting any prior link for it, so that at most one
    /// identity holds an address at any time.
    pub fn link_wallet(&mut self, fid: i64, address: String, now_ms: i64)
        ensures
            no_user(old(self).users@, fid) ==> {
                &&& final(self).users@.len() == old(self).users@.len() + 1
                &&& (forall|j: int|
                    0 <= j < old(self).users@.len() ==> final(self).users@[j] == old(self).users@[j])
                &&& final(self).users@.last() == (User {
                    fid,
                    wallet: Some(address),
                    created_at_ms: now_ms,
                })
            },
            (exists|i: int| first_user(old(self).users@, fid, i)) ==> (exists|i: int|
                #[trigger] first_user(old(self).users@, fid, i)
                    && final(self).users@ =~= old(self).users@.update(
                    i,
                    (User { wallet: Some(address), ..old(self).users@[i] }),
                )),
            no_link(old(self).wallet_links@, lower_of(address@)) ==> {
                &&& final(self).wallet_links@.len() == old(self).wallet_links@.len() + 1
                &&& (forall|j: int|
                    0 <= j < old(self).wallet_links@.len() ==> final(self).wallet_links@[j]
                        == old(self).wallet_links@[j])
            },
            (exists|i: int| first_link(old(self).wallet_links@, lower_of(address@), i)) ==> (
            exists|i: int|
                #[trigger] first_link(old(self).wallet_links@, lower_of(address@), i)
                    && final(self).wallet_links@.len() == old(self).wallet_links@.len()
                    && final(self).wallet_links@.drop_last() =~= old(self).wallet_links@.remove(
                    i,
                )),
            ({
                let w = final(self).wallet_links@.last();
                &&& w.address@ == lower_of(address@)
                &&& w.fid == fid
                &&& w.linked_at_ms == now_ms
            }),
            *final(self) == (MarketState {
                users: final(self).users,
                wallet_links: final(self).wallet_links,
                ..*old(self)
            }),
    {
        match find_user_idx(&self.users, fid) {
            Some(i) => {
                let u = &self.users[i];
                let updated = User {
                    fid: u.fid,
                    wallet: Some(address.clone()),
                    created_at_ms: u.created_at_ms,
                };
                vec_update(&mut self.users, i, updated);
            },
            None => {
                self.users.push(
                    User { fid, wallet: Some(address.clone()), created_at_ms: now_ms },
                );
            },
        }
        let norm = normalize(address.as_str());
        match find_link_idx(&self.wallet_links, &norm) {
            Some(i) => {
                self.wallet_links.remove(i);
            },
            None => {},
        }
        let link = WalletLink { address: norm, fid, linked_at_ms: now_ms };
        self.wallet_links.push(link);
    }
}

} // verus!
