//! The keyed record store, modelled as one in-memory collection per record
//! type, and the lookup helpers every operation shares.
//!
//! Each public operation of this crate is a method on [`MarketState`] that
//! executes as one atomic unit: it either applies its whole effect or, on an
//! error, leaves the state exactly as it was.

use vstd::prelude::*;

use crate::records::{
    Auction, Bid, Event, Idempotency, Inbox, InventoryItem, Listing, PvpMatch, StarterClaim,
    TransactionUsed, User, WalletLink,
};

verus! {

/// The whole store: one keyed collection per record type.
pub struct MarketState {
    pub users: Vec<User>,
    pub wallet_links: Vec<WalletLink>,
    pub starter_claims: Vec<StarterClaim>,
    pub inventory: Vec<InventoryItem>,
    pub listings: Vec<Listing>,
    pub auctions: Vec<Auction>,
    pub bids: Vec<Bid>,
    pub events: Vec<Event>,
    pub inbox: Vec<Inbox>,
    pub pvp_matches: Vec<PvpMatch>,
    pub idempotency: Vec<Idempotency>,
    pub tx_used: Vec<TransactionUsed>,
}

impl MarketState {
    /// An empty store.
    pub fn new() -> (r: MarketState)
        ensures
            r.users@ =~= Seq::<User>::empty(),
            r.wallet_links@ =~= Seq::<WalletLink>::empty(),
            r.starter_claims@ =~= Seq::<StarterClaim>::empty(),
            r.inventory@ =~= Seq::<InventoryItem>::empty(),
            r.listings@ =~= Seq::<Listing>::empty(),
            r.auctions@ =~= Seq::<Auction>::empty(),
            r.bids@ =~= Seq::<Bid>::empty(),
            r.events@ =~= Seq::<Event>::empty(),
            r.inbox@ =~= Seq::<Inbox>::empty(),
            r.pvp_matches@ =~= Seq::<PvpMatch>::empty(),
            r.idempotency@ =~= Seq::<Idempotency>::empty(),
            r.tx_used@ =~= Seq::<TransactionUsed>::empty(),
    {
        MarketState {
            users: Vec::new(),
            wallet_links: Vec::new(),
            starter_claims: Vec::new(),
            inventory: Vec::new(),
            listings: Vec::new(),
            auctions: Vec::new(),
            bids: Vec::new(),
            events: Vec::new(),
            inbox: Vec::new(),
            pvp_matches: Vec::new(),
            idempotency: Vec::new(),
            tx_used: Vec::new(),
        }
    }
}

/// No user with this `fid` exists.
pub open spec fn no_user(s: Seq<User>, fid: i64) -> bool {
    forall|j: int| 0 <= j < s.len() ==> s[j].fid != fid
}

/// `i` is the first index whose user has this `fid`.
pub open spec fn first_user(s: Seq<User>, fid: i64, i: int) -> bool {
    &&& 0 <= i < s.len()
    &&& s[i].fid == fid
    &&& forall|j: int| 0 <= j < i ==> s[j].fid != fid
}

/// No wallet link with this address exists.
pub open spec fn no_link(s: Seq<WalletLink>, address: Seq<char>) -> bool {
    forall|j: int| 0 <= j < s.len() ==> s[j].address@ != address
}

/// `i` is the first index whose link has this address.
pub open spec fn first_link(s: Seq<WalletLink>, address: Seq<char>, i: int) -> bool {
    &&& 0 <= i < s.len()
    &&& s[i].address@ == address
    &&& forall|j: int| 0 <= j < i ==> s[j].address@ != address
}

/// A starter claim for this identity exists.
pub open spec fn has_claim(s: Seq<StarterClaim>, fid: i64) -> bool {
    exists|j: int| 0 <= j < s.len() && s[j].fid == fid
}

/// No inventory item with this id exists.
pub open spec fn no_item(s: Seq<InventoryItem>, id: Seq<char>) -> bool {
    forall|j: int| 0 <= j < s.len() ==> s[j].item_id@ != id
}

/// `i` is the first index whose item has this id.
pub open spec fn first_item(s: Seq<InventoryItem>, id: Seq<char>, i: int) -> bool {
    &&& 0 <= i < s.len()
    &&& s[i].item_id@ == id
    &&& forall|j: int| 0 <= j < i ==> s[j].item_id@ != id
}

/// No listing with this id exists.
pub open spec fn no_listing(s: Seq<Listing>, id: Seq<char>) -> bool {
    forall|j: int| 0 <= j < s.len() ==> s[j].id@ != id
}

/// `i` is the first index whose listing has this id.
pub open spec fn first_listing(s: Seq<Listing>, id: Seq<char>, i: int) -> bool {
    &&& 0 <= i < s.len()
    &&& s[i].id@ == id
    &&& forall|j: int| 0 <= j < i ==> s[j].id@ != id
}

/// No auction with this id exists.
pub open spec fn no_auction(s: Seq<Auction>, id: Seq<char>) -> bool {
    forall|j: int| 0 <= j < s.len() ==> s[j].id@ != id
}

/// `i` is the first index whose auction has this id.
pub open spec fn first_auction(s: Seq<Auction>, id: Seq<char>, i: int) -> bool {
    &&& 0 <= i < s.len()
    &&& s[i].id@ == id
    &&& forall|j: int| 0 <= j < i ==> s[j].id@ != id
}

/// An inbox message with this id exists.
pub open spec fn has_msg(s: Seq<Inbox>, msg_id: Seq<char>) -> bool {
    exists|j: int| 0 <= j < s.len() && s[j].msg_id@ == msg_id
}

/// `i` is the first index whose message has this id.
pub open spec fn first_msg(s: Seq<Inbox>, msg_id: Seq<char>, i: int) -> bool {
    &&& 0 <= i < s.len()
    &&& s[i].msg_id@ == msg_id
    &&& forall|j: int| 0 <= j < i ==> s[j].msg_id@ != msg_id
}

/// No match with this id exists.
pub open spec fn no_pvp(s: Seq<PvpMatch>, id: Seq<char>) -> bool {
    forall|j: int| 0 <= j < s.len() ==> s[j].id@ != id
}

/// `i` is the first index whose match has this id.
pub open spec fn first_pvp(s: Seq<PvpMatch>, id: Seq<char>, i: int) -> bool {
    &&& 0 <= i < s.len()
    &&& s[i].id@ == id
    &&& forall|j: int| 0 <= j < i ==> s[j].id@ != id
}

/// A used-transaction marker for this hash exists.
pub open spec fn has_tx(s: Seq<TransactionUsed>, hash: Seq<char>) -> bool {
    exists|j: int| 0 <= j < s.len() && s[j].tx_hash@ == hash
}

/// First index holding the user with this `fid`, if any.
pub fn find_user_idx(v: &Vec<User>, fid: i64) -> (r: Option<usize>)
    ensures
        match r {
            Some(i) => first_user(v@, fid, i as int),
            None => no_user(v@, fid),
        },
{
    let mut i: usize = 0;
    while i < v.len()
        invariant
            i <= v.len(),
            forall|j: int| 0 <= j < i ==> v@[j].fid != fid,
        decreases v.len() - i,
    {
        if v[i].fid == fid {
            return Some(i);
        }
        i += 1;
    }
    None
}

/// First index holding the wallet link with this address, if any.
pub fn find_link_idx(v: &Vec<WalletLink>, address: &String) -> (r: Option<usize>)
    ensures
        match r {
            Some(i) => first_link(v@, address@, i as int),
            None => no_link(v@, address@),
        },
{
    let mut i: usize = 0;
    while i < v.len()
        invariant
            i <= v.len(),
            forall|j: int| 0 <= j < i ==> v@[j].address@ != address@,
        decreases v.len() - i,
    {
        if v[i].address == *address {
            return Some(i);
        }
        i += 1;
    }
    None
}

/// Whether a starter claim for this identity exists.
pub fn claim_exists(v: &Vec<StarterClaim>, fid: i64) -> (r: bool)
    ensures
        r == has_claim(v@, fid),
{
    let mut i: usize = 0;
    while i < v.len()
        invariant
            i <= v.len(),
            forall|j: int| 0 <= j < i ==> v@[j].fid != fid,
        decreases v.len() - i,
    {
        if v[i].fid == fid {
            return true;
        }
        i += 1;
    }
    false
}

/// First index holding the item with this id, if any.
pub fn find_item_idx(v: &Vec<InventoryItem>, id: &String) -> (r: Option<usize>)
    ensures
        match r {
            Some(i) => first_item(v@, id@, i as int),
            None => no_item(v@, id@),
        },
{
    let mut i: usize = 0;
    while i < v.len()
        invariant
            i <= v.len(),
            forall|j: int| 0 <= j < i ==> v@[j].item_id@ != id@,
        decreases v.len() - i,
    {
        if v[i].item_id == *id {
            return Some(i);
        }
        i += 1;
    }
    None
}

/// First index holding the listing with this id, if any.
pub fn find_listing_idx(v: &Vec<Listing>, id: &String) -> (r: Option<usize>)
    ensures
        match r {
            Some(i) => first_listing(v@, id@, i as int),
            None => no_listing(v@, id@),
        },
{
    let mut i: usize = 0;
    while i < v.len()
        invariant
            i <= v.len(),
            forall|j: int| 0 <= j < i ==> v@[j].id@ != id@,
        decreases v.len() - i,
    {
        if v[i].id == *id {
            return Some(i);
        }
        i += 1;
    }
    None
}

/// First index holding the auction with this id, if any.
pub fn find_auction_idx(v: &Vec<Auction>, id: &String) -> (r: Option<usize>)
    ensures
        match r {
            Some(i) => first_auction(v@, id@, i as int),
            None => no_auction(v@, id@),
        },
{
    let mut i: usize = 0;
    while i < v.len()
        invariant
            i <= v.len(),
            forall|j: int| 0 <= j < i ==> v@[j].id@ != id@,
        decreases v.len() - i,
    {
        if v[i].id == *id {
            return Some(i);
        }
        i += 1;
    }
    None
}

/// First index holding the inbox message with this id, if any.
pub fn find_msg_idx(v: &Vec<Inbox>, msg_id: &String) -> (r: Option<usize>)
    ensures
        match r {
            Some(i) => first_msg(v@, msg_id@, i as int),
            None => !has_msg(v@, msg_id@),
        },
{
    let mut i: usize = 0;
    while i < v.len()
        invariant
            i <= v.len(),
            forall|j: int| 0 <= j < i ==> v@[j].msg_id@ != msg_id@,
        decreases v.len() - i,
    {
        if v[i].msg_id == *msg_id {
            return Some(i);
        }
        i += 1;
    }
    None
}

/// First index holding the match with this id, if any.
pub fn find_pvp_idx(v: &Vec<PvpMatch>, id: &String) -> (r: Option<usize>)
    ensures
        match r {
            Some(i) => first_pvp(v@, id@, i as int),
            None => no_pvp(v@, id@),
        },
{
    let mut i: usize = 0;
    while i < v.len()
        invariant
            i <= v.len(),
            forall|j: int| 0 <= j < i ==> v@[j].id@ != id@,
        decreases v.len() - i,
    {
        if v[i].id == *id {
            return Some(i);
        }
        i += 1;
    }
    None
}

/// Whether a used-transaction marker for this hash exists.
pub fn tx_exists(v: &Vec<TransactionUsed>, hash: &String) -> (r: bool)
    ensures
        r == has_tx(v@, hash@),
{
    let mut i: usize = 0;
    while i < v.len()
        invariant
            i <= v.len(),
            forall|j: int| 0 <= j < i ==> v@[j].tx_hash@ != hash@,
        decreases v.len() - i,
    {
        if v[i].tx_hash == *hash {
            return true;
        }
        i += 1;
    }
    false
}

/// Two first-match positions for the same item id coincide.
pub proof fn lemma_first_item_unique(s: Seq<InventoryItem>, id: Seq<char>, i: int, j: int)
    requires
        first_item(s, id, i),
        first_item(s, id, j),
    ensures
        i == j,
{
    if i < j {
        assert(s[i].item_id@ != id);
    }
    if j < i {
        assert(s[j].item_id@ != id);
    }
}

/// Replaces the element at `i`, leaving the rest of the vector unchanged.
pub fn vec_update<T>(v: &mut Vec<T>, i: usize, x: T)
    requires
        i < old(v).len(),
    ensures
        final(v)@ =~= old(v)@.update(i as int, x),
{
    v.remove(i);
    v.insert(i, x);
}

} // verus!
