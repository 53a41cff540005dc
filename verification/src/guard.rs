//! The replay guard: a write-once marker per external transaction hash,
//! shared by every endpoint that honours externally funded actions.

use vstd::prelude::*;

use crate::errors::ApiError;
use crate::records::TransactionUsed;
use crate::state::{has_tx, tx_exists, MarketState};

verus! {

impl MarketState {
    /// Consumes an external transaction hash, exactly once.
    ///
    /// The first call for a hash records it; every later call aborts with
    /// `AlreadyUsed` and changes nothing.
    pub fn mark_tx_used(
        &mut self,
        tx_hash: String,
        fid: i64,
        endpoint: String,
        now_ms: i64,
    ) -> (r: Result<(), ApiError>)
        ensures
            r is Err ==> *final(self) == *old(self),
            r == Err::<(), ApiError>(ApiError::AlreadyUsed) <==> has_tx(
                old(self).tx_used@,
                tx_hash@,
            ),
            r is Ok <==> !has_tx(old(self).tx_used@, tx_hash@),
            r is Ok ==> final(self).tx_used@ =~= old(self).tx_used@.push(
                TransactionUsed { tx_hash, used_at_ms: now_ms, used_by_fid: fid, endpoint },
            ),
            r is Ok ==> *final(self) == (MarketState { tx_used: final(self).tx_used, ..*old(self) }),
            r is Ok ==> has_tx(final(self).tx_used@, tx_hash@),
    {
        if tx_exists(&self.tx_used, &tx_hash) {
            return Err(ApiError::AlreadyUsed);
        }
        let ghost hash_view = tx_hash@;
        let row = TransactionUsed { tx_hash, used_at_ms: now_ms, used_by_fid: fid, endpoint };
        self.tx_used.push(row);
        proof {
            let n = old(self).tx_used@.len() as int;
            assert(final(self).tx_used@[n].tx_hash@ == hash_view);
        }
        Ok(())
    }
}

/// The guard is write-once: once a hash is recorded, every later attempt to
/// record it observes the conflict, whatever else happened to the store in
/// between, as long as no record was removed.
pub proof fn lemma_tx_write_once(s: Seq<TransactionUsed>, t: Seq<TransactionUsed>, hash: Seq<char>)
    requires
        has_tx(s, hash),
        forall|j: int| 0 <= j < s.len() ==> t[j] == s[j],
        t.len() >= s.len(),
    ensures
        has_tx(t, hash),
{
    let j = choose|j: int| 0 <= j < s.len() && s[j].tx_hash@ == hash;
    assert(t[j].tx_hash@ == hash);
}

} // verus!
