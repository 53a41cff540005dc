//! The PvP match engine: challenge, accept, result submission. A match
//! moves along exactly one path: pending, then active, then finalized.

use vstd::prelude::*;

use crate::errors::ApiError;
use crate::events::{event_appended, event_id_of, inbox_grown};
use crate::records::{MatchStatus, PvpMatch};
use crate::state::{find_pvp_idx, first_pvp, no_pvp, vec_update, MarketState};
use crate::text::{dec_i64, dec_int, new_id, new_id_of};

verus! {

/// The maximum score a result payload may report for either side.
pub const MAX_SCORE: i64 = 20;

/// A pending challenge between the same unordered pair already exists.
pub open spec fn pending_between(s: Seq<PvpMatch>, a: i64, b: i64) -> bool {
    exists|j: int|
        0 <= j < s.len() && s[j].status == MatchStatus::Pending && ((s[j].challenger_fid == a
            && s[j].challenged_fid == b) || (s[j].challenger_fid == b && s[j].challenged_fid
            == a))
}

/// What the JSON scan of a result payload yields: whether the text parsed
/// at all, and the integer `home` and `away` fields if present.
pub uninterp spec fn score_fields_of(s: Seq<char>) -> (bool, Option<i64>, Option<i64>);

/// Relies on `serde_json::from_str::<serde_json::Value>`,
/// `serde_json::Value::get` and `serde_json::Value::as_i64`: what a fixed
/// text parses to is a function of that text alone.
#[verifier::external_body]
fn extract_scores(s: &str) -> (r: (bool, Option<i64>, Option<i64>))
    ensures
        r == score_fields_of(s@),
{
    match serde_json::from_str::<serde_json::Value>(s) {
        Ok(v) => (
            true,
            v.get("home").and_then(|x| x.as_i64()),
            v.get("away").and_then(|x| x.as_i64()),
        ),
        Err(_) => (false, None, None),
    }
}

/// The verdict on extracted score fields: the first violated rule, checked
/// as parse, presence of `home`, presence of `away`, sign, then range.
pub open spec fn spec_check_scores(parsed: bool, home: Option<i64>, away: Option<i64>) -> Result<
    (),
    ApiError,
> {
    if !parsed {
        Err(ApiError::InvalidJson)
    } else if home is None {
        Err(ApiError::MissingField)
    } else if away is None {
        Err(ApiError::MissingField)
    } else if home->0 < 0 || away->0 < 0 {
        Err(ApiError::NegativeScore)
    } else if home->0 > MAX_SCORE || away->0 > MAX_SCORE {
        Err(ApiError::ScoreOutOfRange)
    } else {
        Ok(())
    }
}

/// Checks extracted score fields against the schema rules.
pub fn check_scores(parsed: bool, home: Option<i64>, away: Option<i64>) -> (r: Result<
    (),
    ApiError,
>)
    ensures
        r == spec_check_scores(parsed, home, away),
{
    if !parsed {
        return Err(ApiError::InvalidJson);
    }
    let h = match home {
        None => {
            return Err(ApiError::MissingField);
        },
        Some(h) => h,
    };
    let a = match away {
        None => {
            return Err(ApiError::MissingField);
        },
        Some(a) => a,
    };
    if h < 0 || a < 0 {
        return Err(ApiError::NegativeScore);
    }
    if h > MAX_SCORE || a > MAX_SCORE {
        return Err(ApiError::ScoreOutOfRange);
    }
    Ok(())
}

/// The verdict on a raw result payload.
pub open spec fn spec_validate_result(s: Seq<char>) -> Result<(), ApiError> {
    spec_check_scores(
        score_fields_of(s).0,
        score_fields_of(s).1,
        score_fields_of(s).2,
    )
}

/// Validates a raw result payload: well-formed JSON carrying integer
/// `home` and `away` scores, each between zero and the maximum.
pub fn validate_pvp_result_json(json: &str) -> (r: Result<(), ApiError>)
    ensures
        r == spec_validate_result(json@),
{
    let (parsed, home, away) = extract_scores(json);
    check_scores(parsed, home, away)
}

/// Scans for a pending challenge between the same unordered pair.
pub fn have_pending_pvp_between(v: &Vec<PvpMatch>, a: i64, b: i64) -> (r: bool)
    ensures
        r == pending_between(v@, a, b),
{
    let mut i: usize = 0;
    while i < v.len()
        invariant
            i <= v.len(),
            forall|j: int|
                0 <= j < i ==> !(v@[j].status == MatchStatus::Pending && ((v@[j].challenger_fid
                    == a && v@[j].challenged_fid == b) || (v@[j].challenger_fid == b
                    && v@[j].challenged_fid == a))),
        decreases v.len() - i,
    {
        let m = &v[i];
        if m.status == MatchStatus::Pending && ((m.challenger_fid == a && m.challenged_fid == b)
            || (m.challenger_fid == b && m.challenged_fid == a)) {
            return true;
        }
        i += 1;
    }
    false
}

/// The context a match id is derived over.
pub open spec fn pvp_extra(challenger_fid: i64, challenged_fid: i64) -> Seq<char> {
    dec_int(challenger_fid as int) + ":"@ + dec_int(challenged_fid as int)
}

impl MarketState {
    /// Creates a pending challenge, suppressing duplicates between the
    /// same unordered pair, and notifies the challenged identity.
    pub fn pvp_create_challenge(
        &mut self,
        challenger_fid: i64,
        challenged_fid: i64,
        now_ms: i64,
    ) -> (r: Result<(), ApiError>)
        ensures
            r is Err ==> *final(self) == *old(self),
            r == Err::<(), ApiError>(ApiError::SelfChallenge) <==> challenger_fid
                == challenged_fid,
            r == Err::<(), ApiError>(ApiError::DuplicatePending) <==> (challenger_fid
                != challenged_fid && pending_between(
                old(self).pvp_matches@,
                challenger_fid,
                challenged_fid,
            )),
            r is Ok <==> (challenger_fid != challenged_fid && !pending_between(
                old(self).pvp_matches@,
                challenger_fid,
                challenged_fid,
            )),
            r is Ok ==> ({
                let mid = new_id_of(
                    "pvp"@,
                    now_ms as int,
                    pvp_extra(challenger_fid, challenged_fid),
                );
                let eid = event_id_of(
                    "pvp_match_created"@,
                    challenger_fid,
                    Some(mid),
                    now_ms as int,
                );
                &&& final(self).pvp_matches@.len() == old(self).pvp_matches@.len() + 1
                &&& (forall|j: int|
                    0 <= j < old(self).pvp_matches@.len() ==> final(self).pvp_matches@[j]
                        == old(self).pvp_matches@[j])
                &&& ({
                    let m = final(self).pvp_matches@.last();
                    &&& m.id@ == mid
                    &&& m.challenger_fid == challenger_fid
                    &&& m.challenged_fid == challenged_fid
                    &&& m.status == MatchStatus::Pending
                    &&& m.created_at_ms == now_ms
                    &&& m.accepted_at_ms is None
                    &&& m.result_json is None
                })
                &&& event_appended(
                    old(self).events@,
                    final(self).events@,
                    eid,
                    "pvp_match_created"@,
                    challenger_fid,
                    Some(mid),
                    "{}"@,
                    now_ms,
                )
                &&& inbox_grown(
                    old(self).inbox@,
                    final(self).inbox@,
                    challenged_fid,
                    "pvp-challenge-"@ + mid,
                    "pvp_challenge"@,
                    "New Challenge"@,
                    "FID "@ + dec_int(challenger_fid as int) + " challenged you."@,
                    now_ms,
                )
            }),
            r is Ok ==> *final(self) == (MarketState {
                pvp_matches: final(self).pvp_matches,
                events: final(self).events,
                inbox: final(self).inbox,
                ..*old(self)
            }),
    {
        if challenger_fid == challenged_fid {
            return Err(ApiError::SelfChallenge);
        }
        if have_pending_pvp_between(&self.pvp_matches, challenger_fid, challenged_fid) {
            return Err(ApiError::DuplicatePending);
        }
        let mut extra = dec_i64(challenger_fid);
        extra.append(":");
        let challenged_dec = dec_i64(challenged_fid);
        extra.append(challenged_dec.as_str());
        assert(extra@ =~= pvp_extra(challenger_fid, challenged_fid));
        let id = new_id("pvp", now_ms, extra.as_str());
        let m = PvpMatch {
            id: id.clone(),
            challenger_fid,
            challenged_fid,
            status: MatchStatus::Pending,
            created_at_ms: now_ms,
            accepted_at_ms: None,
            result_json: None,
        };
        self.pvp_matches.push(m);
        self.append_event(
            "pvp_match_created",
            challenger_fid,
            String::from_str("{}"),
            Some(id.clone()),
            now_ms,
        );
        let mut msg_id = String::from_str("pvp-challenge-");
        msg_id.append(id.as_str());
        let mut body = String::from_str("FID ");
        let challenger_dec = dec_i64(challenger_fid);
        body.append(challenger_dec.as_str());
        body.append(" challenged you.");
        self.push_inbox(
            challenged_fid,
            msg_id,
            "pvp_challenge",
            "New Challenge",
            body.as_str(),
            now_ms,
        );
        Ok(())
    }

    /// Accepts a pending challenge: only the challenged party may, and
    /// only while the match is pending.
    pub fn pvp_accept(
        &mut self,
        match_id: String,
        accepter_fid: i64,
        now_ms: i64,
    ) -> (r: Result<(), ApiError>)
        ensures
            r is Err ==> *final(self) == *old(self),
            r == Err::<(), ApiError>(ApiError::MatchNotFound) <==> no_pvp(
                old(self).pvp_matches@,
                match_id@,
            ),
            r == Err::<(), ApiError>(ApiError::InvalidState) <==> (exists|i: int|
                #[trigger] first_pvp(old(self).pvp_matches@, match_id@, i)
                    && old(self).pvp_matches@[i].status != MatchStatus::Pending),
            r == Err::<(), ApiError>(ApiError::NotChallenged) <==> (exists|i: int|
                #[trigger] first_pvp(old(self).pvp_matches@, match_id@, i)
                    && old(self).pvp_matches@[i].status == MatchStatus::Pending
                    && old(self).pvp_matches@[i].challenged_fid != accepter_fid),
            r is Ok <==> (exists|i: int|
                #[trigger] first_pvp(old(self).pvp_matches@, match_id@, i)
                    && old(self).pvp_matches@[i].status == MatchStatus::Pending
                    && old(self).pvp_matches@[i].challenged_fid == accepter_fid),
            r is Ok ==> (exists|i: int|
                #[trigger] first_pvp(old(self).pvp_matches@, match_id@, i)
                    && final(self).pvp_matches@ =~= old(self).pvp_matches@.update(
                    i,
                    (PvpMatch {
                        status: MatchStatus::Active,
                        accepted_at_ms: Some(now_ms),
                        ..old(self).pvp_matches@[i]
                    }),
                )),
            r is Ok ==> event_appended(
                old(self).events@,
                final(self).events@,
                event_id_of("pvp_match_accepted"@, accepter_fid, Some(match_id@), now_ms as int),
                "pvp_match_accepted"@,
                accepter_fid,
                Some(match_id@),
                "{}"@,
                now_ms,
            ),
            r is Ok ==> *final(self) == (MarketState {
                pvp_matches: final(self).pvp_matches,
                events: final(self).events,
                ..*old(self)
            }),
    {
        let i = match find_pvp_idx(&self.pvp_matches, &match_id) {
            None => {
                return Err(ApiError::MatchNotFound);
            },
            Some(i) => i,
        };
        if self.pvp_matches[i].status != MatchStatus::Pending {
            return Err(ApiError::InvalidState);
        }
        if self.pvp_matches[i].challenged_fid != accepter_fid {
            return Err(ApiError::NotChallenged);
        }
        let m = &self.pvp_matches[i];
        let updated = PvpMatch {
            id: m.id.clone(),
            challenger_fid: m.challenger_fid,
            challenged_fid: m.challenged_fid,
            status: MatchStatus::Active,
            created_at_ms: m.created_at_ms,
            accepted_at_ms: Some(now_ms),
            result_json: match &m.result_json {
                Some(s) => Some(s.clone()),
                None => None,
            },
        };
        vec_update(&mut self.pvp_matches, i, updated);
        self.append_event(
            "pvp_match_accepted",
            accepter_fid,
            String::from_str("{}"),
            Some(match_id),
            now_ms,
        );
        Ok(())
    }

    /// Submits a result for an active match: only a participant may, and
    /// only with a payload that passes the score schema.
    pub fn pvp_submit_result(
        &mut self,
        match_id: String,
        reporter_fid: i64,
        result_json: String,
        now_ms: i64,
    ) -> (r: Result<(), ApiError>)
        ensures
            r is Err ==> *final(self) == *old(self),
            r == Err::<(), ApiError>(ApiError::MatchNotFound) <==> no_pvp(
                old(self).pvp_matches@,
                match_id@,
            ),
            r == Err::<(), ApiError>(ApiError::InvalidState) <==> (exists|i: int|
                #[trigger] first_pvp(old(self).pvp_matches@, match_id@, i)
                    && old(self).pvp_matches@[i].status != MatchStatus::Active),
            r == Err::<(), ApiError>(ApiError::NotParticipant) <==> (exists|i: int|
                #[trigger] first_pvp(old(self).pvp_matches@, match_id@, i)
                    && old(self).pvp_matches@[i].status == MatchStatus::Active
                    && old(self).pvp_matches@[i].challenger_fid != reporter_fid
                    && old(self).pvp_matches@[i].challenged_fid != reporter_fid),
            (r is Err && (r != Err::<(), ApiError>(ApiError::MatchNotFound) && r != Err::<(
            ), ApiError>(ApiError::InvalidState) && r != Err::<(), ApiError>(
                ApiError::NotParticipant,
            ))) <==> (exists|i: int|
                #[trigger] first_pvp(old(self).pvp_matches@, match_id@, i)
                    && old(self).pvp_matches@[i].status == MatchStatus::Active
                    && (old(self).pvp_matches@[i].challenger_fid == reporter_fid
                    || old(self).pvp_matches@[i].challenged_fid == reporter_fid)
                    && spec_validate_result(result_json@) is Err),
            r is Err && spec_validate_result(result_json@) is Err ==> (r
                == Err::<(), ApiError>(ApiError::MatchNotFound) || r == Err::<(), ApiError>(
                ApiError::InvalidState,
            ) || r == Err::<(), ApiError>(ApiError::NotParticipant) || r == Result::<(
            ), ApiError>::Err(spec_validate_result(result_json@)->Err_0)),
            r is Ok <==> (exists|i: int|
                #[trigger] first_pvp(old(self).pvp_matches@, match_id@, i)
                    && old(self).pvp_matches@[i].status == MatchStatus::Active
                    && (old(self).pvp_matches@[i].challenger_fid == reporter_fid
                    || old(self).pvp_matches@[i].challenged_fid == reporter_fid)
                    && spec_validate_result(result_json@) is Ok),
            r is Ok ==> (exists|i: int|
                #[trigger] first_pvp(old(self).pvp_matches@, match_id@, i)
                    && final(self).pvp_matches@ =~= old(self).pvp_matches@.update(
                    i,
                    (PvpMatch {
                        status: MatchStatus::Finalized,
                        result_json: Some(result_json),
                        ..old(self).pvp_matches@[i]
                    }),
                )),
            r is Ok ==> event_appended(
                old(self).events@,
                final(self).events@,
                event_id_of("pvp_result_submitted"@, reporter_fid, Some(match_id@), now_ms as int),
                "pvp_result_submitted"@,
                reporter_fid,
                Some(match_id@),
                result_json@,
                now_ms,
            ),
            r is Ok ==> *final(self) == (MarketState {
                pvp_matches: final(self).pvp_matches,
                events: final(self).events,
                ..*old(self)
            }),
    {
        let i = match find_pvp_idx(&self.pvp_matches, &match_id) {
            None => {
                return Err(ApiError::MatchNotFound);
            },
            Some(i) => i,
        };
        if self.pvp_matches[i].status != MatchStatus::Active {
            return Err(ApiError::InvalidState);
        }
        if self.pvp_matches[i].challenger_fid != reporter_fid && self.pvp_matches[i].challenged_fid
            != reporter_fid {
            return Err(ApiError::NotParticipant);
        }
        match validate_pvp_result_json(result_json.as_str()) {
            Ok(()) => {},
            Err(e) => {
                return Err(e);
            },
        }
        let m = &self.pvp_matches[i];
        let updated = PvpMatch {
            id: m.id.clone(),
            challenger_fid: m.challenger_fid,
            challenged_fid: m.challenged_fid,
            status: MatchStatus::Finalized,
            created_at_ms: m.created_at_ms,
            accepted_at_ms: m.accepted_at_ms,
            result_json: Some(result_json.clone()),
        };
        vec_update(&mut self.pvp_matches, i, updated);
        self.append_event(
            "pvp_result_submitted",
            reporter_fid,
            result_json,
            Some(match_id),
            now_ms,
        );
        Ok(())
    }
}

} // verus!
