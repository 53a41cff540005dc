//! The append-only audit log and the per-identity inbox.
//!
//! Every mutating operation appends exactly one event whose id is derived
//! deterministically from kind, actor, timestamp and topic. Inbox keys are
//! derived from the triggering event, so re-processing the same trigger
//! collides instead of duplicating.

use vstd::prelude::*;

use crate::records::{Event, Inbox};
use crate::state::{first_msg, find_msg_idx, has_msg, vec_update, MarketState};
use crate::text::{dec_i64, dec_int, new_id, new_id_of};

verus! {

/// The view of an optional owned string.
pub open spec fn opt_string_view(x: Option<String>) -> Option<Seq<char>> {
    match x {
        Some(s) => Some(s@),
        None => None,
    }
}

/// The textual tag a topic contributes to an event id.
pub open spec fn topic_tag(topic: Option<Seq<char>>) -> Seq<char> {
    match topic {
        None => "None"@,
        Some(t) => "Some("@ + t + ")"@,
    }
}

/// The context an event id is derived over.
pub open spec fn event_extra(kind: Seq<char>, actor_fid: i64, topic: Option<Seq<char>>) -> Seq<
    char,
> {
    kind + ":"@ + dec_int(actor_fid as int) + ":"@ + topic_tag(topic)
}

/// The id of the event a mutation at `now_ms` appends.
pub open spec fn event_id_of(
    kind: Seq<char>,
    actor_fid: i64,
    topic: Option<Seq<char>>,
    now_ms: int,
) -> Seq<char> {
    new_id_of("evt"@, now_ms, event_extra(kind, actor_fid, topic))
}

/// One event was appended and nothing else in the log moved.
pub open spec fn event_appended(
    s0: Seq<Event>,
    s1: Seq<Event>,
    id: Seq<char>,
    kind: Seq<char>,
    actor_fid: i64,
    topic: Option<Seq<char>>,
    payload: Seq<char>,
    now_ms: i64,
) -> bool {
    &&& s1.len() == s0.len() + 1
    &&& (forall|j: int| 0 <= j < s0.len() ==> s1[j] == s0[j])
    &&& ({
        let e = s1.last();
        &&& e.id@ == id
        &&& e.ts_ms == now_ms
        &&& e.kind@ == kind
        &&& e.actor_fid == actor_fid
        &&& opt_string_view(e.topic_id) == topic
        &&& e.payload_json@ == payload
    })
}

/// One notification was delivered: appended when its key was fresh, and
/// dropped as a key conflict when it was not.
pub open spec fn inbox_grown(
    s0: Seq<Inbox>,
    s1: Seq<Inbox>,
    fid: i64,
    msg_id: Seq<char>,
    kind: Seq<char>,
    title: Seq<char>,
    body: Seq<char>,
    now_ms: i64,
) -> bool {
    if has_msg(s0, msg_id) {
        s1 == s0
    } else {
        &&& s1.len() == s0.len() + 1
        &&& (forall|j: int| 0 <= j < s0.len() ==> s1[j] == s0[j])
        &&& ({
            let m = s1.last();
            &&& m.msg_id@ == msg_id
            &&& m.fid == fid
            &&& m.kind@ == kind
            &&& m.title@ == title
            &&& m.body@ == body
            &&& m.created_at_ms == now_ms
            &&& m.read_at_ms is None
        })
    }
}

/// The message ids a mark-read payload text parses to: a function of the
/// text alone; malformed text parses to no ids.
pub uninterp spec fn msg_ids_of(s: Seq<char>) -> Seq<Seq<char>>;

/// Relies on `serde_json::from_str::<Vec<String>>`: what a fixed text
/// parses to is a function of that text alone; malformed text degrades to
/// an empty list.
#[verifier::external_body]
fn parse_msg_ids(s: &str) -> (r: Vec<String>)
    ensures
        r@.map_values(|t: String| t@) == msg_ids_of(s@),
{
    serde_json::from_str(s).unwrap_or_default()
}

/// One mark-read step: the first message under this id, when it belongs
/// to this identity, gets its read time stamped; anything else stands.
pub open spec fn mark_one(s: Seq<Inbox>, id: Seq<char>, fid: i64, now_ms: i64) -> Seq<Inbox> {
    if exists|i: int| first_msg(s, id, i) {
        let i = choose|i: int| first_msg(s, id, i);
        if s[i].fid == fid {
            s.update(i, (Inbox { read_at_ms: Some(now_ms), ..s[i] }))
        } else {
            s
        }
    } else {
        s
    }
}

/// The whole mark-read sweep, applied id by id in order.
pub open spec fn marked_read(s: Seq<Inbox>, ids: Seq<Seq<char>>, fid: i64, now_ms: i64) -> Seq<
    Inbox,
>
    decreases ids.len(),
{
    if ids.len() == 0 {
        s
    } else {
        mark_one(marked_read(s, ids.drop_last(), fid, now_ms), ids.last(), fid, now_ms)
    }
}

/// Two first-match positions for the same message id coincide.
pub proof fn lemma_first_msg_unique(s: Seq<Inbox>, id: Seq<char>, i: int, j: int)
    requires
        first_msg(s, id, i),
        first_msg(s, id, j),
    ensures
        i == j,
{
    if i < j {
        assert(s[i].msg_id@ != id);
    }
    if j < i {
        assert(s[j].msg_id@ != id);
    }
}

impl MarketState {
    /// Appends one audit event and returns its derived id.
    pub fn append_event(
        &mut self,
        kind: &str,
        actor_fid: i64,
        payload_json: String,
        topic_id: Option<String>,
        now_ms: i64,
    ) -> (r: String)
        ensures
            r@ == event_id_of(kind@, actor_fid, opt_string_view(topic_id), now_ms as int),
            event_appended(
                old(self).events@,
                final(self).events@,
                r@,
                kind@,
                actor_fid,
                opt_string_view(topic_id),
                payload_json@,
                now_ms,
            ),
            *final(self) == (MarketState { events: final(self).events, ..*old(self) }),
    {
        let mut extra = String::from_str(kind);
        extra.append(":");
        let actor = dec_i64(actor_fid);
        extra.append(actor.as_str());
        extra.append(":");
        match &topic_id {
            None => {
                extra.append("None");
            },
            Some(t) => {
                extra.append("Some(");
                extra.append(t.as_str());
                extra.append(")");
            },
        }
        assert(extra@ =~= event_extra(kind@, actor_fid, opt_string_view(topic_id)));
        let id = new_id("evt", now_ms, extra.as_str());
        let returned = id.clone();
        let e = Event {
            id,
            ts_ms: now_ms,
            kind: String::from_str(kind),
            actor_fid,
            topic_id,
            payload_json,
        };
        self.events.push(e);
        returned
    }

    /// Writes one inbox notification, unless its key already exists; a
    /// repeated trigger therefore cannot duplicate a row.
    pub fn push_inbox(
        &mut self,
        fid: i64,
        msg_id: String,
        kind: &str,
        title: &str,
        body: &str,
        now_ms: i64,
    )
        ensures
            inbox_grown(
                old(self).inbox@,
                final(self).inbox@,
                fid,
                msg_id@,
                kind@,
                title@,
                body@,
                now_ms,
            ),
            *final(self) == (MarketState { inbox: final(self).inbox, ..*old(self) }),
    {
        if find_msg_idx(&self.inbox, &msg_id).is_some() {
            return ;
        }
        let m = Inbox {
            msg_id,
            fid,
            kind: String::from_str(kind),
            title: String::from_str(title),
            body: String::from_str(body),
            created_at_ms: now_ms,
            read_at_ms: None,
        };
        self.inbox.push(m);
    }

    /// Marks the listed messages read for this identity, silently skipping
    /// ids that do not exist or belong to someone else.
    pub fn inbox_mark_read(&mut self, fid: i64, msg_ids_json: String, now_ms: i64)
        ensures
            final(self).inbox@ == marked_read(
                old(self).inbox@,
                msg_ids_of(msg_ids_json@),
                fid,
                now_ms,
            ),
            *final(self) == (MarketState { inbox: final(self).inbox, ..*old(self) }),
    {
        let ids = parse_msg_ids(msg_ids_json.as_str());
        let ghost idsv = msg_ids_of(msg_ids_json@);
        let mut k: usize = 0;
        while k < ids.len()
            invariant
                k <= ids.len(),
                ids@.map_values(|t: String| t@) == idsv,
                idsv.len() == ids@.len(),
                self.inbox@ == marked_read(old(self).inbox@, idsv.take(k as int), fid, now_ms),
                *self == (MarketState { inbox: self.inbox, ..*old(self) }),
            decreases ids.len() - k,
        {
            let ghost pre = self.inbox@;
            let id = &ids[k];
            proof {
                assert(idsv[k as int] == ids@[k as int]@);
            }
            match find_msg_idx(&self.inbox, id) {
                Some(i) => {
                    proof {
                        let c = choose|c: int| first_msg(pre, id@, c);
                        lemma_first_msg_unique(pre, id@, i as int, c);
                    }
                    if self.inbox[i].fid == fid {
                        let m = &self.inbox[i];
                        let updated = Inbox {
                            msg_id: m.msg_id.clone(),
                            fid: m.fid,
                            kind: m.kind.clone(),
                            title: m.title.clone(),
                            body: m.body.clone(),
                            created_at_ms: m.created_at_ms,
                            read_at_ms: Some(now_ms),
                        };
                        vec_update(&mut self.inbox, i, updated);
                    }
                },
                None => {},
            }
            proof {
                let cur = idsv.take(k + 1int);
                assert(cur.drop_last() =~= idsv.take(k as int));
                assert(cur.last() == idsv[k as int]);
                assert(mark_one(pre, idsv[k as int], fid, now_ms) == self.inbox@);
                assert(marked_read(old(self).inbox@, cur, fid, now_ms) == self.inbox@);
            }
            k += 1;
        }
        proof {
            assert(idsv.take(ids@.len() as int) =~= idsv);
        }
    }
}

} // verus!
