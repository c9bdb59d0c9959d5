//! Location fixes waiting to reach the cloud. They are kept until the cloud
//! acknowledges them, sent at most once per connection, and dropped when a
//! day old or when more than the outbox holds have queued up behind them.
use vstd::prelude::*;
use crate::cloud::{nested, nested_member};
use crate::json::{
    as_text, display, json_display, json_member, json_parse, json_string, json_text, json_with_member, member,
    parse, string_value, with_member,
};
use crate::text::str_eq;

verus! {

/// Fixes older than this many seconds are dropped.
pub const MAX_LOCATION_OUTBOX_AGE_SECONDS: u64 = 86400;

/// The outbox holds at most this many fixes; the oldest go first.
pub const MAX_LOCATION_OUTBOX_FIXES: usize = 3000;

/// A periodic fix that waited at least this many seconds is sent as a
/// backfill.
pub const BACKFILL_AGE_SECONDS: u64 = 30;

/// One queued fix: its id, when it was queued, and its message as JSON text.
#[derive(Debug, Clone)]
pub struct OutboxEntry {
    pub fix_id: String,
    pub queued_at: u64,
    pub message: String,
}

/// The items of `s` that meet `p`, in order.
pub open spec fn kept<A>(s: Seq<A>, p: spec_fn(A) -> bool) -> Seq<A>
    decreases s.len(),
{
    if s.len() == 0 {
        s
    } else {
        let rest = kept(s.drop_last(), p);
        if p(s.last()) {
            rest.push(s.last())
        } else {
            rest
        }
    }
}

pub(crate) proof fn lemma_kept_push<A>(s: Seq<A>, x: A, p: spec_fn(A) -> bool)
    ensures
        kept(s.push(x), p) == (if p(x) {
            kept(s, p).push(x)
        } else {
            kept(s, p)
        }),
{
    assert(s.push(x).drop_last() =~= s);
}

pub(crate) proof fn lemma_kept_contains<A>(s: Seq<A>, p: spec_fn(A) -> bool, x: A)
    ensures
        kept(s, p).contains(x) <==> (s.contains(x) && p(x)),
    decreases s.len(),
{
    if s.len() > 0 {
        lemma_kept_contains(s.drop_last(), p, x);
        assert(s =~= s.drop_last().push(s.last()));
        if kept(s, p).contains(x) {
            if p(s.last()) && x == s.last() {
            } else {
                let i = choose|i: int| 0 <= i < kept(s, p).len() && kept(s, p)[i] == x;
                if p(s.last()) {
                    assert(kept(s.drop_last(), p)[i] == x || i == kept(s.drop_last(), p).len());
                }
                assert(kept(s.drop_last(), p).contains(x) || x == s.last());
                if x != s.last() {
                    let j = choose|j: int| 0 <= j < s.drop_last().len() && s.drop_last()[j] == x;
                    assert(s[j] == x);
                }
            }
        }
        if s.contains(x) && p(x) {
            let j = choose|j: int| 0 <= j < s.len() && s[j] == x;
            if j < s.len() - 1 {
                assert(s.drop_last()[j] == x);
                let k = choose|k: int| 0 <= k < kept(s.drop_last(), p).len() && kept(s.drop_last(), p)[k] == x;
                if p(s.last()) {
                    assert(kept(s, p)[k] == x);
                }
            } else {
                assert(kept(s, p)[kept(s, p).len() - 1] == x);
            }
        }
    }
}

proof fn lemma_kept_all<A>(s: Seq<A>, p: spec_fn(A) -> bool)
    ensures
        kept(s, p).len() <= s.len(),
        kept(s, p).len() == s.len() <==> (forall|i: int| 0 <= i < s.len() ==> p(#[trigger] s[i])),
    decreases s.len(),
{
    if s.len() > 0 {
        lemma_kept_all(s.drop_last(), p);
        if forall|i: int| 0 <= i < s.len() ==> p(#[trigger] s[i]) {
            assert forall|i: int| 0 <= i < s.drop_last().len() implies p(#[trigger] s.drop_last()[i]) by {
                assert(s.drop_last()[i] == s[i]);
            }
        }
        if kept(s, p).len() == s.len() {
            assert forall|i: int| 0 <= i < s.len() implies p(#[trigger] s[i]) by {
                if i < s.len() - 1 {
                    assert(s.drop_last()[i] == s[i]);
                }
            }
        }
    }
}

/// Whether every id in `a` is in `b`.
pub open spec fn within(a: Seq<Seq<char>>, b: Seq<Seq<char>>) -> bool {
    forall|id: Seq<char>| #[trigger] a.contains(id) ==> b.contains(id)
}

proof fn lemma_kept_within(s: Seq<Seq<char>>, p: spec_fn(Seq<char>) -> bool)
    ensures
        within(kept(s, p), s),
{
    assert forall|id: Seq<char>| #[trigger] kept(s, p).contains(id) implies s.contains(id) by {
        lemma_kept_contains(s, p, id);
    }
}

proof fn lemma_within_transitive(a: Seq<Seq<char>>, b: Seq<Seq<char>>, c: Seq<Seq<char>>)
    requires
        within(a, b),
        within(b, c),
    ensures
        within(a, c),
{
    assert forall|id: Seq<char>| #[trigger] a.contains(id) implies c.contains(id) by {
        assert(b.contains(id));
    }
}

/// Whether a fix with id `id` is in `s`.
pub open spec fn has_id(s: Seq<OutboxEntry>, id: Seq<char>) -> bool {
    exists|i: int| 0 <= i < s.len() && #[trigger] s[i].fix_id@ == id
}

/// A fix is fresh at `now` while it is at most a day old.
pub open spec fn is_fresh(e: OutboxEntry, now: u64) -> bool {
    now - e.queued_at <= MAX_LOCATION_OUTBOX_AGE_SECONDS
}

pub open spec fn fresh_at(now: u64) -> spec_fn(OutboxEntry) -> bool {
    |e: OutboxEntry| is_fresh(e, now)
}

pub open spec fn other_fix(id: Seq<char>) -> spec_fn(OutboxEntry) -> bool {
    |e: OutboxEntry| e.fix_id@ != id
}

pub open spec fn still_queued(entries: Seq<OutboxEntry>) -> spec_fn(Seq<char>) -> bool {
    |id: Seq<char>| has_id(entries, id)
}

pub open spec fn other_id(id: Seq<char>) -> spec_fn(Seq<char>) -> bool {
    |x: Seq<char>| x != id
}

/// The last `n` items of `s` (all of them when there are fewer).
pub open spec fn newest(s: Seq<OutboxEntry>, n: nat) -> Seq<OutboxEntry> {
    if s.len() > n {
        s.subrange(s.len() - n, s.len() as int)
    } else {
        s
    }
}

pub open spec fn ids(v: Seq<String>) -> Seq<Seq<char>> {
    v.map_values(|s: String| s@)
}

/// The `reason` string inside a message's `payload` object: absent when the
/// text is not JSON, or there is no such string.
pub open spec fn payload_reason(message: Seq<char>) -> Option<Seq<char>> {
    match json_parse(message) {
        Ok(v) => match nested_member(v, "payload"@, "reason"@) {
            Some(r) => json_text(r),
            None => None,
        },
        Err(_) => None,
    }
}

/// A message with the `reason` of its `payload` object set to `reason`,
/// written back as JSON text: absent when the text is not JSON or has no
/// `payload` object.
pub open spec fn with_payload_reason(message: Seq<char>, reason: Seq<char>) -> Option<Seq<char>> {
    match json_parse(message) {
        Ok(v) => match json_member(v, "payload"@) {
            Some(p) => match json_with_member(p, "reason"@, json_string(reason)) {
                Some(p2) => match json_with_member(v, "payload"@, p2) {
                    Some(v2) => Some(json_display(v2)),
                    None => None,
                },
                None => None,
            },
            None => None,
        },
        Err(_) => None,
    }
}

/// Reads the string at `payload.reason` of a message.
fn read_payload_reason(message: &str) -> (r: Option<String>)
    ensures
        match r {
            Some(t) => payload_reason(message@) == Some(t@),
            None => payload_reason(message@) is None,
        },
{
    match parse(message) {
        Ok(v) => match nested(&v, "payload", "reason") {
            Some(r) => as_text(&r),
            None => None,
        },
        Err(_) => None,
    }
}

/// Sets the `reason` of a message's `payload` object and writes the message
/// back as JSON text.
fn rewrite_payload_reason(message: &str, reason: &str) -> (r: Option<String>)
    ensures
        match r {
            Some(t) => with_payload_reason(message@, reason@) == Some(t@),
            None => with_payload_reason(message@, reason@) is None,
        },
{
    let v = match parse(message) {
        Ok(v) => v,
        Err(_) => return None,
    };
    let p = match member(&v, "payload") {
        Some(p) => p,
        None => return None,
    };
    let p2 = match with_member(&p, "reason", string_value(reason)) {
        Some(p2) => p2,
        None => return None,
    };
    match with_member(&v, "payload", p2) {
        Some(v2) => Some(display(&v2)),
        None => None,
    }
}

/// The text a queued fix goes out as, given how long it waited, the reason
/// read from it and its text rewritten as a backfill: a periodic fix that
/// waited at least thirty seconds goes as the backfill, when the rewrite
/// succeeded; any other goes as queued.
pub open spec fn outgoing_text(
    message: Seq<char>,
    waited: int,
    reason: Option<Seq<char>>,
    backfill: Option<Seq<char>>,
) -> Seq<char> {
    if waited >= BACKFILL_AGE_SECONDS && reason == Some("periodic"@) {
        match backfill {
            Some(t) => t,
            None => message,
        }
    } else {
        message
    }
}

/// The text a queued fix goes out as at `now`.
pub open spec fn outgoing_at(e: OutboxEntry, now: u64) -> Seq<char> {
    outgoing_text(
        e.message@,
        now - e.queued_at,
        payload_reason(e.message@),
        with_payload_reason(e.message@, "backfill"@),
    )
}

/// Chooses the text a queued fix goes out as, from the reason read from it
/// and its rewritten text.
pub fn outgoing_message(message: &str, waited: u64, reason: Option<String>, backfill: Option<String>) -> (r: String)
    ensures
        r@ == outgoing_text(
            message@,
            waited as int,
            match reason {
                Some(t) => Some(t@),
                None => None,
            },
            match backfill {
                Some(t) => Some(t@),
                None => None,
            },
        ),
{
    let periodic = match &reason {
        Some(t) => str_eq(t.as_str(), "periodic"),
        None => false,
    };
    if waited >= BACKFILL_AGE_SECONDS && periodic {
        match backfill {
            Some(t) => t,
            None => message.to_string(),
        }
    } else {
        message.to_string()
    }
}

fn outgoing_for(entry: &OutboxEntry, now: u64) -> (r: String)
    ensures
        r@ == outgoing_at(*entry, now),
{
    let waited: u64 = if now >= entry.queued_at {
        now - entry.queued_at
    } else {
        0
    };
    if waited >= BACKFILL_AGE_SECONDS {
        let reason = read_payload_reason(entry.message.as_str());
        let backfill = rewrite_payload_reason(entry.message.as_str(), "backfill");
        outgoing_message(entry.message.as_str(), waited, reason, backfill)
    } else {
        entry.message.clone()
    }
}

/// What is sent for the fixes not yet sent this connection: each one's id
/// and outgoing text, in queue order.
pub open spec fn pending_view(entries: Seq<OutboxEntry>, sent: Seq<Seq<char>>, now: u64) -> Seq<(Seq<char>, Seq<char>)>
    decreases entries.len(),
{
    if entries.len() == 0 {
        Seq::empty()
    } else {
        let rest = pending_view(entries.drop_last(), sent, now);
        let e = entries.last();
        if sent.contains(e.fix_id@) {
            rest
        } else {
            rest.push((e.fix_id@, outgoing_at(e, now)))
        }
    }
}

/// An acknowledged fix leaves the queue: no fix with its id is left, and the
/// others stay, in their order.
pub proof fn acknowledged_fix_leaves_the_queue(queue: Seq<OutboxEntry>, fix_id: Seq<char>)
    ensures
        !has_id(kept(queue, other_fix(fix_id)), fix_id),
        forall|e: OutboxEntry| e.fix_id@ != fix_id ==> (#[trigger] kept(queue, other_fix(fix_id)).contains(e) <==> queue.contains(e)),
{
    assert forall|e: OutboxEntry| e.fix_id@ != fix_id implies (#[trigger] kept(queue, other_fix(fix_id)).contains(e)
        <==> queue.contains(e)) by {
        lemma_kept_contains(queue, other_fix(fix_id), e);
    }
    if has_id(kept(queue, other_fix(fix_id)), fix_id) {
        let k = kept(queue, other_fix(fix_id));
        let i = choose|i: int| 0 <= i < k.len() && #[trigger] k[i].fix_id@ == fix_id;
        assert(k.contains(k[i]));
        lemma_kept_contains(queue, other_fix(fix_id), k[i]);
    }
}

/// A fix just queued at `now` is still queued when the same id comes again
/// at `now`, so it is not queued twice.
pub proof fn queued_fix_is_not_queued_twice(queue: Seq<OutboxEntry>, entry: OutboxEntry, now: u64)
    requires
        entry.queued_at == now,
    ensures
        has_id(kept(newest(queue.push(entry), MAX_LOCATION_OUTBOX_FIXES as nat), fresh_at(now)), entry.fix_id@),
{
    let q = newest(queue.push(entry), MAX_LOCATION_OUTBOX_FIXES as nat);
    assert(q[q.len() - 1] == entry);
    assert(q.contains(entry));
    lemma_kept_contains(q, fresh_at(now), entry);
    let k = kept(q, fresh_at(now));
    let i = choose|i: int| 0 <= i < k.len() && k[i] == entry;
    assert(k[i].fix_id@ == entry.fix_id@);
}

/// A fix sent on this connection is not sent again on it.
pub proof fn sent_fix_is_not_pending(queue: Seq<OutboxEntry>, sent: Seq<Seq<char>>, now: u64, fix_id: Seq<char>)
    requires
        sent.contains(fix_id),
    ensures
        forall|k: int| 0 <= k < pending_view(queue, sent, now).len() ==> (#[trigger] pending_view(queue, sent, now)[k]).0 != fix_id,
    decreases queue.len(),
{
    if queue.len() > 0 {
        sent_fix_is_not_pending(queue.drop_last(), sent, now, fix_id);
        let rest = pending_view(queue.drop_last(), sent, now);
        assert forall|k: int| 0 <= k < pending_view(queue, sent, now).len() implies (
        #[trigger] pending_view(queue, sent, now)[k]).0 != fix_id by {
            if k < rest.len() {
                assert(pending_view(queue, sent, now)[k] == rest[k]);
            }
        }
    }
}

/// On a new connection every queued fix is sent, in queue order.
pub proof fn new_connection_sends_every_fix(queue: Seq<OutboxEntry>, now: u64)
    ensures
        pending_view(queue, Seq::empty(), now).len() == queue.len(),
        forall|k: int| 0 <= k < queue.len() ==> (#[trigger] pending_view(queue, Seq::empty(), now)[k]) == (
            queue[k].fix_id@,
            outgoing_at(queue[k], now),
        ),
    decreases queue.len(),
{
    if queue.len() > 0 {
        new_connection_sends_every_fix(queue.drop_last(), now);
        let rest = pending_view(queue.drop_last(), Seq::empty(), now);
        assert forall|k: int| 0 <= k < queue.len() implies (#[trigger] pending_view(queue, Seq::empty(), now)[k]) == (
            queue[k].fix_id@,
            outgoing_at(queue[k], now),
        ) by {
            if k < queue.len() - 1 {
                assert(rest[k] == (queue.drop_last()[k].fix_id@, outgoing_at(queue.drop_last()[k], now)));
            }
        }
    }
}

/// The queued fixes, and the ids of those sent during this connection.
pub struct LocationOutbox {
    entries: Vec<OutboxEntry>,
    sent_in_session: Vec<String>,
}

impl LocationOutbox {
    /// The queued fixes, oldest first.
    pub closed spec fn queue(&self) -> Seq<OutboxEntry> {
        self.entries@
    }

    /// The ids sent during this connection.
    pub closed spec fn sent(&self) -> Seq<Seq<char>> {
        ids(self.sent_in_session@)
    }

    /// An empty outbox.
    pub fn empty() -> (r: Self)
        ensures
            r.queue().len() == 0,
            r.sent().len() == 0,
    {
        LocationOutbox { entries: Vec::new(), sent_in_session: Vec::new() }
    }

    /// The outbox of fixes kept from before a restart, without those that
    /// are stale at `now`. Returns it and whether any were dropped.
    pub fn open(entries: Vec<OutboxEntry>, now: u64) -> (r: (Self, bool))
        ensures
            r.0.queue() == kept(entries@, fresh_at(now)),
            r.0.sent().len() == 0,
            r.1 == !(forall|i: int| 0 <= i < entries@.len() ==> is_fresh(#[trigger] entries@[i], now)),
    {
        let mut outbox = LocationOutbox { entries, sent_in_session: Vec::new() };
        let changed = outbox.prune(now);
        proof {
            lemma_kept_all(entries@, fresh_at(now));
            assert(ids(Seq::<String>::empty()) =~= Seq::<Seq<char>>::empty());
            assert(kept(Seq::<Seq<char>>::empty(), still_queued(outbox.queue())).len() == 0);
        }
        (outbox, changed)
    }

    /// The queued fixes, oldest first.
    pub fn entries(&self) -> (r: &Vec<OutboxEntry>)
        ensures
            r@ == self.queue(),
    {
        &self.entries
    }

    pub fn len(&self) -> (r: usize)
        ensures
            r == self.queue().len(),
    {
        self.entries.len()
    }

    pub fn is_empty(&self) -> (r: bool)
        ensures
            r == (self.queue().len() == 0),
    {
        self.entries.len() == 0
    }

    fn position_of(&self, fix_id: &str) -> (r: Option<usize>)
        ensures
            match r {
                Some(i) => i < self.queue().len() && self.queue()[i as int].fix_id@ == fix_id@,
                None => !has_id(self.queue(), fix_id@),
            },
    {
        let mut i: usize = 0;
        while i < self.entries.len()
            invariant
                i <= self.entries@.len(),
                forall|k: int| 0 <= k < i ==> #[trigger] self.entries@[k].fix_id@ != fix_id@,
            decreases self.entries.len() - i,
        {
            if str_eq(self.entries[i].fix_id.as_str(), fix_id) {
                return Some(i);
            }
            i = i + 1;
        }
        None
    }

    fn is_sent(&self, fix_id: &str) -> (r: bool)
        ensures
            r == self.sent().contains(fix_id@),
    {
        let mut i: usize = 0;
        while i < self.sent_in_session.len()
            invariant
                i <= self.sent_in_session@.len(),
                forall|k: int| 0 <= k < i ==> #[trigger] self.sent_in_session@[k]@ != fix_id@,
            decreases self.sent_in_session.len() - i,
        {
            if str_eq(self.sent_in_session[i].as_str(), fix_id) {
                assert(self.sent()[i as int] == fix_id@);
                return true;
            }
            i = i + 1;
        }
        assert(!self.sent().contains(fix_id@)) by {
            if self.sent().contains(fix_id@) {
                let k = choose|k: int| 0 <= k < self.sent().len() && self.sent()[k] == fix_id@;
                assert(self.sent_in_session@[k]@ == fix_id@);
            }
        }
        false
    }

    /// Keeps the sent ids whose fixes are still queued.
    fn forget_unqueued(&mut self)
        ensures
            final(self).queue() == old(self).queue(),
            final(self).sent() == kept(old(self).sent(), still_queued(old(self).queue())),
    {
        let mut old_sent: Vec<String> = Vec::new();
        std::mem::swap(&mut old_sent, &mut self.sent_in_session);
        let ghost olds = ids(old_sent@);
        let mut i: usize = 0;
        while i < old_sent.len()
            invariant
                i <= old_sent@.len(),
                olds == ids(old_sent@),
                self.entries@ == old(self).entries@,
                self.sent() == kept(olds.subrange(0, i as int), still_queued(self.entries@)),
            decreases old_sent.len() - i,
        {
            let id = &old_sent[i];
            proof {
                assert(olds.subrange(0, i + 1) =~= olds.subrange(0, i as int).push(olds[i as int]));
                lemma_kept_push(olds.subrange(0, i as int), olds[i as int], still_queued(self.entries@));
            }
            if self.position_of(id.as_str()).is_some() {
                let ghost before = self.sent_in_session@;
                self.sent_in_session.push(id.clone());
                assert(ids(self.sent_in_session@) =~= ids(before).push(id@));
            }
            i = i + 1;
        }
        assert(olds.subrange(0, olds.len() as int) =~= olds);
    }

    /// Drops the fixes that are stale at `now`, and forgets that dropped
    /// fixes were sent. Returns whether any fix was dropped.
    pub fn prune(&mut self, now: u64) -> (r: bool)
        ensures
            final(self).queue() == kept(old(self).queue(), fresh_at(now)),
            final(self).sent() == kept(old(self).sent(), still_queued(final(self).queue())),
            r == !(forall|i: int| 0 <= i < old(self).queue().len() ==> is_fresh(#[trigger] old(self).queue()[i], now)),
    {
        let mut rest: Vec<OutboxEntry> = Vec::new();
        std::mem::swap(&mut rest, &mut self.entries);
        let ghost olde = rest@;
        let ghost mut i: int = 0;
        let mut dropped = false;
        while rest.len() > 0
            invariant
                0 <= i <= olde.len(),
                olde == old(self).entries@,
                rest@ == olde.subrange(i, olde.len() as int),
                self.sent_in_session@ == old(self).sent_in_session@,
                self.entries@ == kept(olde.subrange(0, i), fresh_at(now)),
                dropped == !(forall|k: int| 0 <= k < i ==> is_fresh(#[trigger] olde[k], now)),
            decreases rest.len(),
        {
            let e = rest.remove(0);
            proof {
                assert(e == olde[i]);
                assert(olde.subrange(0, i + 1) =~= olde.subrange(0, i).push(olde[i]));
                lemma_kept_push(olde.subrange(0, i), olde[i], fresh_at(now));
            }
            if now <= e.queued_at || now - e.queued_at <= MAX_LOCATION_OUTBOX_AGE_SECONDS {
                self.entries.push(e);
            } else {
                dropped = true;
            }
            proof {
                i = i + 1;
                assert(rest@ =~= olde.subrange(i, olde.len() as int));
            }
        }
        assert(i == olde.len());
        assert(olde.subrange(0, olde.len() as int) =~= olde);
        self.forget_unqueued();
        dropped
    }

    /// Starts a new connection: nothing has been sent on it yet.
    pub fn begin_connection(&mut self)
        ensures
            final(self).queue() == old(self).queue(),
            final(self).sent().len() == 0,
    {
        self.sent_in_session = Vec::new();
        assert(ids(self.sent_in_session@) =~= Seq::<Seq<char>>::empty());
    }

    /// Records that the fix `fix_id` was sent on this connection.
    pub fn mark_sent(&mut self, fix_id: &str)
        ensures
            final(self).queue() == old(self).queue(),
            final(self).sent() == (if old(self).sent().contains(fix_id@) {
                old(self).sent()
            } else {
                old(self).sent().push(fix_id@)
            }),
    {
        if !self.is_sent(fix_id) {
            let ghost before = self.sent_in_session@;
            self.sent_in_session.push(fix_id.to_string());
            assert(ids(self.sent_in_session@) =~= ids(before).push(fix_id@));
        }
    }

    /// Removes the fix `fix_id` once the cloud has acknowledged it. Returns
    /// whether it was queued.
    pub fn acknowledge(&mut self, fix_id: &str) -> (r: bool)
        ensures
            final(self).queue() == kept(old(self).queue(), other_fix(fix_id@)),
            final(self).sent() == kept(old(self).sent(), other_id(fix_id@)),
            r == has_id(old(self).queue(), fix_id@),
    {
        let before_len = self.entries.len();
        let mut rest: Vec<OutboxEntry> = Vec::new();
        std::mem::swap(&mut rest, &mut self.entries);
        let ghost olde = rest@;
        let ghost mut i: int = 0;
        while rest.len() > 0
            invariant
                0 <= i <= olde.len(),
                olde == old(self).entries@,
                rest@ == olde.subrange(i, olde.len() as int),
                self.sent_in_session@ == old(self).sent_in_session@,
                self.entries@ == kept(olde.subrange(0, i), other_fix(fix_id@)),
            decreases rest.len(),
        {
            let e = rest.remove(0);
            proof {
                assert(e == olde[i]);
                assert(olde.subrange(0, i + 1) =~= olde.subrange(0, i).push(olde[i]));
                lemma_kept_push(olde.subrange(0, i), olde[i], other_fix(fix_id@));
            }
            if !str_eq(e.fix_id.as_str(), fix_id) {
                self.entries.push(e);
            }
            proof {
                i = i + 1;
                assert(rest@ =~= olde.subrange(i, olde.len() as int));
            }
        }
        assert(olde.subrange(0, olde.len() as int) =~= olde);
        let mut old_sent: Vec<String> = Vec::new();
        std::mem::swap(&mut old_sent, &mut self.sent_in_session);
        let ghost olds = ids(old_sent@);
        let mut k: usize = 0;
        while k < old_sent.len()
            invariant
                k <= old_sent@.len(),
                olds == ids(old_sent@),
                olds == old(self).sent(),
                self.entries@ == kept(olde, other_fix(fix_id@)),
                self.sent() == kept(olds.subrange(0, k as int), other_id(fix_id@)),
            decreases old_sent.len() - k,
        {
            let id = &old_sent[k];
            proof {
                assert(olds.subrange(0, k + 1) =~= olds.subrange(0, k as int).push(olds[k as int]));
                lemma_kept_push(olds.subrange(0, k as int), olds[k as int], other_id(fix_id@));
            }
            if !str_eq(id.as_str(), fix_id) {
                let ghost before = self.sent_in_session@;
                self.sent_in_session.push(id.clone());
                assert(ids(self.sent_in_session@) =~= ids(before).push(id@));
            }
            k = k + 1;
        }
        assert(olds.subrange(0, olds.len() as int) =~= olds);
        proof {
            lemma_kept_all(olde, other_fix(fix_id@));
            if has_id(olde, fix_id@) {
                let j = choose|j: int| 0 <= j < olde.len() && #[trigger] olde[j].fix_id@ == fix_id@;
                assert(!other_fix(fix_id@)(olde[j]));
            } else {
                assert forall|j: int| 0 <= j < olde.len() implies other_fix(fix_id@)(#[trigger] olde[j]) by {
                    assert(olde[j].fix_id@ != fix_id@);
                }
            }
        }
        self.entries.len() != before_len
    }

    /// Queues a fix at `now`, after dropping the stale ones. A fix already
    /// queued is not queued again; when the queue grows past its limit the
    /// oldest fixes go, and are forgotten as sent. Returns whether the fix
    /// was queued.
    pub fn enqueue(&mut self, fix_id: String, message: String, now: u64) -> (r: bool)
        ensures
            ({
                let pruned = kept(old(self).queue(), fresh_at(now));
                let pruned_sent = kept(old(self).sent(), still_queued(pruned));
                &&& r == !has_id(pruned, fix_id@)
                &&& !r ==> final(self).queue() == pruned && final(self).sent() == pruned_sent
                &&& r ==> final(self).queue() == newest(
                    pruned.push(OutboxEntry { fix_id, queued_at: now, message }),
                    MAX_LOCATION_OUTBOX_FIXES as nat,
                )
                &&& r && pruned.len() < MAX_LOCATION_OUTBOX_FIXES ==> final(self).sent() == pruned_sent
                &&& r ==> final(self).queue().len() <= MAX_LOCATION_OUTBOX_FIXES
                &&& within(final(self).sent(), pruned_sent)
            }),
    {
        self.prune(now);
        let ghost pruned = self.entries@;
        let ghost pruned_sent = self.sent();
        assert(within(pruned_sent, pruned_sent));
        if self.position_of(fix_id.as_str()).is_some() {
            return false;
        }
        let ghost entry = OutboxEntry { fix_id, queued_at: now, message };
        self.entries.push(OutboxEntry { fix_id, queued_at: now, message });
        let ghost full = self.entries@;
        assert(full == pruned.push(entry));
        let ghost mut dropped: int = 0;
        while self.entries.len() > MAX_LOCATION_OUTBOX_FIXES
            invariant
                0 <= dropped <= full.len(),
                self.entries@ == full.subrange(dropped, full.len() as int),
                dropped > 0 ==> full.len() - dropped >= MAX_LOCATION_OUTBOX_FIXES,
                within(self.sent(), pruned_sent),
                dropped == 0 ==> self.sent() == pruned_sent,
            decreases self.entries.len(),
        {
            let removed = self.entries.remove(0);
            let ghost before_sent = self.sent();
            self.forget_sent(removed.fix_id.as_str());
            proof {
                lemma_kept_within(before_sent, other_id(removed.fix_id@));
                lemma_within_transitive(self.sent(), before_sent, pruned_sent);
                dropped = dropped + 1;
                assert(self.entries@ =~= full.subrange(dropped, full.len() as int));
            }
        }
        proof {
            if dropped == 0 {
                assert(full.subrange(0, full.len() as int) =~= full);
            }
        }
        true
    }

    /// Forgets that the fix `fix_id` was sent.
    fn forget_sent(&mut self, fix_id: &str)
        ensures
            final(self).queue() == old(self).queue(),
            final(self).sent() == kept(old(self).sent(), other_id(fix_id@)),
    {
        let mut old_sent: Vec<String> = Vec::new();
        std::mem::swap(&mut old_sent, &mut self.sent_in_session);
        let ghost olds = ids(old_sent@);
        let mut k: usize = 0;
        while k < old_sent.len()
            invariant
                k <= old_sent@.len(),
                olds == ids(old_sent@),
                olds == old(self).sent(),
                self.entries@ == old(self).entries@,
                self.sent() == kept(olds.subrange(0, k as int), other_id(fix_id@)),
            decreases old_sent.len() - k,
        {
            let id = &old_sent[k];
            proof {
                assert(olds.subrange(0, k + 1) =~= olds.subrange(0, k as int).push(olds[k as int]));
                lemma_kept_push(olds.subrange(0, k as int), olds[k as int], other_id(fix_id@));
            }
            if !str_eq(id.as_str(), fix_id) {
                let ghost before = self.sent_in_session@;
                self.sent_in_session.push(id.clone());
                assert(ids(self.sent_in_session@) =~= ids(before).push(id@));
            }
            k = k + 1;
        }
        assert(olds.subrange(0, olds.len() as int) =~= olds);
    }

    /// The fixes not yet sent on this connection, each with the text it goes
    /// out as at `now`, oldest first. (Stale fixes are dropped first with
    /// `prune`.)
    pub fn pending_messages(&self, now: u64) -> (r: Vec<(String, String)>)
        ensures
            r@.map_values(|m: (String, String)| (m.0@, m.1@)) == pending_view(self.queue(), self.sent(), now),
    {
        let mut out: Vec<(String, String)> = Vec::new();
        let mut i: usize = 0;
        while i < self.entries.len()
            invariant
                i <= self.entries@.len(),
                out@.map_values(|m: (String, String)| (m.0@, m.1@)) == pending_view(
                    self.entries@.subrange(0, i as int),
                    self.sent(),
                    now,
                ),
            decreases self.entries.len() - i,
        {
            let e = &self.entries[i];
            proof {
                assert(self.entries@.subrange(0, i + 1).drop_last() =~= self.entries@.subrange(0, i as int));
            }
            if !self.is_sent(e.fix_id.as_str()) {
                let text = outgoing_for(e, now);
                let ghost before = out@;
                out.push((e.fix_id.clone(), text));
                assert(out@.map_values(|m: (String, String)| (m.0@, m.1@)) =~= before.map_values(
                    |m: (String, String)| (m.0@, m.1@),
                ).push((e.fix_id@, outgoing_at(*e, now))));
            }
            i = i + 1;
        }
        assert(self.entries@.subrange(0, self.entries@.len() as int) =~= self.entries@);
        out
    }
}

} // verus!
