//! The network worker's decisions: which saved Bluetooth accessory to
//! reconnect and how long to back off after a failure, how a pending Wi-Fi
//! change is watched until the cloud confirms it, and how each command is
//! routed while setup or a change owns the radio.
use vstd::prelude::*;
use crate::bluetooth::{BluetoothAccessory, BluetoothController, BluetoothState};
use crate::text::{has_prefix, owned, push_str, str_eq, str_starts_with, string_of, trim, trimmed};

verus! {

/// The shortest wait before reconnecting an accessory that failed, in ms.
pub const BLUETOOTH_AUTO_CONNECT_MIN_BACKOFF_MS: u64 = 15_000;
/// The longest wait before reconnecting an accessory that failed, in ms.
pub const BLUETOOTH_AUTO_CONNECT_MAX_BACKOFF_MS: u64 = 300_000;

/// The failures of one accessory and when it may be tried again.
#[derive(Debug)]
pub struct AutoConnectRetry {
    pub accessory_id: String,
    pub failed_attempts: u32,
    pub retry_at_ms: Option<u64>,
}

impl Clone for AutoConnectRetry {
    fn clone(&self) -> (r: Self)
        ensures
            r == *self,
    {
        AutoConnectRetry {
            accessory_id: self.accessory_id.clone(),
            failed_attempts: self.failed_attempts,
            retry_at_ms: self.retry_at_ms,
        }
    }
}

/// Failure counts and retry times, per saved accessory, of automatic
/// reconnection.
#[derive(Debug)]
pub struct BluetoothAutoConnectBackoff {
    retries: Vec<AutoConnectRetry>,
}

/// What is recorded of an accessory: failures and the earliest retry time.
pub type RetryView = (u32, Option<u64>);

pub open spec fn unique_ids(es: Seq<AutoConnectRetry>) -> bool {
    forall|i: int, j: int|
        0 <= i < j < es.len() ==> (#[trigger] es[i]).accessory_id@ != (#[trigger] es[j]).accessory_id@
}

pub open spec fn retries_map(es: Seq<AutoConnectRetry>) -> Map<Seq<char>, RetryView>
    decreases es.len(),
{
    if es.len() == 0 {
        Map::empty()
    } else {
        let e = es.last();
        retries_map(es.drop_last()).insert(e.accessory_id@, (e.failed_attempts, e.retry_at_ms))
    }
}

proof fn lemma_map_dom(es: Seq<AutoConnectRetry>, k: Seq<char>)
    ensures
        retries_map(es).dom().contains(k) <==> exists|i: int|
            0 <= i < es.len() && (#[trigger] es[i]).accessory_id@ == k,
    decreases es.len(),
{
    if es.len() > 0 {
        lemma_map_dom(es.drop_last(), k);
        if retries_map(es.drop_last()).dom().contains(k) {
            let i = choose|i: int| 0 <= i < es.drop_last().len() && (#[trigger] es.drop_last()[i]).accessory_id@ == k;
            assert(es[i] == es.drop_last()[i]);
        }
        if exists|i: int| 0 <= i < es.len() && (#[trigger] es[i]).accessory_id@ == k {
            let i = choose|i: int| 0 <= i < es.len() && (#[trigger] es[i]).accessory_id@ == k;
            if i < es.len() - 1 {
                assert(es.drop_last()[i] == es[i]);
            }
        }
    }
}

proof fn lemma_map_value(es: Seq<AutoConnectRetry>, i: int)
    requires
        unique_ids(es),
        0 <= i < es.len(),
    ensures
        retries_map(es).dom().contains(es[i].accessory_id@),
        retries_map(es)[es[i].accessory_id@] == (es[i].failed_attempts, es[i].retry_at_ms),
    decreases es.len(),
{
    if i < es.len() - 1 {
        assert(es.drop_last()[i] == es[i]);
        assert(unique_ids(es.drop_last())) by {
            assert forall|a: int, b: int| 0 <= a < b < es.drop_last().len() implies
                (#[trigger] es.drop_last()[a]).accessory_id@ != (#[trigger] es.drop_last()[b]).accessory_id@ by {
                assert(es.drop_last()[a] == es[a] && es.drop_last()[b] == es[b]);
            }
        }
        lemma_map_value(es.drop_last(), i);
        assert(es[i].accessory_id@ != es.last().accessory_id@);
    }
}

/// Two entry lists with unique ids hold the same view when they hold the same
/// keys and each key maps to the same record.
proof fn lemma_map_ext(es: Seq<AutoConnectRetry>, m: Map<Seq<char>, RetryView>)
    requires
        unique_ids(es),
        forall|k: Seq<char>| m.dom().contains(k) <==> exists|i: int|
            0 <= i < es.len() && (#[trigger] es[i]).accessory_id@ == k,
        forall|i: int|
            0 <= i < es.len() ==> m[(#[trigger] es[i]).accessory_id@] == (
                es[i].failed_attempts,
                es[i].retry_at_ms,
            ),
    ensures
        retries_map(es) == m,
{
    assert forall|k: Seq<char>| #[trigger] retries_map(es).dom().contains(k) <==> m.dom().contains(k) by {
        lemma_map_dom(es, k);
    }
    assert forall|k: Seq<char>| #[trigger] retries_map(es).dom().contains(k) implies retries_map(es)[k]
        == m[k] by {
        lemma_map_dom(es, k);
        let i = choose|i: int| 0 <= i < es.len() && (#[trigger] es[i]).accessory_id@ == k;
        lemma_map_value(es, i);
    }
    assert(retries_map(es) =~= m);
}

/// The wait after the `n`th consecutive failure: 15 s, doubling with each
/// further failure up to five times, and never over 5 minutes.
pub open spec fn backoff_delay_ms(failed_attempts: u32) -> u64 {
    let exponent: nat = if failed_attempts == 0 {
        0
    } else if failed_attempts - 1 > 5 {
        5
    } else {
        (failed_attempts - 1) as nat
    };
    let delay = BLUETOOTH_AUTO_CONNECT_MIN_BACKOFF_MS * vstd::arithmetic::power2::pow2(exponent);
    if delay > BLUETOOTH_AUTO_CONNECT_MAX_BACKOFF_MS {
        BLUETOOTH_AUTO_CONNECT_MAX_BACKOFF_MS
    } else {
        delay as u64
    }
}

/// The record after one more failure at `now`.
pub open spec fn after_failure(previous: Option<RetryView>, now: u64) -> RetryView {
    let before: u32 = match previous {
        Some(r) => r.0,
        None => 0,
    };
    let n: u32 = if before == u32::MAX {
        u32::MAX
    } else {
        (before + 1) as u32
    };
    let at = now + backoff_delay_ms(n);
    (n, if at > u64::MAX { None } else { Some(at as u64) })
}

/// An accessory the worker should reconnect on its own.
pub open spec fn wants_auto_connect(a: BluetoothAccessory) -> bool {
    a.paired && a.auto_connect && !a.connected
}

/// The ids of the accessories the worker should reconnect.
pub open spec fn auto_connect_ids(accs: Seq<BluetoothAccessory>) -> Set<Seq<char>> {
    Set::new(
        |k: Seq<char>|
            exists|i: int| 0 <= i < accs.len() && wants_auto_connect(#[trigger] accs[i]) && accs[i].accessory_id@ == k,
    )
}

/// Whether an accessory may be tried at `now`: it wants reconnecting and has
/// no retry time still ahead.
pub open spec fn due(retries: Map<Seq<char>, RetryView>, a: BluetoothAccessory, now: u64) -> bool {
    wants_auto_connect(a) && (!retries.dom().contains(a.accessory_id@) || match retries[a.accessory_id@].1 {
        Some(at) => now >= at,
        None => true,
    })
}

/// The first accessory, in the order reported, that may be tried at `now`.
pub open spec fn first_due(accs: Seq<BluetoothAccessory>, retries: Map<Seq<char>, RetryView>, now: u64) -> Option<
    Seq<char>,
>
    decreases accs.len(),
{
    if accs.len() == 0 {
        None
    } else if due(retries, accs[0], now) {
        Some(accs[0].accessory_id@)
    } else {
        first_due(accs.drop_first(), retries, now)
    }
}

/// The records left when the radio is on: those of accessories still waiting
/// to be reconnected.
pub open spec fn pruned(retries: Map<Seq<char>, RetryView>, state: BluetoothState) -> Map<
    Seq<char>,
    RetryView,
> {
    if state.radio_enabled {
        retries.restrict(auto_connect_ids(state.accessories@))
    } else {
        Map::empty()
    }
}

/// The accessory to reconnect now, if any.
pub open spec fn candidate_spec(retries: Map<Seq<char>, RetryView>, state: BluetoothState, now: u64) -> Option<
    Seq<char>,
> {
    if state.radio_enabled {
        first_due(state.accessories@, pruned(retries, state), now)
    } else {
        None
    }
}

fn copy_retries(es: &Vec<AutoConnectRetry>) -> (r: Vec<AutoConnectRetry>)
    ensures
        r@ == es@,
{
    let mut r: Vec<AutoConnectRetry> = Vec::new();
    let mut i: usize = 0;
    while i < es.len()
        invariant
            i <= es@.len(),
            r@ == es@.subrange(0, i as int),
        decreases es.len() - i,
    {
        r.push(es[i].clone());
        assert(es@.subrange(0, i + 1) =~= es@.subrange(0, i as int).push(es@[i as int]));
        i = i + 1;
    }
    assert(es@.subrange(0, es@.len() as int) =~= es@);
    r
}

/// The entries whose flag in `keep` is set, in order.
fn keep_marked(es: &Vec<AutoConnectRetry>, keep: &Vec<bool>) -> (r: Vec<AutoConnectRetry>)
    requires
        unique_ids(es@),
        keep@.len() == es@.len(),
    ensures
        unique_ids(r@),
        retries_map(r@) == retries_map(es@).restrict(
            Set::new(|k: Seq<char>| exists|i: int| 0 <= i < es@.len() && keep@[i] && (#[trigger] es@[i]).accessory_id@ == k),
        ),
{
    let ghost kept_set = Set::new(
        |k: Seq<char>| exists|i: int| 0 <= i < es@.len() && keep@[i] && (#[trigger] es@[i]).accessory_id@ == k,
    );
    let mut r: Vec<AutoConnectRetry> = Vec::new();
    let ghost mut idx: Seq<int> = Seq::empty();
    let mut i: usize = 0;
    while i < es.len()
        invariant
            i <= es@.len(),
            keep@.len() == es@.len(),
            unique_ids(es@),
            idx.len() == r@.len(),
            forall|j: int| 0 <= j < idx.len() ==> 0 <= #[trigger] idx[j] < i && keep@[idx[j]] && r@[j] == es@[idx[j]],
            forall|a: int, b: int| 0 <= a < b < idx.len() ==> #[trigger] idx[a] < #[trigger] idx[b],
            forall|p: int| 0 <= p < i && keep@[p] ==> exists|j: int| 0 <= j < idx.len() && #[trigger] idx[j] == p,
        decreases es.len() - i,
    {
        let ghost old_idx = idx;
        if keep[i] {
            r.push(es[i].clone());
            proof {
                idx = idx.push(i as int);
            }
        }
        proof {
            assert forall|p: int| 0 <= p < i + 1 && keep@[p] implies exists|j: int| 0 <= j < idx.len() && #[trigger] idx[j] == p by {
                if p == i {
                    assert(idx[idx.len() - 1] == p);
                } else {
                    let j = choose|j: int| 0 <= j < old_idx.len() && #[trigger] old_idx[j] == p;
                    assert(idx[j] == old_idx[j]);
                }
            }
        }
        i = i + 1;
    }
    proof {
        assert(unique_ids(r@)) by {
            assert forall|a: int, b: int| 0 <= a < b < r@.len() implies (#[trigger] r@[a]).accessory_id@
                != (#[trigger] r@[b]).accessory_id@ by {
                assert(idx[a] < idx[b]);
                assert(es@[idx[a]].accessory_id@ != es@[idx[b]].accessory_id@);
            }
        }
        let m = retries_map(es@).restrict(kept_set);
        assert forall|k: Seq<char>| m.dom().contains(k) <==> exists|j: int|
            0 <= j < r@.len() && (#[trigger] r@[j]).accessory_id@ == k by {
            lemma_map_dom(es@, k);
            if m.dom().contains(k) {
                let p = choose|p: int| 0 <= p < es@.len() && keep@[p] && (#[trigger] es@[p]).accessory_id@ == k;
                let j = choose|j: int| 0 <= j < idx.len() && #[trigger] idx[j] == p;
                assert(r@[j].accessory_id@ == k);
            }
            if exists|j: int| 0 <= j < r@.len() && (#[trigger] r@[j]).accessory_id@ == k {
                let j = choose|j: int| 0 <= j < r@.len() && (#[trigger] r@[j]).accessory_id@ == k;
                assert(es@[idx[j]].accessory_id@ == k);
                assert(kept_set.contains(k));
            }
        }
        assert forall|j: int| 0 <= j < r@.len() implies m[(#[trigger] r@[j]).accessory_id@] == (
            r@[j].failed_attempts,
            r@[j].retry_at_ms,
        ) by {
            lemma_map_value(es@, idx[j]);
        }
        lemma_map_ext(r@, m);
    }
    r
}

impl BluetoothAutoConnectBackoff {
    #[verifier::type_invariant]
    spec fn inv(self) -> bool {
        unique_ids(self.retries@)
    }

    /// Failure counts and retry times, by accessory id.
    pub closed spec fn view(&self) -> Map<Seq<char>, RetryView> {
        retries_map(self.retries@)
    }

    /// No failures recorded.
    pub fn new() -> (b: Self)
        ensures
            b@ == Map::<Seq<char>, RetryView>::empty(),
    {
        BluetoothAutoConnectBackoff { retries: Vec::new() }
    }

    /// The record of one accessory.
    pub fn retry(&self, accessory_id: &str) -> (r: Option<(u32, Option<u64>)>)
        ensures
            r == (if self@.dom().contains(accessory_id@) {
                Some(self@[accessory_id@])
            } else {
                None
            }),
    {
        proof {
            use_type_invariant(self);
        }
        let mut i: usize = 0;
        while i < self.retries.len()
            invariant
                i <= self.retries@.len(),
                unique_ids(self.retries@),
                forall|j: int| 0 <= j < i ==> (#[trigger] self.retries@[j]).accessory_id@ != accessory_id@,
            decreases self.retries.len() - i,
        {
            if str_eq(self.retries[i].accessory_id.as_str(), accessory_id) {
                proof {
                    lemma_map_value(self.retries@, i as int);
                }
                return Some((self.retries[i].failed_attempts, self.retries[i].retry_at_ms));
            }
            i = i + 1;
        }
        proof {
            lemma_map_dom(self.retries@, accessory_id@);
        }
        None
    }

    /// Forgets every record.
    pub fn reset(&mut self)
        ensures
            final(self)@ == Map::<Seq<char>, RetryView>::empty(),
    {
        self.retries = Vec::new();
        assert(retries_map(self.retries@) =~= Map::<Seq<char>, RetryView>::empty());
    }

    /// An accessory connected: its record goes.
    pub fn record_success(&mut self, accessory_id: &str)
        ensures
            final(self)@ == old(self)@.remove(accessory_id@),
    {
        proof {
            use_type_invariant(&*self);
        }
        let mut keep: Vec<bool> = Vec::new();
        let mut i: usize = 0;
        while i < self.retries.len()
            invariant
                i <= self.retries@.len(),
                keep@.len() == i,
                forall|j: int| 0 <= j < i ==> keep@[j] == (self.retries@[j].accessory_id@ != accessory_id@),
            decreases self.retries.len() - i,
        {
            keep.push(!str_eq(self.retries[i].accessory_id.as_str(), accessory_id));
            i = i + 1;
        }
        let kept = keep_marked(&self.retries, &keep);
        proof {
            let es = self.retries@;
            let s = Set::new(
                |k: Seq<char>| exists|i: int| 0 <= i < es.len() && keep@[i] && (#[trigger] es[i]).accessory_id@ == k,
            );
            assert(retries_map(es).restrict(s) =~= retries_map(es).remove(accessory_id@)) by {
                assert forall|k: Seq<char>| retries_map(es).dom().contains(k) && k != accessory_id@ implies s.contains(k) by {
                    lemma_map_dom(es, k);
                    let i = choose|i: int| 0 <= i < es.len() && (#[trigger] es[i]).accessory_id@ == k;
                    assert(keep@[i]);
                }
            }
        }
        self.retries = kept;
    }

    /// An accessory failed to connect at `now`: one more failure, and no
    /// retry before the backoff for that many failures has passed.
    #[verifier::loop_isolation(false)]
    pub fn record_failure(&mut self, accessory_id: String, now: u64)
        ensures
            final(self)@ == old(self)@.insert(
                accessory_id@,
                after_failure(
                    if old(self)@.dom().contains(accessory_id@) {
                        Some(old(self)@[accessory_id@])
                    } else {
                        None
                    },
                    now,
                ),
            ),
    {
        proof {
            use_type_invariant(&*self);
        }
        let previous = self.retry(accessory_id.as_str());
        let before: u32 = match previous {
            Some(r) => r.0,
            None => 0,
        };
        let n = before.saturating_add(1);
        let exponent: u32 = if n - 1 > 5 {
            5
        } else {
            n - 1
        };
        let mut delay: u64 = BLUETOOTH_AUTO_CONNECT_MIN_BACKOFF_MS;
        let mut e: u32 = 0;
        proof {
            vstd::arithmetic::power2::lemma2_to64();
        }
        while e < exponent
            invariant
                exponent <= 5,
                e <= exponent,
                delay == BLUETOOTH_AUTO_CONNECT_MIN_BACKOFF_MS * vstd::arithmetic::power2::pow2(e as nat),
            decreases exponent - e,
        {
            proof {
                vstd::arithmetic::power2::lemma_pow2_unfold((e + 1) as nat);
                vstd::arithmetic::power2::lemma_pow2_strictly_increases(e as nat, 5);
                vstd::arithmetic::power2::lemma2_to64();
            }
            delay = delay * 2;
            e = e + 1;
        }
        if delay > BLUETOOTH_AUTO_CONNECT_MAX_BACKOFF_MS {
            delay = BLUETOOTH_AUTO_CONNECT_MAX_BACKOFF_MS;
        }
        let retry_at = now.checked_add(delay);
        let entry = AutoConnectRetry {
            accessory_id: accessory_id.clone(),
            failed_attempts: n,
            retry_at_ms: retry_at,
        };
        let ghost expected = old(self)@.insert(accessory_id@, (n, retry_at));
        let mut i: usize = 0;
        while i < self.retries.len()
            invariant
                i <= self.retries@.len(),
                self.retries@ == old(self).retries@,
                unique_ids(self.retries@),
                forall|j: int| 0 <= j < i ==> (#[trigger] self.retries@[j]).accessory_id@ != accessory_id@,
            decreases self.retries.len() - i,
        {
            if str_eq(self.retries[i].accessory_id.as_str(), accessory_id.as_str()) {
                let ghost es = self.retries@;
                let mut updated = copy_retries(&self.retries);
                updated.set(i, entry);
                proof {
                    let us = updated@;
                    assert forall|j: int| 0 <= j < us.len() implies (#[trigger] us[j]).accessory_id@ == es[j].accessory_id@ by {
                        if j == i {
                            assert(us[j] == entry);
                        } else {
                            assert(us[j] == es[j]);
                        }
                    }
                    assert(unique_ids(us)) by {
                        assert forall|a: int, b: int| 0 <= a < b < us.len() implies (#[trigger] us[a]).accessory_id@
                            != (#[trigger] us[b]).accessory_id@ by {
                            assert(es[a].accessory_id@ != es[b].accessory_id@);
                        }
                    }
                    assert forall|k: Seq<char>| expected.dom().contains(k) <==> exists|j: int|
                        0 <= j < us.len() && (#[trigger] us[j]).accessory_id@ == k by {
                        lemma_map_dom(es, k);
                        if exists|j: int| 0 <= j < es.len() && (#[trigger] es[j]).accessory_id@ == k {
                            let j = choose|j: int| 0 <= j < es.len() && (#[trigger] es[j]).accessory_id@ == k;
                            assert(us[j].accessory_id@ == k);
                        }
                        if exists|j: int| 0 <= j < us.len() && (#[trigger] us[j]).accessory_id@ == k {
                            let j = choose|j: int| 0 <= j < us.len() && (#[trigger] us[j]).accessory_id@ == k;
                            assert(es[j].accessory_id@ == k);
                        }
                        assert(us[i as int].accessory_id@ == accessory_id@);
                    }
                    assert forall|j: int| 0 <= j < us.len() implies expected[(#[trigger] us[j]).accessory_id@] == (
                        us[j].failed_attempts,
                        us[j].retry_at_ms,
                    ) by {
                        if j != i {
                            lemma_map_value(es, j);
                            assert(es[j].accessory_id@ != es[i as int].accessory_id@);
                        }
                    }
                    lemma_map_ext(us, expected);
                    lemma_map_value(es, i as int);
                }
                self.retries = updated;
                return;
            }
            i = i + 1;
        }
        proof {
            lemma_map_dom(self.retries@, accessory_id@);
        }
        let ghost es = self.retries@;
        let mut grown = copy_retries(&self.retries);
        grown.push(entry);
        proof {
            assert(grown@.drop_last() =~= es);
            assert(unique_ids(grown@)) by {
                assert forall|a: int, b: int| 0 <= a < b < grown@.len() implies (#[trigger] grown@[a]).accessory_id@
                    != (#[trigger] grown@[b]).accessory_id@ by {
                    if b < es.len() {
                        assert(grown@[a] == es[a] && grown@[b] == es[b]);
                    } else {
                        assert(grown@[a] == es[a]);
                    }
                }
            }
        }
        self.retries = grown;
    }

    /// The accessory to reconnect at `now`: with the radio off, none, and
    /// every record goes; otherwise records of accessories that no longer
    /// want reconnecting go, and the first accessory (in the order reported)
    /// that wants reconnecting and whose retry time has come is chosen.
    #[verifier::loop_isolation(false)]
    pub fn candidate(&mut self, state: &BluetoothState, now: u64) -> (r: Option<String>)
        ensures
            final(self)@ == pruned(old(self)@, *state),
            match r {
                Some(id) => candidate_spec(old(self)@, *state, now) == Some(id@),
                None => candidate_spec(old(self)@, *state, now) is None,
            },
    {
        proof {
            use_type_invariant(&*self);
        }
        if !state.radio_enabled {
            self.reset();
            return None;
        }
        let accs = &state.accessories;
        let mut keep: Vec<bool> = Vec::new();
        let mut i: usize = 0;
        while i < self.retries.len()
            invariant
                i <= self.retries@.len(),
                keep@.len() == i,
                forall|j: int|
                    0 <= j < i ==> keep@[j] == auto_connect_ids(accs@).contains(
                        (#[trigger] self.retries@[j]).accessory_id@,
                    ),
            decreases self.retries.len() - i,
        {
            let id = self.retries[i].accessory_id.as_str();
            let mut found = false;
            let mut k: usize = 0;
            while k < accs.len()
                invariant
                    k <= accs@.len(),
                    found == exists|p: int|
                        0 <= p < k && wants_auto_connect(#[trigger] accs@[p]) && accs@[p].accessory_id@ == id@,
                decreases accs.len() - k,
            {
                let a = &accs[k];
                if a.paired && a.auto_connect && !a.connected && str_eq(a.accessory_id.as_str(), id) {
                    found = true;
                }
                k = k + 1;
            }
            keep.push(found);
            i = i + 1;
        }
        let kept = keep_marked(&self.retries, &keep);
        proof {
            let es = self.retries@;
            let s = Set::new(
                |k: Seq<char>| exists|i: int| 0 <= i < es.len() && keep@[i] && (#[trigger] es[i]).accessory_id@ == k,
            );
            assert(retries_map(es).restrict(s) =~= retries_map(es).restrict(auto_connect_ids(accs@))) by {
                assert forall|k: Seq<char>| retries_map(es).dom().contains(k) implies (s.contains(k)
                    <==> auto_connect_ids(accs@).contains(k)) by {
                    lemma_map_dom(es, k);
                    let i = choose|i: int| 0 <= i < es.len() && (#[trigger] es[i]).accessory_id@ == k;
                    assert(keep@[i] == auto_connect_ids(accs@).contains(k));
                    if s.contains(k) {
                        let j = choose|j: int| 0 <= j < es.len() && keep@[j] && (#[trigger] es[j]).accessory_id@ == k;
                        assert(keep@[j] == auto_connect_ids(accs@).contains(es[j].accessory_id@));
                    }
                }
            }
        }
        self.retries = kept;
        let ghost retries = pruned(old(self)@, *state);
        assert(self@ == retries);
        let mut i: usize = 0;
        assert(accs@.subrange(0, accs@.len() as int) =~= accs@);
        while i < accs.len()
            invariant
                i <= accs@.len(),
                state.radio_enabled,
                self@ == retries,
                first_due(accs@, retries, now) == first_due(accs@.subrange(i as int, accs@.len() as int), retries, now),
            decreases accs.len() - i,
        {
            let ghost rest = accs@.subrange(i as int, accs@.len() as int);
            assert(rest.drop_first() =~= accs@.subrange(i + 1, accs@.len() as int));
            assert(rest[0] == accs@[i as int]);
            let a = &accs[i];
            if a.paired && a.auto_connect && !a.connected {
                let is_due = match self.retry(a.accessory_id.as_str()) {
                    Some(record) => match record.1 {
                        Some(at) => now >= at,
                        None => true,
                    },
                    None => true,
                };
                if is_due {
                    return Some(a.accessory_id.clone());
                }
            }
            i = i + 1;
        }
        None
    }
}

/// Tries to reconnect the accessory `candidate` picks; a failure is recorded
/// against it and the state is kept, a success clears its record and the
/// backend's new state is returned.
pub fn auto_connect_saved_accessory<B: BluetoothController>(
    bluetooth: &mut B,
    state: BluetoothState,
    backoff: &mut BluetoothAutoConnectBackoff,
    now: u64,
) -> (r: BluetoothState)
    ensures
        match candidate_spec(old(backoff)@, state, now) {
            None => r == state && final(backoff)@ == pruned(old(backoff)@, state),
            Some(id) => final(backoff)@ == pruned(old(backoff)@, state).remove(id) || (r == state
                && final(backoff)@ == pruned(old(backoff)@, state).insert(
                id,
                after_failure(
                    if pruned(old(backoff)@, state).dom().contains(id) {
                        Some(pruned(old(backoff)@, state)[id])
                    } else {
                        None
                    },
                    now,
                ),
            )),
        },
{
    let accessory_id = match backoff.candidate(&state, now) {
        Some(id) => id,
        None => {
            return state;
        },
    };
    match bluetooth.connect(accessory_id.as_str()) {
        Ok(connected) => {
            backoff.record_success(accessory_id.as_str());
            connected
        },
        Err(_) => {
            backoff.record_failure(accessory_id, now);
            state
        },
    }
}

/// Every wait after a failure lies between the shortest and the longest
/// backoff.
pub proof fn backoff_delay_is_bounded(n: u32)
    requires
        n >= 1,
    ensures
        BLUETOOTH_AUTO_CONNECT_MIN_BACKOFF_MS <= backoff_delay_ms(n) <= BLUETOOTH_AUTO_CONNECT_MAX_BACKOFF_MS,
{
    vstd::arithmetic::power2::lemma2_to64();
}

/// More failures never shorten the wait.
pub proof fn backoff_delay_never_shrinks(n: u32, m: u32)
    requires
        1 <= n <= m,
    ensures
        backoff_delay_ms(n) <= backoff_delay_ms(m),
{
    vstd::arithmetic::power2::lemma2_to64();
}

/// After a failure at `now`, the accessory is not tried again before its
/// backoff has passed, while every other accessory keeps its record.
pub proof fn failed_accessory_waits_for_its_backoff(
    retries: Map<Seq<char>, RetryView>,
    a: BluetoothAccessory,
    now: u64,
    t: u64,
    other: Seq<char>,
)
    requires
        now + backoff_delay_ms(after_failure(
            if retries.dom().contains(a.accessory_id@) {
                Some(retries[a.accessory_id@])
            } else {
                None
            },
            now,
        ).0) <= u64::MAX,
        t < now + backoff_delay_ms(after_failure(
            if retries.dom().contains(a.accessory_id@) {
                Some(retries[a.accessory_id@])
            } else {
                None
            },
            now,
        ).0),
        other != a.accessory_id@,
    ensures
        !due(
            retries.insert(
                a.accessory_id@,
                after_failure(
                    if retries.dom().contains(a.accessory_id@) {
                        Some(retries[a.accessory_id@])
                    } else {
                        None
                    },
                    now,
                ),
            ),
            a,
            t,
        ),
        retries.dom().contains(other) ==> retries.insert(
            a.accessory_id@,
            after_failure(
                if retries.dom().contains(a.accessory_id@) {
                    Some(retries[a.accessory_id@])
                } else {
                    None
                },
                now,
            ),
        )[other] == retries[other],
{
}

/// Records of accessories that are connected, or no longer paired or set to
/// reconnect, are dropped, so they never hold back another accessory.
pub proof fn only_waiting_accessories_keep_records(retries: Map<Seq<char>, RetryView>, state: BluetoothState, k: Seq<char>)
    requires
        pruned(retries, state).dom().contains(k),
    ensures
        auto_connect_ids(state.accessories@).contains(k),
        retries.dom().contains(k),
{
}

// ---------------------------------------------------------------------------
// Pending Wi-Fi changes
// ---------------------------------------------------------------------------

/// How long the cloud has to confirm a Wi-Fi change before it is rolled back,
/// in ms (inside NetworkManager's own 90-second checkpoint).
pub const WIFI_CHANGE_TIMEOUT_MS: u64 = 60_000;
/// How often the new connection is offered to the cloud while it waits, in ms.
pub const WIFI_CANDIDATE_INTERVAL_MS: u64 = 5_000;

/// A Wi-Fi change that waits for the cloud to confirm that the device is
/// still reachable.
#[derive(Debug)]
pub struct PendingWifiChange {
    pub request_id: String,
    pub profile_id: String,
    pub operation: crate::wifi::WifiChangeOperation,
    pub deadline_ms: u64,
    pub next_candidate_at_ms: u64,
    pub candidate_attempt: u8,
}

impl PendingWifiChange {
    /// A change that started at `now`: offered at once, rolled back after the
    /// timeout.
    pub fn begin(
        request_id: String,
        profile_id: String,
        operation: crate::wifi::WifiChangeOperation,
        now: u64,
    ) -> (p: Self)
        requires
            now + WIFI_CHANGE_TIMEOUT_MS <= u64::MAX,
        ensures
            p.request_id == request_id,
            p.profile_id == profile_id,
            p.operation == operation,
            p.deadline_ms == now + WIFI_CHANGE_TIMEOUT_MS,
            p.next_candidate_at_ms == now,
            p.candidate_attempt == 0,
    {
        PendingWifiChange {
            request_id,
            profile_id,
            operation,
            deadline_ms: now + WIFI_CHANGE_TIMEOUT_MS,
            next_candidate_at_ms: now,
            candidate_attempt: 0,
        }
    }
}

/// What watching a pending change asks the worker to do.
#[derive(Debug)]
pub enum PendingChangeStep {
    /// No change is pending.
    Idle,
    /// Nothing yet: the next offer is not due.
    Wait,
    /// The deadline passed: roll back and refuse the original request.
    TimedOut { request_id: String },
    /// Offer the new connection to the cloud again.
    Offer {
        request_id: String,
        profile_id: String,
        operation: crate::wifi::WifiChangeOperation,
        attempt: u8,
    },
}

/// One look at the pending change at `now`.
pub fn step_pending_change(pending: &mut Option<PendingWifiChange>, now: u64) -> (step: PendingChangeStep)
    requires
        now + WIFI_CANDIDATE_INTERVAL_MS <= u64::MAX,
    ensures
        match *old(pending) {
            None => step is Idle && *final(pending) is None,
            Some(p) => if now >= p.deadline_ms {
                &&& *final(pending) is None
                &&& step matches PendingChangeStep::TimedOut { request_id }
                &&& request_id == p.request_id
            } else if now < p.next_candidate_at_ms {
                step is Wait && *final(pending) == *old(pending)
            } else {
                let attempt: u8 = if p.candidate_attempt == u8::MAX {
                    u8::MAX
                } else {
                    (p.candidate_attempt + 1) as u8
                };
                &&& *final(pending) == Some(PendingWifiChange {
                    candidate_attempt: attempt,
                    next_candidate_at_ms: (now + WIFI_CANDIDATE_INTERVAL_MS) as u64,
                    ..p
                })
                &&& step matches PendingChangeStep::Offer { request_id, profile_id, operation, attempt: a }
                &&& request_id@ == p.request_id@
                &&& profile_id@ == p.profile_id@
                &&& operation == p.operation
                &&& a == attempt
            },
        },
{
    let p = match pending.take() {
        None => {
            return PendingChangeStep::Idle;
        },
        Some(p) => p,
    };
    if now >= p.deadline_ms {
        return PendingChangeStep::TimedOut { request_id: p.request_id };
    }
    if now < p.next_candidate_at_ms {
        *pending = Some(p);
        return PendingChangeStep::Wait;
    }
    let mut p = p;
    p.candidate_attempt = p.candidate_attempt.saturating_add(1);
    p.next_candidate_at_ms = now + WIFI_CANDIDATE_INTERVAL_MS;
    let step = PendingChangeStep::Offer {
        request_id: p.request_id.clone(),
        profile_id: p.profile_id.clone(),
        operation: p.operation,
        attempt: p.candidate_attempt,
    };
    *pending = Some(p);
    step
}

/// The error that answers a change the cloud never confirmed.
pub const CONFIRMATION_TIMEOUT_CODE: &'static str = "wifi_change_confirmation_timeout";
pub const CONFIRMATION_TIMEOUT_MESSAGE: &'static str =
    "The previous Wi-Fi connection was restored because cloud confirmation timed out";

/// What servicing a pending change did.
#[derive(Debug)]
pub enum PendingChangeOutcome {
    /// Nothing to report.
    Quiet,
    /// The change was rolled back: the original request is refused with
    /// this error, and the state after the rollback is reported.
    RolledBack {
        request_id: String,
        code: &'static str,
        message: &'static str,
        state: crate::wifi::WifiState,
    },
    /// The new connection is offered to the cloud.
    Offer {
        request_id: String,
        profile_id: String,
        operation: crate::wifi::WifiChangeOperation,
        attempt: u8,
    },
}

/// An unavailable Wi-Fi state, at any time.
pub open spec fn is_unavailable_state(s: crate::wifi::WifiState) -> bool {
    &&& s.schema_version == 2
    &&& s.status == crate::wifi::WifiStateStatus::Unavailable
    &&& !s.radio_enabled
    &&& s.active_network is None
    &&& s.saved_profiles@.len() == 0
    &&& s.nearby_networks@.len() == 0
    &&& s.scanned_at is None
}

/// The state reported after a rollback: the backend's state when it rolled
/// back, else an unavailable state.
pub fn state_after_rollback(
    result: Result<crate::wifi::WifiState, crate::wifi::WifiOperationError>,
) -> (s: crate::wifi::WifiState)
    ensures
        match result {
            Ok(t) => s == t,
            Err(_) => is_unavailable_state(s),
        },
{
    match result {
        Ok(state) => state,
        Err(_) => crate::wifi::WifiState::unavailable(),
    }
}

/// Watches the pending change at `now`; past its deadline it is rolled back
/// through the backend (an unavailable state is reported when the rollback
/// fails) and the original request is refused.
pub fn service_pending_wifi_change<W: crate::wifi::WifiController>(
    wifi: &mut W,
    pending: &mut Option<PendingWifiChange>,
    now: u64,
) -> (r: PendingChangeOutcome)
    requires
        now + WIFI_CANDIDATE_INTERVAL_MS <= u64::MAX,
    ensures
        match *old(pending) {
            None => r is Quiet && *final(pending) is None,
            Some(p) => if now >= p.deadline_ms {
                &&& *final(pending) is None
                &&& r matches PendingChangeOutcome::RolledBack { request_id, code, message, .. }
                &&& request_id == p.request_id
                &&& code@ == CONFIRMATION_TIMEOUT_CODE@
                &&& message@ == CONFIRMATION_TIMEOUT_MESSAGE@
            } else if now < p.next_candidate_at_ms {
                r is Quiet && *final(pending) == *old(pending)
            } else {
                &&& *final(pending) matches Some(q)
                &&& q.candidate_attempt == (if p.candidate_attempt == u8::MAX {
                    u8::MAX
                } else {
                    (p.candidate_attempt + 1) as u8
                })
                &&& q.next_candidate_at_ms == now + WIFI_CANDIDATE_INTERVAL_MS
                &&& q.deadline_ms == p.deadline_ms
                &&& q.request_id == p.request_id
                &&& q.profile_id == p.profile_id
                &&& q.operation == p.operation
                &&& r matches PendingChangeOutcome::Offer { request_id, profile_id, operation, attempt }
                &&& request_id@ == p.request_id@
                &&& profile_id@ == p.profile_id@
                &&& operation == p.operation
                &&& attempt == q.candidate_attempt
            },
        },
{
    match step_pending_change(pending, now) {
        PendingChangeStep::Idle | PendingChangeStep::Wait => PendingChangeOutcome::Quiet,
        PendingChangeStep::TimedOut { request_id } => {
            let state = state_after_rollback(wifi.rollback_pending_change());
            PendingChangeOutcome::RolledBack {
                request_id,
                code: CONFIRMATION_TIMEOUT_CODE,
                message: CONFIRMATION_TIMEOUT_MESSAGE,
                state,
            }
        },
        PendingChangeStep::Offer { request_id, profile_id, operation, attempt } => {
            PendingChangeOutcome::Offer { request_id, profile_id, operation, attempt }
        },
    }
}

/// Whether a confirmation names the pending change (both absent counts as a
/// match, and then there is nothing to confirm).
pub fn confirmation_matches(activation_command_id: Option<&str>, pending: &Option<PendingWifiChange>) -> (r: bool)
    ensures
        r == (match (activation_command_id, *pending) {
            (Some(a), Some(p)) => a@ == p.request_id@,
            (None, None) => true,
            _ => false,
        }),
{
    match (activation_command_id, pending) {
        (Some(a), Some(p)) => str_eq(a, p.request_id.as_str()),
        (None, None) => true,
        _ => false,
    }
}

// ---------------------------------------------------------------------------
// Routing commands
// ---------------------------------------------------------------------------

/// The commands the worker carries out.
#[derive(Debug, Clone, Copy, PartialEq, Eq, Structural)]
pub enum WorkerCommand {
    NetworkHealth,
    QueryGps,
    ResetModem,
    WifiRefresh,
    WifiScan,
    WifiAddProfile,
    WifiUpdateProfile,
    WifiForgetProfile,
    WifiActivateProfile,
    WifiUpdateIpv4,
    WifiConfirmChange,
    WifiProvisioningStart,
    WifiProvisioningStop,
    BluetoothRefresh,
    BluetoothSetRadio,
    BluetoothScanStart,
    BluetoothScanStop,
    BluetoothPair,
    BluetoothConnect,
    BluetoothDisconnect,
    BluetoothForget,
    BluetoothUpdateAccessory,
    AudioSetOutputLevel,
    AudioApplySettings,
    AudioTestOutput,
    AudioTestInput,
    Shutdown,
}

/// Where a command goes.
#[derive(Debug, Clone, Copy, PartialEq, Eq, Structural)]
pub enum CommandRoute {
    /// Refused: Wi-Fi setup owns the radio (`wifi_provisioning_in_progress`).
    RefusedDuringSetup,
    /// Refused: another connectivity change waits for confirmation
    /// (`wifi_change_in_progress`); a refused setup start also clears the
    /// setup screen with an error state.
    RefusedDuringChange { clear_setup_screen: bool },
    Run(WorkerCommand),
    /// Not a command of this worker (`unsupported_command`).
    Unsupported,
}

/// Each message type the worker handles, with its command.
pub open spec fn command_table() -> Seq<(Seq<char>, WorkerCommand)> {
    seq![
        ("network.health"@, WorkerCommand::NetworkHealth),
        ("network.query_gps"@, WorkerCommand::QueryGps),
        ("network.reset_modem"@, WorkerCommand::ResetModem),
        ("wifi_refresh"@, WorkerCommand::WifiRefresh),
        ("wifi_scan"@, WorkerCommand::WifiScan),
        ("wifi_add_profile"@, WorkerCommand::WifiAddProfile),
        ("wifi_update_profile"@, WorkerCommand::WifiUpdateProfile),
        ("wifi_forget_profile"@, WorkerCommand::WifiForgetProfile),
        ("wifi_activate_profile"@, WorkerCommand::WifiActivateProfile),
        ("wifi_update_ipv4"@, WorkerCommand::WifiUpdateIpv4),
        ("wifi_confirm_change"@, WorkerCommand::WifiConfirmChange),
        ("wifi_provisioning_start"@, WorkerCommand::WifiProvisioningStart),
        ("wifi_provisioning_stop"@, WorkerCommand::WifiProvisioningStop),
        ("bluetooth_refresh"@, WorkerCommand::BluetoothRefresh),
        ("bluetooth_set_radio"@, WorkerCommand::BluetoothSetRadio),
        ("bluetooth_scan_start"@, WorkerCommand::BluetoothScanStart),
        ("bluetooth_scan_stop"@, WorkerCommand::BluetoothScanStop),
        ("bluetooth_pair"@, WorkerCommand::BluetoothPair),
        ("bluetooth_connect"@, WorkerCommand::BluetoothConnect),
        ("bluetooth_disconnect"@, WorkerCommand::BluetoothDisconnect),
        ("bluetooth_forget"@, WorkerCommand::BluetoothForget),
        ("bluetooth_update_accessory"@, WorkerCommand::BluetoothUpdateAccessory),
        ("audio_set_output_level"@, WorkerCommand::AudioSetOutputLevel),
        ("audio_apply_settings"@, WorkerCommand::AudioApplySettings),
        ("audio_test_output"@, WorkerCommand::AudioTestOutput),
        ("audio_test_input"@, WorkerCommand::AudioTestInput),
        ("network.shutdown"@, WorkerCommand::Shutdown),
        ("worker.stop"@, WorkerCommand::Shutdown),
    ]
}

/// The command of the first row named `mt`.
pub open spec fn lookup(rows: Seq<(Seq<char>, WorkerCommand)>, mt: Seq<char>) -> Option<WorkerCommand>
    decreases rows.len(),
{
    if rows.len() == 0 {
        None
    } else if rows[0].0 == mt {
        Some(rows[0].1)
    } else {
        lookup(rows.drop_first(), mt)
    }
}

/// The command a message type names.
pub open spec fn command_named(mt: Seq<char>) -> Option<WorkerCommand> {
    lookup(command_table(), mt)
}

fn command_rows() -> (v: Vec<(&'static str, WorkerCommand)>)
    ensures
        v@.map_values(|r: (&'static str, WorkerCommand)| (r.0@, r.1)) == command_table(),
{
    let v = vec![
        ("network.health", WorkerCommand::NetworkHealth),
        ("network.query_gps", WorkerCommand::QueryGps),
        ("network.reset_modem", WorkerCommand::ResetModem),
        ("wifi_refresh", WorkerCommand::WifiRefresh),
        ("wifi_scan", WorkerCommand::WifiScan),
        ("wifi_add_profile", WorkerCommand::WifiAddProfile),
        ("wifi_update_profile", WorkerCommand::WifiUpdateProfile),
        ("wifi_forget_profile", WorkerCommand::WifiForgetProfile),
        ("wifi_activate_profile", WorkerCommand::WifiActivateProfile),
        ("wifi_update_ipv4", WorkerCommand::WifiUpdateIpv4),
        ("wifi_confirm_change", WorkerCommand::WifiConfirmChange),
        ("wifi_provisioning_start", WorkerCommand::WifiProvisioningStart),
        ("wifi_provisioning_stop", WorkerCommand::WifiProvisioningStop),
        ("bluetooth_refresh", WorkerCommand::BluetoothRefresh),
        ("bluetooth_set_radio", WorkerCommand::BluetoothSetRadio),
        ("bluetooth_scan_start", WorkerCommand::BluetoothScanStart),
        ("bluetooth_scan_stop", WorkerCommand::BluetoothScanStop),
        ("bluetooth_pair", WorkerCommand::BluetoothPair),
        ("bluetooth_connect", WorkerCommand::BluetoothConnect),
        ("bluetooth_disconnect", WorkerCommand::BluetoothDisconnect),
        ("bluetooth_forget", WorkerCommand::BluetoothForget),
        ("bluetooth_update_accessory", WorkerCommand::BluetoothUpdateAccessory),
        ("audio_set_output_level", WorkerCommand::AudioSetOutputLevel),
        ("audio_apply_settings", WorkerCommand::AudioApplySettings),
        ("audio_test_output", WorkerCommand::AudioTestOutput),
        ("audio_test_input", WorkerCommand::AudioTestInput),
        ("network.shutdown", WorkerCommand::Shutdown),
        ("worker.stop", WorkerCommand::Shutdown),
    ];
    assert(v@.map_values(|r: (&'static str, WorkerCommand)| (r.0@, r.1)) =~= command_table());
    v
}

/// Wi-Fi station commands are refused while setup runs (but for starting and
/// stopping setup), and while a change waits for confirmation (but for
/// refresh, confirmation and shutdown); everything else goes to its handler.
pub open spec fn route_spec(mt: Seq<char>, setup_running: bool, change_pending: bool) -> CommandRoute {
    if setup_running && has_prefix(mt, "wifi_"@) && mt != "wifi_provisioning_start"@ && mt
        != "wifi_provisioning_stop"@ {
        CommandRoute::RefusedDuringSetup
    } else if change_pending && has_prefix(mt, "wifi_"@) && mt != "wifi_refresh"@ && mt
        != "wifi_confirm_change"@ && mt != "network.shutdown"@ && mt != "worker.stop"@ {
        CommandRoute::RefusedDuringChange { clear_setup_screen: mt == "wifi_provisioning_start"@ }
    } else {
        match command_named(mt) {
            Some(c) => CommandRoute::Run(c),
            None => CommandRoute::Unsupported,
        }
    }
}

fn command_named_exec(message_type: &str) -> (r: Option<WorkerCommand>)
    ensures
        r == command_named(message_type@),
{
    let rows = command_rows();
    let ghost table = command_table();
    let mut i: usize = 0;
    assert(table.subrange(0, table.len() as int) =~= table);
    while i < rows.len()
        invariant
            i <= rows@.len(),
            rows@.map_values(|r: (&'static str, WorkerCommand)| (r.0@, r.1)) == table,
            table == command_table(),
            lookup(table, message_type@) == lookup(table.subrange(i as int, table.len() as int), message_type@),
        decreases rows.len() - i,
    {
        let ghost rest = table.subrange(i as int, table.len() as int);
        assert(rest.drop_first() =~= table.subrange(i + 1, table.len() as int));
        assert(rest[0] == table[i as int]);
        assert(table[i as int] == (rows@[i as int].0@, rows@[i as int].1));
        let (name, command) = rows[i];
        if str_eq(name, message_type) {
            return Some(command);
        }
        i = i + 1;
    }
    None
}

/// Routes a command given whether Wi-Fi setup runs and whether a Wi-Fi
/// change waits for confirmation.
pub fn route_command(message_type: &str, setup_running: bool, change_pending: bool) -> (r: CommandRoute)
    ensures
        r == route_spec(message_type@, setup_running, change_pending),
{
    let wifi = str_starts_with(message_type, "wifi_");
    if setup_running && wifi && !str_eq(message_type, "wifi_provisioning_start") && !str_eq(
        message_type,
        "wifi_provisioning_stop",
    ) {
        return CommandRoute::RefusedDuringSetup;
    }
    if change_pending && wifi && !str_eq(message_type, "wifi_refresh") && !str_eq(
        message_type,
        "wifi_confirm_change",
    ) && !str_eq(message_type, "network.shutdown") && !str_eq(message_type, "worker.stop") {
        return CommandRoute::RefusedDuringChange {
            clear_setup_screen: str_eq(message_type, "wifi_provisioning_start"),
        };
    }
    match command_named_exec(message_type) {
        Some(c) => CommandRoute::Run(c),
        None => CommandRoute::Unsupported,
    }
}

/// Bluetooth, audio and modem commands keep working while setup runs or a
/// Wi-Fi change is pending.
pub proof fn only_wifi_commands_are_held_back(mt: Seq<char>, setup_running: bool, change_pending: bool)
    requires
        !has_prefix(mt, "wifi_"@),
    ensures
        route_spec(mt, setup_running, change_pending) == route_spec(mt, false, false),
{
}

/// The message of an `unsupported_command` error.
pub fn unsupported_command_message(message_type: &str) -> (m: String)
    ensures
        m@ == "unsupported command "@ + message_type@,
{
    let mut out: Vec<char> = Vec::new();
    push_str(&mut out, "unsupported command ");
    push_str(&mut out, message_type);
    string_of(&out)
}

/// A reference (accessory or profile id) a command must carry: present and
/// not blank.
pub fn required_reference(value: Option<&str>) -> (r: Option<String>)
    ensures
        r matches Some(v) ==> (value matches Some(x) && v@ == x@),
        r is Some <==> (value matches Some(x) && trim(x@).len() > 0),
{
    match value {
        Some(v) => if trimmed(v).len() > 0 {
            Some(owned(v))
        } else {
            None
        },
        None => None,
    }
}

/// How an output level request reads: a level of 0 to 100, or (with no
/// usable level) a request to step through the levels.
#[derive(Debug, Clone, Copy, PartialEq, Eq, Structural)]
pub enum OutputLevelRequest {
    Level(u8),
    Cycle,
    Invalid,
}

pub fn output_level_request(cycle: Option<bool>, level: Option<u64>) -> (r: OutputLevelRequest)
    ensures
        r == (match level {
            Some(l) if l <= 100 => OutputLevelRequest::Level(l as u8),
            _ => if cycle == Some(true) {
                OutputLevelRequest::Cycle
            } else {
                OutputLevelRequest::Invalid
            },
        }),
{
    match level {
        Some(l) if l <= 100 => OutputLevelRequest::Level(l as u8),
        _ => if cycle == Some(true) {
            OutputLevelRequest::Cycle
        } else {
            OutputLevelRequest::Invalid
        },
    }
}

/// How long a microphone test asks to record: 10 seconds unless given.
pub fn input_test_request(duration_seconds: Option<u64>) -> (d: u64)
    ensures
        d == (match duration_seconds {
            Some(s) => s,
            None => 10,
        }),
{
    match duration_seconds {
        Some(s) => s,
        None => 10,
    }
}

/// The runtime boots unless its configuration could not be loaded.
pub fn should_boot_runtime(degraded: bool, error_code: &str) -> (r: bool)
    ensures
        r == !(degraded && error_code@ == "config_load_failed"@),
{
    !(degraded && str_eq(error_code, "config_load_failed"))
}

} // verus!
