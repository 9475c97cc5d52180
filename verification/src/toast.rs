//! Global toast notifications: a bounded queue of messages that expire after a
//! fixed time and can be dismissed by id. The user interface renders the queue,
//! calls `prune` when a timer fires and schedules the delays these functions return.

use std::collections::VecDeque;
use vstd::prelude::*;
use crate::icons::Icon;
use crate::text::keep_last;

verus! {

/// Display time of one toast, in milliseconds.
pub const TOAST_TTL_MS: u64 = 1600;
/// Most toasts shown at once; a new one beyond this drops the oldest.
pub const TOAST_CAP: usize = 4;
/// Entrance animation time, in milliseconds.
pub const ENTRANCE_MS: u64 = 170;

/// Semantic kind of a toast.
#[derive(Debug, Clone, Copy, PartialEq, Eq, Structural)]
pub enum ToastKind {
    Success,
    Warning,
    Error,
    Info,
}

impl ToastKind {
    pub open spec fn label_spec(self) -> Seq<char> {
        match self {
            ToastKind::Success => "成功"@,
            ToastKind::Warning => "警告"@,
            ToastKind::Error => "错误"@,
            ToastKind::Info => "提醒"@,
        }
    }

    /// Category caption shown in the toast.
    pub fn label(self) -> (r: &'static str)
        ensures
            r@ == self.label_spec(),
    {
        match self {
            ToastKind::Success => "成功",
            ToastKind::Warning => "警告",
            ToastKind::Error => "错误",
            ToastKind::Info => "提醒",
        }
    }

    pub open spec fn icon_spec(self) -> Icon {
        match self {
            ToastKind::Success => Icon::ToastSuccess,
            ToastKind::Warning => Icon::ToastWarning,
            ToastKind::Error => Icon::ToastError,
            ToastKind::Info => Icon::Info,
        }
    }

    /// Icon shown in the toast.
    pub fn icon(self) -> (r: Icon)
        ensures
            r == self.icon_spec(),
    {
        match self {
            ToastKind::Success => Icon::ToastSuccess,
            ToastKind::Warning => Icon::ToastWarning,
            ToastKind::Error => Icon::ToastError,
            ToastKind::Info => Icon::Info,
        }
    }
}

/// One toast.
#[derive(Debug)]
pub struct Toast {
    pub id: u64,
    pub kind: ToastKind,
    pub message: String,
}

/// A toast together with the time (ms) it was queued.
pub type Entry = (Toast, u64);

/// `a - b`, or 0 when `b > a`.
pub open spec fn sat_sub(a: u64, b: u64) -> u64 {
    if a >= b { (a - b) as u64 } else { 0 }
}

/// A toast queued at `born` has expired at time `now`.
pub open spec fn is_expired(born: u64, now: u64) -> bool {
    sat_sub(now, born) >= TOAST_TTL_MS
}

/// The queue after appending `e`, dropping the oldest entry when over the cap.
pub open spec fn pushed(q: Seq<Entry>, e: Entry) -> Seq<Entry> {
    if q.len() + 1 > TOAST_CAP { q.push(e).drop_first() } else { q.push(e) }
}

/// The queue without the toast whose id is `id`.
pub open spec fn closed(q: Seq<Entry>, id: u64) -> Seq<Entry> {
    q.filter(|e: Entry| e.0.id != id)
}

/// Number of expired entries at the front of the queue.
pub open spec fn expired_prefix(q: Seq<Entry>, now: u64) -> nat
    decreases q.len(),
{
    if q.len() == 0 || !is_expired(q[0].1, now) {
        0
    } else {
        1 + expired_prefix(q.drop_first(), now)
    }
}

/// The queue after removing its expired front entries.
pub open spec fn pruned(q: Seq<Entry>, now: u64) -> Seq<Entry> {
    q.skip(expired_prefix(q, now) as int)
}

/// Delay until the next clean-up: the time left for the front entry, at least 1 ms;
/// none when the queue is empty.
pub open spec fn next_delay(q: Seq<Entry>, now: u64) -> Option<u64> {
    if q.len() == 0 {
        None
    } else {
        let remain = sat_sub(TOAST_TTL_MS, sat_sub(now, q[0].1));
        Some(if remain >= 1 { remain } else { 1 })
    }
}

/// Pairs the two aligned columns of the queue.
pub open spec fn zip_entries(t: Seq<Toast>, b: Seq<u64>) -> Seq<Entry> {
    Seq::new(t.len(), |i: int| (t[i], b[i]))
}

/// Ids strictly increase from front to back and stay below `next_id`.
pub open spec fn ids_ordered(q: Seq<Entry>, next_id: u64) -> bool {
    &&& forall|i: int, j: int| 0 <= i < j < q.len() ==> q[i].0.id < q[j].0.id
    &&& forall|i: int| 0 <= i < q.len() ==> q[i].0.id < next_id
}

/// The queue of toasts (with birth times) and the next id to hand out.
pub struct ToastHost {
    toasts: VecDeque<Toast>,
    borns: VecDeque<u64>,
    next_id: u64,
}

impl ToastHost {
    /// The queued toasts with their birth times, oldest first.
    pub closed spec fn entries(&self) -> Seq<Entry> {
        zip_entries(self.toasts@, self.borns@)
    }

    /// The id the next pushed toast receives.
    pub closed spec fn next_id_spec(&self) -> u64 {
        self.next_id
    }

    /// Columns aligned, at most `TOAST_CAP` toasts, ids unique and increasing.
    pub closed spec fn wf(&self) -> bool {
        &&& self.toasts@.len() == self.borns@.len()
        &&& self.toasts@.len() <= TOAST_CAP
        &&& self.next_id >= 1
        &&& ids_ordered(self.entries(), self.next_id)
    }

    /// An empty queue whose first toast gets id 1.
    pub fn new() -> (r: ToastHost)
        ensures
            r.wf(),
            r.entries() == Seq::<Entry>::empty(),
            r.next_id_spec() == 1,
    {
        let r = ToastHost { toasts: VecDeque::new(), borns: VecDeque::new(), next_id: 1 };
        assert(r.entries() =~= Seq::<Entry>::empty());
        r
    }

    /// Number of toasts shown (never more than `TOAST_CAP`).
    pub fn len(&self) -> (n: usize)
        requires
            self.wf(),
        ensures
            n == self.entries().len(),
            n <= TOAST_CAP,
    {
        self.toasts.len()
    }

    /// The id the next pushed toast receives.
    pub fn next_id(&self) -> (r: u64)
        ensures
            r == self.next_id_spec(),
    {
        self.next_id
    }

    /// Id and kind of the toast at `i` (oldest first).
    pub fn id_at(&self, i: usize) -> (r: (u64, ToastKind))
        requires
            self.wf(),
            i < self.entries().len(),
        ensures
            r.0 == self.entries()[i as int].0.id,
            r.1 == self.entries()[i as int].0.kind,
    {
        let t = &self.toasts[i];
        (t.id, t.kind)
    }

    /// Message of the toast at `i` (oldest first).
    pub fn message_at(&self, i: usize) -> (r: &str)
        requires
            self.wf(),
            i < self.entries().len(),
        ensures
            r@ == self.entries()[i as int].0.message@,
    {
        self.toasts[i].message.as_str()
    }

    /// Queues a toast born at `now`; beyond the cap the oldest is dropped.
    /// Returns the delay after which `prune` is due.
    pub fn push(&mut self, kind: ToastKind, message: String, now: u64) -> (delay: u64)
        requires
            old(self).wf(),
            old(self).next_id_spec() < u64::MAX,
        ensures
            final(self).wf(),
            final(self).next_id_spec() == old(self).next_id_spec() + 1,
            final(self).entries() == pushed(
                old(self).entries(),
                (Toast { id: old(self).next_id_spec(), kind, message }, now),
            ),
            delay == TOAST_TTL_MS,
    {
        let ghost q0 = self.entries();
        let id = self.next_id;
        self.next_id = self.next_id + 1;
        let ghost e: Entry = (Toast { id, kind, message }, now);
        self.toasts.push_back(Toast { id, kind, message });
        self.borns.push_back(now);
        assert(self.entries() =~= q0.push(e));
        while self.toasts.len() > TOAST_CAP
            invariant
                self.toasts@.len() == self.borns@.len(),
                self.toasts@.len() <= TOAST_CAP + 1,
                q0.len() <= TOAST_CAP,
                self.entries() == (if self.toasts@.len() == q0.len() + 1 {
                    q0.push(e)
                } else {
                    q0.push(e).drop_first()
                }),
                self.toasts@.len() == q0.len() + 1 || (self.toasts@.len() == q0.len()
                    && q0.len() + 1 > TOAST_CAP),
                self.next_id == id + 1,
            decreases self.toasts@.len(),
        {
            let ghost before = self.entries();
            let _ = self.toasts.pop_front();
            let _ = self.borns.pop_front();
            assert(self.entries() =~= before.drop_first());
        }
        assert(self.entries() == pushed(q0, e));
        proof {
            let qe = q0.push(e);
            assert(ids_ordered(qe, self.next_id)) by {
                assert forall|i: int, j: int| 0 <= i < j < qe.len() implies qe[i].0.id
                    < qe[j].0.id by {
                    if j == q0.len() {
                        assert(qe[i] == q0[i]);
                    } else {
                        assert(qe[i] == q0[i]);
                        assert(qe[j] == q0[j]);
                    }
                }
                assert forall|i: int| 0 <= i < qe.len() implies qe[i].0.id < self.next_id by {
                    if i < q0.len() {
                        assert(qe[i] == q0[i]);
                    }
                }
            }
            if q0.len() + 1 > TOAST_CAP {
                lemma_skip_keeps_order(qe, 1, self.next_id);
                assert(qe.skip(1) =~= qe.drop_first());
            }
        }
        TOAST_TTL_MS
    }

    /// Removes the toast with id `id` (columns stay aligned).
    fn retain_except(&mut self, id: u64)
        requires
            old(self).toasts@.len() == old(self).borns@.len(),
        ensures
            final(self).toasts@.len() == final(self).borns@.len(),
            final(self).entries() == closed(old(self).entries(), id),
            final(self).next_id == old(self).next_id,
    {
        let ghost q0 = self.entries();
        let n = self.toasts.len();
        let mut kept_t: VecDeque<Toast> = VecDeque::new();
        let mut kept_b: VecDeque<u64> = VecDeque::new();
        let mut i: usize = 0;
        while i < n
            invariant
                i <= n,
                n == q0.len(),
                self.toasts@.len() == self.borns@.len(),
                self.toasts@.len() == n - i,
                zip_entries(self.toasts@, self.borns@) == q0.skip(i as int),
                kept_t@.len() == kept_b@.len(),
                zip_entries(kept_t@, kept_b@) == q0.subrange(0, i as int).filter(
                    |e: Entry| e.0.id != id,
                ),
                self.next_id == old(self).next_id,
            decreases n - i,
        {
            let ghost rest = zip_entries(self.toasts@, self.borns@);
            let ghost kept = zip_entries(kept_t@, kept_b@);
            let t = self.toasts.pop_front().unwrap();
            let b = self.borns.pop_front().unwrap();
            assert(rest[0] == q0[i as int]);
            assert(zip_entries(self.toasts@, self.borns@) =~= rest.drop_first());
            assert(rest.drop_first() =~= q0.skip(i as int + 1));
            proof {
                assert(q0.subrange(0, i as int + 1).drop_last() =~= q0.subrange(0, i as int));
                reveal_with_fuel(Seq::<_>::filter, 1);
            }
            if t.id != id {
                let ghost e: Entry = (t, b);
                kept_t.push_back(t);
                kept_b.push_back(b);
                assert(zip_entries(kept_t@, kept_b@) =~= kept.push(e));
            }
            i = i + 1;
        }
        assert(q0.subrange(0, n as int) =~= q0);
        self.toasts = kept_t;
        self.borns = kept_b;
    }

    /// Dismisses the toast `id` (the close button). Returns the delay until the
    /// next clean-up, or none when no toast is left.
    pub fn close(&mut self, id: u64, now: u64) -> (delay: Option<u64>)
        requires
            old(self).wf(),
        ensures
            final(self).wf(),
            final(self).next_id_spec() == old(self).next_id_spec(),
            final(self).entries() == closed(old(self).entries(), id),
            delay == next_delay(final(self).entries(), now),
    {
        let ghost q0 = self.entries();
        self.retain_except(id);
        proof {
            lemma_filter_keeps_order(q0, id, self.next_id);
        }
        self.front_delay(now)
    }

    /// Delay left for the front toast (at least 1 ms), none when empty.
    fn front_delay(&self, now: u64) -> (delay: Option<u64>)
        requires
            self.toasts@.len() == self.borns@.len(),
        ensures
            delay == next_delay(self.entries(), now),
    {
        if self.borns.len() == 0 {
            None
        } else {
            let front_born = self.borns[0];
            let age = now.saturating_sub(front_born);
            let remain = TOAST_TTL_MS.saturating_sub(age);
            let d = if remain >= 1 { remain } else { 1 };
            Some(d)
        }
    }

    /// Removes the expired toasts at the front (the clean-up timer). Returns whether
    /// any expired, and the delay until the next clean-up (none when empty).
    pub fn prune(&mut self, now: u64) -> (r: (bool, Option<u64>))
        requires
            old(self).wf(),
        ensures
            final(self).wf(),
            final(self).next_id_spec() == old(self).next_id_spec(),
            final(self).entries() == pruned(old(self).entries(), now),
            r.0 == (expired_prefix(old(self).entries(), now) > 0),
            r.1 == next_delay(final(self).entries(), now),
    {
        let ghost q0 = self.entries();
        let mut expired = false;
        let ghost mut k: nat = 0;
        loop
            invariant_except_break
                self.toasts@.len() == self.borns@.len(),
                k <= q0.len(),
                self.entries() == q0.skip(k as int),
                expired_prefix(q0, now) == k + expired_prefix(self.entries(), now),
                expired == (k > 0),
                self.next_id == old(self).next_id,
            ensures
                self.next_id == old(self).next_id,
                self.toasts@.len() == self.borns@.len(),
                self.entries() == pruned(q0, now),
                expired == (expired_prefix(q0, now) > 0),
            decreases self.toasts@.len(),
        {
            if self.borns.len() == 0 || self.toasts.len() == 0 {
                assert(expired_prefix(self.entries(), now) == 0);
                break;
            }
            let front_born = self.borns[0];
            if now.saturating_sub(front_born) < TOAST_TTL_MS {
                assert(expired_prefix(self.entries(), now) == 0);
                break;
            }
            let ghost before = self.entries();
            let _ = self.toasts.pop_front();
            let _ = self.borns.pop_front();
            assert(self.entries() =~= before.drop_first());
            assert(before.drop_first() =~= q0.skip(k as int + 1));
            proof {
                k = k + 1;
            }
            expired = true;
        }
        proof {
            lemma_expired_prefix_bound(q0, now);
            lemma_skip_keeps_order(q0, expired_prefix(q0, now) as int, self.next_id);
        }
        let d = self.front_delay(now);
        (expired, d)
    }
}

impl Default for ToastHost {
    fn default() -> (r: ToastHost)
        ensures
            r.wf(),
            r.entries() == Seq::<Entry>::empty(),
            r.next_id_spec() == 1,
    {
        ToastHost::new()
    }
}

/// The queue invariant as callers see it: at most `TOAST_CAP` toasts, ids strictly
/// increasing from oldest to newest and all below the next id, which is positive.
pub proof fn lemma_queue_shape(h: &ToastHost)
    requires
        h.wf(),
    ensures
        h.entries().len() <= TOAST_CAP,
        ids_ordered(h.entries(), h.next_id_spec()),
        h.next_id_spec() >= 1,
{
}

/// Dismissing toast `id` removes exactly the entries with that id: every other entry
/// stays (each toast with its own birth time, in order), nothing else appears, and a
/// queue without that id is left as it is.
pub proof fn lemma_close_removes_exactly(q: Seq<Entry>, id: u64)
    ensures
        forall|e: Entry| #[trigger] closed(q, id).contains(e) <==> (q.contains(e) && e.0.id != id),
        closed(q, id).len() <= q.len(),
        (forall|i: int| 0 <= i < q.len() ==> q[i].0.id != id) ==> closed(q, id) == q,
{
    let pred = |e: Entry| e.0.id != id;
    q.lemma_filter_len(pred);
    assert forall|e: Entry| #[trigger] closed(q, id).contains(e) <==> (q.contains(e) && e.0.id
        != id) by {
        if closed(q, id).contains(e) {
            q.lemma_filter_contains_rev(pred, e);
        }
        if q.contains(e) && e.0.id != id {
            let i = choose|i: int| 0 <= i < q.len() && q[i] == e;
            q.lemma_filter_contains(pred, i);
        }
    }
    if forall|i: int| 0 <= i < q.len() ==> q[i].0.id != id {
        lemma_filter_all_kept(q, id);
    }
}

proof fn lemma_filter_keeps_order(q: Seq<Entry>, id: u64, next_id: u64)
    requires
        ids_ordered(q, next_id),
    ensures
        ids_ordered(closed(q, id), next_id),
        closed(q, id).len() <= q.len(),
    decreases q.len(),
{
    let pred = |e: Entry| e.0.id != id;
    reveal_with_fuel(Seq::<_>::filter, 1);
    if q.len() > 0 {
        let init = q.drop_last();
        assert(ids_ordered(init, next_id));
        lemma_filter_keeps_order(init, id, next_id);
        let fi = init.filter(pred);
        assert forall|i: int| 0 <= i < fi.len() implies fi[i].0.id < q.last().0.id by {
            init.lemma_filter_pred(pred, i);
            assert(fi.contains(fi[i]));
            init.lemma_filter_contains_rev(pred, fi[i]);
        }
    }
}

proof fn lemma_skip_keeps_order(q: Seq<Entry>, k: int, next_id: u64)
    requires
        ids_ordered(q, next_id),
        0 <= k <= q.len(),
    ensures
        ids_ordered(q.skip(k), next_id),
{
    assert forall|i: int, j: int| 0 <= i < j < q.skip(k).len() implies q.skip(k)[i].0.id
        < q.skip(k)[j].0.id by {
        assert(q.skip(k)[i] == q[i + k]);
        assert(q.skip(k)[j] == q[j + k]);
    }
}

/// The expired prefix never exceeds the queue.
pub proof fn lemma_expired_prefix_bound(q: Seq<Entry>, now: u64)
    ensures
        expired_prefix(q, now) <= q.len(),
        forall|i: int| 0 <= i < expired_prefix(q, now) ==> is_expired(#[trigger] q[i].1, now),
        expired_prefix(q, now) < q.len() ==> !is_expired(q[expired_prefix(q, now) as int].1, now),
    decreases q.len(),
{
    if q.len() > 0 && is_expired(q[0].1, now) {
        lemma_expired_prefix_bound(q.drop_first(), now);
        assert forall|i: int| 0 <= i < expired_prefix(q, now) implies is_expired(
            #[trigger] q[i].1,
            now,
        ) by {
            if i > 0 {
                assert(q[i] == q.drop_first()[i - 1]);
            }
        }
    }
}

proof fn lemma_filter_all_kept(q: Seq<Entry>, id: u64)
    requires
        forall|i: int| 0 <= i < q.len() ==> q[i].0.id != id,
    ensures
        closed(q, id) == q,
    decreases q.len(),
{
    reveal_with_fuel(Seq::<_>::filter, 1);
    if q.len() > 0 {
        lemma_filter_all_kept(q.drop_last(), id);
        assert(q.drop_last().push(q.last()) =~= q);
    }
}

/// Dismissing a toast right after it was pushed (with room under the cap) restores
/// the queue as it was before the push.
pub proof fn lemma_close_undoes_push(q: Seq<Entry>, t: Toast, born: u64)
    requires
        q.len() < TOAST_CAP,
        ids_ordered(q, t.id),
    ensures
        closed(pushed(q, (t, born)), t.id) == q,
{
    let e: Entry = (t, born);
    reveal_with_fuel(Seq::<_>::filter, 1);
    assert(q.push(e).drop_last() =~= q);
    lemma_filter_all_kept(q, t.id);
}

/// A push keeps at most `TOAST_CAP` toasts, the new toast is the newest, and the
/// entries before it are the newest of the old queue.
pub proof fn lemma_push_bounded(q: Seq<Entry>, e: Entry)
    requires
        q.len() <= TOAST_CAP,
    ensures
        pushed(q, e).len() <= TOAST_CAP,
        pushed(q, e).len() >= 1,
        pushed(q, e).last() == e,
        q.len() < TOAST_CAP ==> pushed(q, e) == q.push(e),
        q.len() == TOAST_CAP ==> pushed(q, e) == q.drop_first().push(e),
{
    if q.len() == TOAST_CAP {
        assert(q.push(e).drop_first() =~= q.drop_first().push(e));
    }
}

/// A push keeps the queue invariant: with ids ordered below the new toast's id, the
/// pushed queue has ids ordered below the next id, at most `TOAST_CAP` entries, and
/// holds the newest entries of the old queue followed by the new toast.
pub proof fn lemma_push_keeps_order(q: Seq<Entry>, t: Toast, born: u64)
    requires
        q.len() <= TOAST_CAP,
        ids_ordered(q, t.id),
        t.id < u64::MAX,
    ensures
        ids_ordered(pushed(q, (t, born)), (t.id + 1) as u64),
        pushed(q, (t, born)).len() <= TOAST_CAP,
        pushed(q, (t, born)) == keep_last(q.push((t, born)), TOAST_CAP as nat),
{
    let e: Entry = (t, born);
    let r = pushed(q, e);
    lemma_push_bounded(q, e);
    if q.len() == TOAST_CAP {
        assert(r =~= q.push(e).skip(1));
        assert forall|i: int, j: int| 0 <= i < j < r.len() implies r[i].0.id < r[j].0.id by {
            assert(r[i] == q.push(e)[i + 1]);
            assert(r[j] == q.push(e)[j + 1]);
        }
    } else {
        assert forall|i: int, j: int| 0 <= i < j < r.len() implies r[i].0.id < r[j].0.id by {
            assert(r[i] == q.push(e)[i]);
            assert(r[j] == q.push(e)[j]);
        }
    }
    assert forall|i: int| 0 <= i < r.len() implies r[i].0.id < t.id + 1 by {
        if q.len() == TOAST_CAP {
            assert(r[i] == q.push(e)[i + 1]);
        } else {
            assert(r[i] == q.push(e)[i]);
        }
    }
}

/// Pruning twice at the same time removes nothing more than pruning once, and
/// after pruning the front toast (if any) has not expired.
pub proof fn lemma_prune_idempotent(q: Seq<Entry>, now: u64)
    ensures
        pruned(pruned(q, now), now) == pruned(q, now),
        pruned(q, now).len() > 0 ==> !is_expired(pruned(q, now)[0].1, now),
{
    lemma_expired_prefix_bound(q, now);
    let k = expired_prefix(q, now) as int;
    let p = pruned(q, now);
    if p.len() > 0 {
        assert(p[0] == q[k]);
    }
    assert(expired_prefix(p, now) == 0);
    assert(p.skip(0) =~= p);
}

/// The clean-up delay is never zero and never longer than the display time.
pub proof fn lemma_next_delay_bounds(q: Seq<Entry>, now: u64)
    ensures
        next_delay(q, now) matches Some(d) ==> 1 <= d <= TOAST_TTL_MS,
        next_delay(q, now) is None <==> q.len() == 0,
{
}

} // verus!
