//! The MRU window priority queue: a mapping from window identity to (window
//! record, strictly increasing priority), read as a snapshot ordered from
//! most recently focused to least recently focused.

use vstd::prelude::*;
use crate::sway::subscribe::{SwayWindowId, Window, WindowEvent, WindowEventView, WindowView};

verus! {

/// The view of a `WindowPriority` entry.
#[verifier::ext_equal]
pub struct WindowPriorityView {
    pub window: WindowView,
    pub priority: u64,
}

/// One tracked window together with the priority it was last focused at.
#[derive(Debug)]
pub struct WindowPriority {
    pub window: Window,
    pub priority: u64,
}

impl View for WindowPriority {
    type V = WindowPriorityView;

    open spec fn view(&self) -> WindowPriorityView {
        WindowPriorityView { window: self.window@, priority: self.priority }
    }
}

impl DeepView for WindowPriority {
    type V = WindowPriorityView;

    open spec fn deep_view(&self) -> WindowPriorityView {
        self.view()
    }
}

impl Clone for WindowPriority {
    fn clone(&self) -> (res: Self)
        ensures
            res@ == self@,
    {
        let res = WindowPriority { window: self.window.clone(), priority: self.priority };
        proof {
            assert(res@ =~= self@);
        }
        res
    }
}

/// No two entries track the same window identity.
pub open spec fn unique_ids(s: Seq<WindowPriorityView>) -> bool {
    forall|i: int, j: int|
        0 <= i < j < s.len() ==> (#[trigger] s[i]).window.id != (#[trigger] s[j]).window.id
}

/// Priorities are strictly decreasing from front to back, so the front entry
/// is the most recently focused window.
pub open spec fn sorted_desc(s: Seq<WindowPriorityView>) -> bool {
    forall|i: int, j: int|
        0 <= i < j < s.len() ==> (#[trigger] s[i]).priority > (#[trigger] s[j]).priority
}

/// Every priority was assigned at or below the queue's high-water counter.
pub open spec fn bounded_by(s: Seq<WindowPriorityView>, hp: u64) -> bool {
    forall|i: int| 0 <= i < s.len() ==> (#[trigger] s[i]).priority <= hp
}

/// Well-formedness of the queue's contents.
pub open spec fn entries_wf(s: Seq<WindowPriorityView>, hp: u64) -> bool {
    unique_ids(s) && sorted_desc(s) && bounded_by(s, hp)
}

/// Keep every entry whose window identity differs from `id`.
pub open spec fn keep_other(id: SwayWindowId) -> spec_fn(WindowPriorityView) -> bool {
    |e: WindowPriorityView| e.window.id != id
}

/// The queue contents with any entry for `id` removed.
pub open spec fn remove_id(s: Seq<WindowPriorityView>, id: SwayWindowId) -> Seq<
    WindowPriorityView,
> {
    s.filter(keep_other(id))
}

/// The high-water counter after one event: focusing consumes one new
/// priority, closing consumes none.
pub open spec fn next_hp(hp: u64, ev: WindowEventView) -> u64 {
    if ev is Focus {
        (hp + 1) as u64
    } else {
        hp
    }
}

/// The queue contents after one event: a focus removes any entry for the
/// window and puts a fresh entry at the front with the next priority; a
/// close removes the entry for the identity if present and is otherwise a
/// no-op.
pub open spec fn apply_event(s: Seq<WindowPriorityView>, hp: u64, ev: WindowEventView) -> Seq<
    WindowPriorityView,
> {
    match ev {
        WindowEventView::Focus(w) => seq![
            WindowPriorityView { window: w, priority: (hp + 1) as u64 },
        ] + remove_id(s, w.id),
        WindowEventView::Close(id) => remove_id(s, id),
    }
}

/// The window records of the entries, in order.
pub open spec fn windows_of(s: Seq<WindowPriorityView>) -> Seq<WindowView> {
    Seq::new(s.len(), |i: int| s[i].window)
}

/// Removal keeps exactly the entries for other identities: every survivor
/// comes from the original contents, keeps its relative order, and no entry
/// for the removed identity survives.
pub proof fn lemma_remove_id_wf(s: Seq<WindowPriorityView>, id: SwayWindowId, hp: u64)
    requires
        entries_wf(s, hp),
    ensures
        entries_wf(remove_id(s, id), hp),
        forall|k: int|
            0 <= k < remove_id(s, id).len() ==> s.contains(#[trigger] remove_id(s, id)[k])
                && remove_id(s, id)[k].window.id != id,
    decreases s.len(),
{
    reveal(Seq::filter);
    let p = keep_other(id);
    let r = remove_id(s, id);
    broadcast use vstd::seq_lib::group_seq_properties;

    if s.len() == 0 {
    } else {
        let rest = s.drop_last();
        let last = s.last();
        assert(entries_wf(rest, hp)) by {
            assert(forall|i: int| 0 <= i < rest.len() ==> rest[i] == s[i]);
        }
        lemma_remove_id_wf(rest, id, hp);
        let rr = remove_id(rest, id);
        if p(last) {
            assert(r == rr.push(last));
            assert forall|k: int| 0 <= k < r.len() implies s.contains(#[trigger] r[k])
                && r[k].window.id != id by {
                if k < rr.len() {
                    assert(r[k] == rr[k]);
                    assert(rest.contains(rr[k]));
                    let j = choose|j: int| 0 <= j < rest.len() && rest[j] == rr[k];
                    assert(s[j] == rr[k]);
                } else {
                    assert(r[k] == last);
                    assert(s[s.len() - 1] == last);
                }
            }
            assert forall|i: int, j: int| 0 <= i < j < r.len() implies (#[trigger] r[i]).priority
                > (#[trigger] r[j]).priority && r[i].window.id != r[j].window.id by {
                if j < rr.len() {
                    assert(r[i] == rr[i] && r[j] == rr[j]);
                } else {
                    // `r[j]` is the original last element; `r[i]` sits in the
                    // filtered prefix, so it comes from an earlier index of `s`.
                    assert(r[i] == rr[i]);
                    assert(rest.contains(rr[i]));
                    let k = choose|k: int| 0 <= k < rest.len() && rest[k] == rr[i];
                    assert(s[k] == rr[i]);
                    assert(s[s.len() - 1] == last);
                }
            }
        } else {
            assert(r == rr);
        }
    }
}

/// Every entry of the original contents for another identity survives the
/// removal.
pub proof fn lemma_remove_id_keeps_others(s: Seq<WindowPriorityView>, id: SwayWindowId, i: int)
    requires
        0 <= i < s.len(),
        s[i].window.id != id,
    ensures
        remove_id(s, id).contains(s[i]),
{
    broadcast use Seq::lemma_filter_contains;

    assert(keep_other(id)(s[i]));
}

/// One step of a front-to-back removal pass: extending the prefix by one
/// element keeps it when its identity differs and drops it otherwise.
proof fn lemma_remove_id_take_step(s: Seq<WindowPriorityView>, id: SwayWindowId, i: int)
    requires
        0 <= i < s.len(),
    ensures
        remove_id(s.take(i + 1), id) == if keep_other(id)(s[i]) {
            remove_id(s.take(i), id).push(s[i])
        } else {
            remove_id(s.take(i), id)
        },
{
    reveal(Seq::filter);
    assert(s.take(i + 1).len() == i + 1);
    assert(s.take(i + 1).drop_last() =~= s.take(i));
    assert(s.take(i + 1).last() == s[i]);
}

/// Applying one event preserves well-formedness relative to the advanced
/// high-water counter.
pub proof fn lemma_apply_preserves_wf(s: Seq<WindowPriorityView>, hp: u64, ev: WindowEventView)
    requires
        entries_wf(s, hp),
        ev is Focus ==> hp < u64::MAX,
    ensures
        entries_wf(apply_event(s, hp, ev), next_hp(hp, ev)),
{
    match ev {
        WindowEventView::Focus(w) => {
            lemma_remove_id_wf(s, w.id, hp);
            let head = WindowPriorityView { window: w, priority: (hp + 1) as u64 };
            let r = apply_event(s, hp, ev);
            let tail = remove_id(s, w.id);
            assert(r[0] == head);
            assert(forall|k: int| 0 <= k < tail.len() ==> r[k + 1] == tail[k]);
            assert forall|i: int, j: int| 0 <= i < j < r.len() implies (#[trigger] r[i]).priority
                > (#[trigger] r[j]).priority && r[i].window.id != r[j].window.id by {
                if i > 0 {
                    assert(r[i] == tail[i - 1] && r[j] == tail[j - 1]);
                } else {
                    assert(r[j] == tail[j - 1]);
                    assert(s.contains(tail[j - 1]) && tail[j - 1].window.id != w.id);
                }
            }
            assert(bounded_by(r, next_hp(hp, ev))) by {
                assert(forall|k: int| 0 <= k < tail.len() ==> r[k + 1] == tail[k]);
            }
        },
        WindowEventView::Close(id) => {
            lemma_remove_id_wf(s, id, hp);
        },
    }
}

/// The MRU window queue. Created empty; mutated exclusively by applying
/// `Focus`/`Close` events in arrival order; read via an ordered snapshot.
#[derive(Debug)]
pub struct WindowQueue {
    entries: Vec<WindowPriority>,
    // Assumed big enough to never overflow over a daemon's lifetime.
    highest_priority: u64,
}

impl View for WindowQueue {
    type V = Seq<WindowPriorityView>;

    closed spec fn view(&self) -> Seq<WindowPriorityView> {
        self.entries.deep_view()
    }
}

impl Clone for WindowQueue {
    fn clone(&self) -> (res: Self)
        ensures
            res@ == self@,
            res.high_water() == self.high_water(),
    {
        let entries = self.entries.clone();
        proof {
            assert forall|i: int|
                0 <= i < entries.deep_view().len() implies entries.deep_view()[i]
                == self.entries.deep_view()[i] by {
                assert(cloned::<WindowPriority>(self.entries@[i], entries@[i]));
            }
            assert(entries.deep_view() =~= self.entries.deep_view());
        }
        WindowQueue { entries, highest_priority: self.highest_priority }
    }
}

impl WindowQueue {
    /// The current high-water priority counter.
    pub closed spec fn high_water(&self) -> u64 {
        self.highest_priority
    }

    /// The queue invariant: identities unique, entries ordered by strictly
    /// descending priority, all priorities at or below the counter.
    pub open spec fn wf(&self) -> bool {
        entries_wf(self@, self.high_water())
    }

    /// A new, empty queue.
    pub fn new() -> (q: WindowQueue)
        ensures
            q@ == Seq::<WindowPriorityView>::empty(),
            q.high_water() == 0,
            q.wf(),
    {
        let q = WindowQueue { entries: Vec::new(), highest_priority: 0 };
        proof {
            assert(q@ =~= Seq::<WindowPriorityView>::empty());
        }
        q
    }

    /// The highest priority assigned so far.
    pub fn highest_priority(&self) -> (r: u64)
        ensures
            r == self.high_water(),
    {
        self.highest_priority
    }

    /// Apply one domain event. Focusing a window inserts a fresh entry at
    /// the front, replacing any entry for the same identity wholesale;
    /// closing removes the entry for the identity if present and is
    /// otherwise a no-op.
    pub fn push_event(&mut self, event: WindowEvent)
        requires
            old(self).wf(),
            event@ is Focus ==> old(self).high_water() < u64::MAX,
        ensures
            final(self).wf(),
            final(self)@ == apply_event(old(self)@, old(self).high_water(), event@),
            final(self).high_water() == next_hp(old(self).high_water(), event@),
    {
        let ghost s0 = self@;
        let ghost hp0 = self.high_water();
        let ghost ev = event@;
        match event {
            WindowEvent::Focus(window) => {
                let ghost wv = window@;
                let id = window.id;
                self.highest_priority = self.highest_priority + 1;
                let mut out: Vec<WindowPriority> = Vec::new();
                out.push(WindowPriority { window, priority: self.highest_priority });
                let ghost head = WindowPriorityView { window: wv, priority: (hp0 + 1) as u64 };
                proof {
                    assert(out.deep_view() =~= seq![head] + remove_id(s0.take(0), wv.id));
                }
                let n = self.entries.len();
                let mut i: usize = 0;
                while i < n
                    invariant
                        n == self.entries.len(),
                        i <= n,
                        self.entries.deep_view() == s0,
                        wv.id == id,
                        out.deep_view() == seq![head] + remove_id(s0.take(i as int), wv.id),
                    decreases n - i,
                {
                    proof {
                        lemma_remove_id_take_step(s0, wv.id, i as int);
                        assert(s0[i as int] == self.entries@[i as int]@);
                    }
                    let keep = self.entries[i].window.id.0 != id.0;
                    proof {
                        assert(keep == keep_other(wv.id)(s0[i as int]));
                    }
                    if keep {
                        let ghost out0 = out.deep_view();
                        let e = self.entries[i].clone();
                        out.push(e);
                        proof {
                            assert(out.deep_view() =~= out0.push(s0[i as int]));
                            assert(out.deep_view() =~= seq![head] + remove_id(
                                s0.take(i + 1),
                                wv.id,
                            ));
                        }
                    }
                    i = i + 1;
                }
                self.entries = out;
                proof {
                    assert(s0.take(n as int) =~= s0);
                    assert(self@ == apply_event(s0, hp0, ev));
                    lemma_apply_preserves_wf(s0, hp0, ev);
                }
            },
            WindowEvent::Close(id) => {
                let mut out: Vec<WindowPriority> = Vec::new();
                proof {
                    assert(out.deep_view() =~= remove_id(s0.take(0), id));
                }
                let n = self.entries.len();
                let mut i: usize = 0;
                while i < n
                    invariant
                        n == self.entries.len(),
                        i <= n,
                        self.entries.deep_view() == s0,
                        out.deep_view() == remove_id(s0.take(i as int), id),
                    decreases n - i,
                {
                    proof {
                        lemma_remove_id_take_step(s0, id, i as int);
                        assert(s0[i as int] == self.entries@[i as int]@);
                    }
                    let keep = self.entries[i].window.id.0 != id.0;
                    proof {
                        assert(keep == keep_other(id)(s0[i as int]));
                    }
                    if keep {
                        let ghost out0 = out.deep_view();
                        let e = self.entries[i].clone();
                        out.push(e);
                        proof {
                            assert(out.deep_view() =~= out0.push(s0[i as int]));
                            assert(out.deep_view() =~= remove_id(s0.take(i + 1), id));
                        }
                    }
                    i = i + 1;
                }
                self.entries = out;
                proof {
                    assert(s0.take(n as int) =~= s0);
                    assert(self@ == apply_event(s0, hp0, ev));
                    lemma_apply_preserves_wf(s0, hp0, ev);
                }
            },
        }
    }

    /// The ordered snapshot: all tracked windows, most recently focused
    /// first. Does not mutate the queue.
    pub fn sorted_windows(&self) -> (r: Vec<Window>)
        ensures
            r.deep_view() == windows_of(self@),
    {
        let mut r: Vec<Window> = Vec::new();
        let n = self.entries.len();
        let mut i: usize = 0;
        proof {
            assert(r.deep_view() =~= windows_of(self@.take(0)));
        }
        while i < n
            invariant
                n == self.entries.len(),
                i <= n,
                self@ == self.entries.deep_view(),
                r.deep_view() == windows_of(self@.take(i as int)),
            decreases n - i,
        {
            proof {
                assert(self@[i as int] == self.entries@[i as int]@);
            }
            let ghost r0 = r.deep_view();
            let w = self.entries[i].window.clone();
            r.push(w);
            proof {
                assert(r.deep_view() =~= r0.push(self@[i as int].window));
                assert(r.deep_view() =~= windows_of(self@.take(i + 1)));
            }
            i = i + 1;
        }
        proof {
            assert(self@.take(n as int) =~= self@);
            assert(r.deep_view() == windows_of(self@));
        }
        r
    }
}

/// The number of priorities consumed by a sequence of events: one per focus.
pub open spec fn hp_after(events: Seq<WindowEventView>) -> int
    decreases events.len(),
{
    if events.len() == 0 {
        0
    } else {
        hp_after(events.drop_last()) + if events.last() is Focus {
            1int
        } else {
            0int
        }
    }
}

/// The queue contents after applying a sequence of events to an empty queue,
/// in arrival order.
pub open spec fn entries_after(events: Seq<WindowEventView>) -> Seq<WindowPriorityView>
    decreases events.len(),
{
    if events.len() == 0 {
        Seq::empty()
    } else {
        apply_event(
            entries_after(events.drop_last()),
            hp_after(events.drop_last()) as u64,
            events.last(),
        )
    }
}

/// The windows tracked after a sequence of events: each identity maps to the
/// record of its most recent focus, unless it was closed since.
pub open spec fn tracked_after(events: Seq<WindowEventView>) -> Map<SwayWindowId, WindowView>
    decreases events.len(),
{
    if events.len() == 0 {
        Map::empty()
    } else {
        let prev = tracked_after(events.drop_last());
        match events.last() {
            WindowEventView::Focus(w) => prev.insert(w.id, w),
            WindowEventView::Close(id) => prev.remove(id),
        }
    }
}

/// A sequence of events consumes at most one priority each.
pub proof fn lemma_hp_after_bounds(events: Seq<WindowEventView>)
    ensures
        0 <= hp_after(events) <= events.len(),
    decreases events.len(),
{
    if events.len() > 0 {
        lemma_hp_after_bounds(events.drop_last());
    }
}

/// For every sequence of focus/close events applied to an empty queue, the
/// resulting contents hold exactly the windows still tracked — each identity
/// at most once, mapped to its last-focused record — sorted by strictly
/// descending last-focus priority.
pub proof fn lemma_snapshot_tracks_events(events: Seq<WindowEventView>)
    requires
        events.len() <= u64::MAX,
    ensures
        entries_wf(entries_after(events), hp_after(events) as u64),
        forall|k: int|
            0 <= k < entries_after(events).len() ==> tracked_after(events).contains_key(
                (#[trigger] entries_after(events)[k]).window.id,
            ) && tracked_after(events)[entries_after(events)[k].window.id] == entries_after(
                events,
            )[k].window,
        forall|id: SwayWindowId|
            #[trigger] tracked_after(events).contains_key(id) ==> exists|k: int|
                0 <= k < entries_after(events).len() && (#[trigger] entries_after(
                    events,
                )[k]).window.id == id,
    decreases events.len(),
{
    if events.len() == 0 {
    } else {
        let pre = events.drop_last();
        let ev = events.last();
        lemma_snapshot_tracks_events(pre);
        lemma_hp_after_bounds(pre);
        let s = entries_after(pre);
        let t = tracked_after(pre);
        let hp = hp_after(pre) as u64;
        let s2 = entries_after(events);
        let t2 = tracked_after(events);
        assert(hp_after(pre) <= pre.len() < events.len() <= u64::MAX);
        lemma_apply_preserves_wf(s, hp, ev);
        assert(hp_after(events) as u64 == next_hp(hp, ev));
        match ev {
            WindowEventView::Focus(w) => {
                lemma_remove_id_wf(s, w.id, hp);
                let tail = remove_id(s, w.id);
                assert(s2 == seq![
                    WindowPriorityView { window: w, priority: (hp + 1) as u64 },
                ] + tail);
                assert forall|k: int| 0 <= k < s2.len() implies t2.contains_key(
                    (#[trigger] s2[k]).window.id,
                ) && t2[s2[k].window.id] == s2[k].window by {
                    if k == 0 {
                        assert(s2[0].window == w);
                    } else {
                        let e = s2[k];
                        assert(e == tail[k - 1]);
                        assert(s.contains(e) && e.window.id != w.id);
                        let j = choose|j: int| 0 <= j < s.len() && s[j] == e;
                        assert(t.contains_key(s[j].window.id));
                    }
                }
                assert forall|id: SwayWindowId| #[trigger] t2.contains_key(id) implies exists|
                    k: int,
                |
                    0 <= k < s2.len() && (#[trigger] s2[k]).window.id == id by {
                    if id == w.id {
                        assert(s2[0].window.id == id);
                    } else {
                        assert(t.contains_key(id));
                        let j = choose|j: int|
                            0 <= j < s.len() && (#[trigger] s[j]).window.id == id;
                        lemma_remove_id_keeps_others(s, w.id, j);
                        let k = choose|k: int| 0 <= k < tail.len() && tail[k] == s[j];
                        assert(s2[k + 1] == tail[k]);
                        assert(s2[k + 1].window.id == id);
                    }
                }
            },
            WindowEventView::Close(cid) => {
                lemma_remove_id_wf(s, cid, hp);
                assert(s2 == remove_id(s, cid));
                assert forall|k: int| 0 <= k < s2.len() implies t2.contains_key(
                    (#[trigger] s2[k]).window.id,
                ) && t2[s2[k].window.id] == s2[k].window by {
                    let e = s2[k];
                    assert(s.contains(e) && e.window.id != cid);
                    let j = choose|j: int| 0 <= j < s.len() && s[j] == e;
                    assert(t.contains_key(s[j].window.id));
                }
                assert forall|id: SwayWindowId| #[trigger] t2.contains_key(id) implies exists|
                    k: int,
                |
                    0 <= k < s2.len() && (#[trigger] s2[k]).window.id == id by {
                    assert(id != cid && t.contains_key(id));
                    let j = choose|j: int| 0 <= j < s.len() && (#[trigger] s[j]).window.id == id;
                    lemma_remove_id_keeps_others(s, cid, j);
                    let k = choose|k: int| 0 <= k < s2.len() && s2[k] == s[j];
                    assert(s2[k].window.id == id);
                }
            },
        }
    }
}

/// Re-focusing an already-tracked window moves it to the front with a fresh
/// highest priority and does not create a second entry for it.
pub proof fn lemma_refocus_moves_to_front(s: Seq<WindowPriorityView>, hp: u64, w: WindowView)
    requires
        entries_wf(s, hp),
        hp < u64::MAX,
        exists|k: int| 0 <= k < s.len() && (#[trigger] s[k]).window.id == w.id,
    ensures
        ({
            let r = apply_event(s, hp, WindowEventView::Focus(w));
            &&& r.len() >= 1
            &&& r[0].window == w
            &&& r[0].priority == hp + 1
            &&& forall|k: int| 1 <= k < r.len() ==> (#[trigger] r[k]).window.id != w.id
            &&& unique_ids(r)
        }),
{
    lemma_remove_id_wf(s, w.id, hp);
    lemma_apply_preserves_wf(s, hp, WindowEventView::Focus(w));
    let r = apply_event(s, hp, WindowEventView::Focus(w));
    let tail = remove_id(s, w.id);
    assert forall|k: int| 1 <= k < r.len() implies (#[trigger] r[k]).window.id != w.id by {
        assert(r[k] == tail[k - 1]);
    }
}

/// Closing a window identity that no entry tracks is a no-op: no error, and
/// no state change.
pub proof fn lemma_close_untracked_noop(s: Seq<WindowPriorityView>, hp: u64, id: SwayWindowId)
    requires
        forall|k: int| 0 <= k < s.len() ==> (#[trigger] s[k]).window.id != id,
    ensures
        apply_event(s, hp, WindowEventView::Close(id)) == s,
    decreases s.len(),
{
    reveal(Seq::filter);
    if s.len() == 0 {
        assert(remove_id(s, id) =~= s);
    } else {
        let rest = s.drop_last();
        assert(forall|k: int| 0 <= k < rest.len() ==> rest[k] == s[k]);
        lemma_close_untracked_noop(rest, hp, id);
        assert(keep_other(id)(s.last()));
        assert(remove_id(s, id) == remove_id(rest, id).push(s.last()));
        assert(rest.push(s.last()) =~= s);
    }
}

} // verus!
