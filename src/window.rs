//! A rolling window of label counts: a label stays published while it was
//! seen within the last half hour.
use vstd::prelude::*;
use crate::metrics::WINDOW_SECONDS;
use crate::text::text_eq;

verus! {

/// One label with the time it was last seen and how often it was seen.
#[derive(Debug, Clone)]
pub struct WindowEntry {
    pub label: String,
    pub last_seen: u64,
    pub count: u64,
}

/// Label counts kept while each label keeps being seen; times are seconds on
/// a clock of the caller's choosing.
#[derive(Debug)]
pub struct RollingWindow {
    entries: Vec<WindowEntry>,
}

pub type EntryView = (Seq<char>, u64, u64);

pub open spec fn entry_view(e: WindowEntry) -> EntryView {
    (e.label@, e.last_seen, e.count)
}

/// Whether a label last seen at `last_seen` is still published at `now`.
pub open spec fn recent(last_seen: u64, now: u64) -> bool {
    now < last_seen + WINDOW_SECONDS
}

pub open spec fn unique_labels(s: Seq<EntryView>) -> bool {
    forall|i: int, j: int| 0 <= i < s.len() && 0 <= j < s.len() && i != j ==> (#[trigger] s[i]).0 != (#[trigger] s[j]).0
}

pub open spec fn has_label(s: Seq<EntryView>, label: Seq<char>) -> bool {
    exists|i: int| 0 <= i < s.len() && (#[trigger] s[i]).0 == label
}

/// The entries after `label` is seen at `now`: its count goes up by one
/// (saturating) and its time becomes `now`; a new label starts at one.
pub open spec fn bump_spec(s: Seq<EntryView>, label: Seq<char>, now: u64) -> Seq<EntryView> {
    if has_label(s, label) {
        let i = choose|i: int| 0 <= i < s.len() && (#[trigger] s[i]).0 == label;
        let c = s[i].2;
        s.update(i, (label, now, if c < u64::MAX { (c + 1) as u64 } else { c }))
    } else {
        s.push((label, now, 1u64))
    }
}

pub open spec fn keep_at(now: u64) -> spec_fn(EntryView) -> bool {
    |e: EntryView| recent(e.1, now)
}

/// The entries still published at `now`.
pub open spec fn prune_spec(s: Seq<EntryView>, now: u64) -> Seq<EntryView> {
    s.filter(keep_at(now))
}

pub open spec fn update_spec(s: Seq<EntryView>, label: Seq<char>, now: u64) -> Seq<EntryView> {
    prune_spec(bump_spec(s, label, now), now)
}

proof fn lemma_filter_from(s: Seq<EntryView>, p: spec_fn(EntryView) -> bool)
    ensures
        forall|k: int| 0 <= k < s.filter(p).len() ==> s.contains(#[trigger] s.filter(p)[k]) && p(s.filter(p)[k]),
    decreases s.len(),
{
    reveal(Seq::filter);
    if s.len() > 0 {
        lemma_filter_from(s.drop_last(), p);
        let f = s.filter(p);
        assert forall|k: int| 0 <= k < f.len() implies s.contains(#[trigger] f[k]) && p(f[k]) by {
            let sub = s.drop_last().filter(p);
            if k < sub.len() {
                assert(f[k] == sub[k]);
                let j = choose|j: int| 0 <= j < s.drop_last().len() && s.drop_last()[j] == sub[k];
                assert(s[j] == f[k]);
            } else {
                assert(f[k] == s.last());
                assert(s[s.len() - 1] == f[k]);
            }
        }
    }
}

proof fn lemma_bump_unique(s: Seq<EntryView>, label: Seq<char>, now: u64)
    requires
        unique_labels(s),
    ensures
        unique_labels(bump_spec(s, label, now)),
        forall|k: int| 0 <= k < bump_spec(s, label, now).len() && (#[trigger] bump_spec(s, label, now)[k]).0 == label
            ==> bump_spec(s, label, now)[k].1 == now,
        forall|k: int| 0 <= k < bump_spec(s, label, now).len() && (#[trigger] bump_spec(s, label, now)[k]).0 != label
            ==> s.contains(bump_spec(s, label, now)[k]),
{
    let b = bump_spec(s, label, now);
    if has_label(s, label) {
        let i = choose|i: int| 0 <= i < s.len() && (#[trigger] s[i]).0 == label;
        assert forall|k: int| 0 <= k < b.len() && (#[trigger] b[k]).0 != label implies s.contains(b[k]) by {
            assert(b[k] == s[k]);
        }
    } else {
        assert forall|k: int| 0 <= k < b.len() && (#[trigger] b[k]).0 != label implies s.contains(b[k]) by {
            assert(b[k] == s[k]);
        }
    }
}

impl RollingWindow {
    pub closed spec fn view(&self) -> Seq<EntryView> {
        self.entries@.map_values(|e: WindowEntry| entry_view(e))
    }

    /// Each label has one entry.
    pub open spec fn wf(&self) -> bool {
        unique_labels(self.view())
    }

    /// An empty window.
    pub fn new() -> (r: RollingWindow)
        ensures
            r.wf(),
            r.view() == Seq::<EntryView>::empty(),
    {
        let r = RollingWindow { entries: Vec::new() };
        assert(r.view() =~= Seq::<EntryView>::empty());
        r
    }

    /// Records that `label` was seen at `now`, then drops every label not
    /// seen within the window before `now`.
    pub fn update(&mut self, label: &str, now: u64)
        requires
            old(self).wf(),
        ensures
            final(self).wf(),
            final(self).view() == update_spec(old(self).view(), label@, now),
    {
        let ghost s0 = self.view();
        let n = self.entries.len();
        let mut i: usize = 0;
        let mut found = false;
        while i < n && !found
            invariant
                n == self.entries@.len(),
                s0 == self.view(),
                i <= n,
                forall|j: int| 0 <= j < i ==> (#[trigger] s0[j]).0 != label@,
                found ==> i < n && s0[i as int].0 == label@,
            decreases n - i + (if found { 0int } else { 1int }),
        {
            assert(s0[i as int] == entry_view(self.entries@[i as int]));
            if text_eq(self.entries[i].label.as_str(), label) {
                found = true;
            } else {
                i = i + 1;
            }
        }
        let mut bumped: Vec<WindowEntry> = Vec::new();
        let mut k: usize = 0;
        while k < n
            invariant
                n == self.entries@.len(),
                s0 == self.view(),
                k <= n,
                i <= n,
                found ==> i < n && s0[i as int].0 == label@,
                !found ==> i == n,
                forall|j: int| 0 <= j < i ==> (#[trigger] s0[j]).0 != label@,
                bumped@.len() == k,
                forall|j: int| 0 <= j < k ==> entry_view(#[trigger] bumped@[j]) == if found && j == i {
                    (label@, now, if s0[j].2 < u64::MAX { (s0[j].2 + 1) as u64 } else { s0[j].2 })
                } else {
                    s0[j]
                },
            decreases n - k,
        {
            let e = &self.entries[k];
            assert(s0[k as int] == entry_view(self.entries@[k as int]));
            let count = if found && k == i {
                if e.count < u64::MAX { e.count + 1 } else { e.count }
            } else {
                e.count
            };
            let seen = if found && k == i { now } else { e.last_seen };
            bumped.push(WindowEntry { label: e.label.clone(), last_seen: seen, count });
            k = k + 1;
        }
        if !found {
            bumped.push(WindowEntry { label: label.to_string(), last_seen: now, count: 1 });
        }
        let ghost b = bump_spec(s0, label@, now);
        let ghost bv = bumped@.map_values(|e: WindowEntry| entry_view(e));
        proof {
            if found {
                assert(has_label(s0, label@));
                let c = choose|c: int| 0 <= c < s0.len() && (#[trigger] s0[c]).0 == label@;
                assert(c == i);
                assert(bv =~= b);
            } else {
                assert(!has_label(s0, label@));
                assert(bv =~= b);
            }
            lemma_bump_unique(s0, label@, now);
        }
        let mut kept: Vec<WindowEntry> = Vec::new();
        let mut j: usize = 0;
        while j < bumped.len()
            invariant
                bv == bumped@.map_values(|e: WindowEntry| entry_view(e)),
                bv == b,
                unique_labels(b),
                j <= bumped@.len(),
                kept@.map_values(|e: WindowEntry| entry_view(e)) == prune_spec(b.subrange(0, j as int), now),
                unique_labels(kept@.map_values(|e: WindowEntry| entry_view(e))),
                forall|x: int| 0 <= x < kept@.len() ==> exists|y: int| 0 <= y < j && entry_view(#[trigger] kept@[x]) == b[y],
            decreases bumped@.len() - j,
        {
            let ghost kv0 = kept@.map_values(|e: WindowEntry| entry_view(e));
            let e = &bumped[j];
            assert(b[j as int] == entry_view(bumped@[j as int]));
            proof {
                reveal(Seq::filter);
                assert(b.subrange(0, j + 1).drop_last() =~= b.subrange(0, j as int));
                assert(b.subrange(0, j + 1).last() == b[j as int]);
            }
            let ghost kept0 = kept@;
            if now < e.last_seen || now - e.last_seen < WINDOW_SECONDS {
                kept.push(WindowEntry { label: e.label.clone(), last_seen: e.last_seen, count: e.count });
                let ghost kv = kept@.map_values(|e: WindowEntry| entry_view(e));
                proof {
                    assert(kv =~= kv0.push(b[j as int]));
                    assert forall|x: int, y: int| 0 <= x < kv.len() && 0 <= y < kv.len() && x != y
                        implies (#[trigger] kv[x]).0 != (#[trigger] kv[y]).0 by {
                        if x < kv0.len() && y < kv0.len() {
                            assert(kv[x] == kv0[x] && kv[y] == kv0[y]);
                        } else if x < kv0.len() {
                            assert(kept@[x] == kept0[x]);
                            let z = choose|z: int| 0 <= z < j && entry_view(#[trigger] kept0[x]) == b[z];
                            assert(kv[x] == b[z]);
                        } else {
                            assert(kept@[y] == kept0[y]);
                            let z = choose|z: int| 0 <= z < j && entry_view(#[trigger] kept0[y]) == b[z];
                            assert(kv[y] == b[z]);
                        }
                    }
                    assert forall|x: int| 0 <= x < kept@.len() implies exists|y: int| 0 <= y < j + 1 && entry_view(#[trigger] kept@[x]) == b[y] by {
                        if x < kv0.len() {
                            assert(kept@[x] == kept0[x]);
                            let z = choose|z: int| 0 <= z < j && entry_view(#[trigger] kept0[x]) == b[z];
                            assert(0 <= z < j + 1);
                        } else {
                            assert(entry_view(kept@[x]) == b[j as int]);
                        }
                    }
                }
            } else {
                proof {
                    assert forall|x: int| 0 <= x < kept@.len() implies exists|y: int| 0 <= y < j + 1 && entry_view(#[trigger] kept@[x]) == b[y] by {
                        let z = choose|z: int| 0 <= z < j && entry_view(#[trigger] kept@[x]) == b[z];
                        assert(0 <= z < j + 1);
                    }
                }
            }
            j = j + 1;
        }
        proof {
            assert(b.subrange(0, j as int) =~= b);
        }
        self.entries = kept;
    }

    /// The published label counts.
    pub fn published(&self) -> (r: Vec<(String, u64)>)
        ensures
            r@.len() == self.view().len(),
            forall|i: int| 0 <= i < r@.len() ==> (#[trigger] r@[i]).0@ == self.view()[i].0 && r@[i].1 == self.view()[i].2,
    {
        let mut r: Vec<(String, u64)> = Vec::new();
        let mut i: usize = 0;
        while i < self.entries.len()
            invariant
                i <= self.entries@.len(),
                r@.len() == i,
                forall|j: int| 0 <= j < i ==> (#[trigger] r@[j]).0@ == self.view()[j].0 && r@[j].1 == self.view()[j].2,
            decreases self.entries@.len() - i,
        {
            assert(self.view()[i as int] == entry_view(self.entries@[i as int]));
            r.push((self.entries[i].label.clone(), self.entries[i].count));
            i = i + 1;
        }
        r
    }
}

/// A label seen at `t0` and not seen again is gone after any update at a time
/// at least the window length later.
pub proof fn lemma_stale_label_pruned(s: Seq<EntryView>, label: Seq<char>, t0: u64, other: Seq<char>, t1: u64)
    requires
        unique_labels(s),
        other != label,
        t1 >= t0 + WINDOW_SECONDS,
    ensures
        !has_label(update_spec(update_spec(s, label, t0), other, t1), label),
{
    let b1 = bump_spec(s, label, t0);
    lemma_bump_unique(s, label, t0);
    let s1 = prune_spec(b1, t0);
    lemma_filter_from(b1, keep_at(t0));
    let b2 = bump_spec(s1, other, t1);
    let s2 = prune_spec(b2, t1);
    lemma_filter_from(b2, keep_at(t1));
    if has_label(s2, label) {
        let k = choose|k: int| 0 <= k < s2.len() && (#[trigger] s2[k]).0 == label;
        assert(s2.contains(s2[k]));
        assert(b2.contains(s2[k]));
        let k2 = choose|k2: int| 0 <= k2 < b2.len() && b2[k2] == s2[k];
        if has_label(s1, other) {
            let i = choose|i: int| 0 <= i < s1.len() && (#[trigger] s1[i]).0 == other;
            assert(k2 != i);
            assert(b2[k2] == s1[k2]);
        } else {
            assert(k2 < s1.len());
            assert(b2[k2] == s1[k2]);
        }
        assert(s1.contains(s1[k2]));
        let k3 = choose|k3: int| 0 <= k3 < b1.len() && b1[k3] == s1[k2];
        assert(b1[k3].1 == t0);
        assert(keep_at(t1)(s2[k]));
    }
}

} // verus!
