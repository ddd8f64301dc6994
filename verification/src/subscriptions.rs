//! The registry of live subscriptions: for each session and subscription id,
//! the handle of the task that forwards the subscription's messages.

use vstd::prelude::*;

verus! {

/// A subscription's key: the id of the session that made it and the
/// subscription id handed to that session.
pub type SubscriptionKey = (u64, Seq<char>);

/// Live subscriptions, each with the handle of its forwarding task.
pub struct Subscriptions<H> {
    entries: Vec<(u64, String, H)>,
}

/// The key of one stored entry.
pub open spec fn entry_key<H>(e: (u64, String, H)) -> SubscriptionKey {
    (e.0, e.1@)
}

impl<H> Subscriptions<H> {
    /// No key is stored twice.
    #[verifier::type_invariant]
    closed spec fn wf(self) -> bool {
        forall|i: int, j: int|
            0 <= i < self.entries@.len() && 0 <= j < self.entries@.len() && i != j
                ==> entry_key(#[trigger] self.entries@[i]) != entry_key(#[trigger] self.entries@[j])
    }

    /// The handles by key.
    pub closed spec fn view(self) -> Map<SubscriptionKey, H> {
        Map::new(
            |k: SubscriptionKey| exists|i: int| 0 <= i < self.entries@.len() && entry_key(#[trigger] self.entries@[i]) == k,
            |k: SubscriptionKey|
                self.entries@[choose|i: int| 0 <= i < self.entries@.len() && entry_key(#[trigger] self.entries@[i]) == k].2,
        )
    }

    proof fn lemma_view_at(self, i: int)
        requires
            self.wf(),
            0 <= i < self.entries@.len(),
        ensures
            self.view().dom().contains(entry_key(self.entries@[i])),
            self.view()[entry_key(self.entries@[i])] == self.entries@[i].2,
    {
        let k = entry_key(self.entries@[i]);
        assert(exists|j: int| 0 <= j < self.entries@.len() && entry_key(#[trigger] self.entries@[j]) == k);
        let j = choose|j: int| 0 <= j < self.entries@.len() && entry_key(#[trigger] self.entries@[j]) == k;
        assert(i == j);
    }

    /// An empty registry.
    pub fn new() -> (s: Self)
        ensures
            s.view() == Map::<SubscriptionKey, H>::empty(),
    {
        let s = Subscriptions { entries: Vec::new() };
        assert(s.view() =~= Map::<SubscriptionKey, H>::empty());
        s
    }

    /// The position of the entry for `(session_id, id)`, if there is one.
    fn find(&self, session_id: u64, id: &str) -> (r: Option<usize>)
        ensures
            r matches Some(i) ==> i < self.entries@.len() && entry_key(self.entries@[i as int]) == (session_id, id@),
            r is None ==> forall|i: int| 0 <= i < self.entries@.len() ==> entry_key(#[trigger] self.entries@[i]) != (session_id, id@),
    {
        proof {
            use_type_invariant(self);
        }
        let mut i: usize = 0;
        while i < self.entries.len()
            invariant
                i <= self.entries@.len(),
                forall|j: int| 0 <= j < i ==> entry_key(#[trigger] self.entries@[j]) != (session_id, id@),
            decreases self.entries@.len() - i,
        {
            let e = &self.entries[i];
            if e.0 == session_id && same_text(e.1.as_str(), id) {
                return Some(i);
            }
            i = i + 1;
        }
        None
    }

    /// Records the subscription `(session_id, id)` with its handle. A handle
    /// already recorded under that key is replaced and given back.
    pub fn insert(&mut self, session_id: u64, id: String, handle: H) -> (r: Option<H>)
        ensures
            final(self).view() == old(self).view().insert((session_id, id@), handle),
            r == (if old(self).view().dom().contains((session_id, id@)) {
                Some(old(self).view()[(session_id, id@)])
            } else {
                None
            }),
    {
        proof {
            use_type_invariant(&*self);
        }
        let ghost k: SubscriptionKey = (session_id, id@);
        let ghost old_view = self.view();
        let previous = self.remove(session_id, id.as_str());
        proof {
            use_type_invariant(&*self);
        }
        let ghost mid_view = self.view();
        let ghost mid = self.entries@;
        assert(!mid_view.dom().contains(k));
        assert(forall|j: int| 0 <= j < mid.len() ==> entry_key(#[trigger] mid[j]) != k) by {
            assert forall|j: int| 0 <= j < mid.len() implies entry_key(#[trigger] mid[j]) != k by {
                if entry_key(mid[j]) == k {
                    assert(mid_view.dom().contains(k));
                }
            }
        }
        assert(forall|a: int, b: int|
            0 <= a < mid.len() && 0 <= b < mid.len() && a != b
                ==> entry_key(#[trigger] mid[a]) != entry_key(#[trigger] mid[b]));
        let mut entries = Vec::new();
        std::mem::swap(&mut entries, &mut self.entries);
        entries.push((session_id, id, handle));
        let ghost n = mid.len();
        assert(entries@ == mid.push((session_id, id, handle)));
        assert forall|a: int, b: int|
            0 <= a < entries@.len() && 0 <= b < entries@.len() && a != b
            implies entry_key(#[trigger] entries@[a]) != entry_key(#[trigger] entries@[b]) by {
            if a < n && b < n {
                assert(entries@[a] == mid[a] && entries@[b] == mid[b]);
            } else if a < n {
                assert(entries@[a] == mid[a]);
            } else {
                assert(entries@[b] == mid[b]);
            }
        }
        self.entries = entries;
        assert(self.wf());
        proof {
            self.lemma_view_at(n as int);
        }
        assert(self.view() =~= old_view.insert(k, handle)) by {
            assert forall|kk: SubscriptionKey| #[trigger] self.view().dom().contains(kk) <==> old_view.insert(k, handle).dom().contains(kk) by {
                if self.view().dom().contains(kk) && kk != k {
                    let j = choose|j: int| 0 <= j < self.entries@.len() && entry_key(#[trigger] self.entries@[j]) == kk;
                    assert(j != n);
                    assert(mid[j] == self.entries@[j]);
                    assert(mid_view.dom().contains(kk));
                }
                if old_view.insert(k, handle).dom().contains(kk) && kk != k {
                    assert(mid_view.dom().contains(kk));
                    let j = choose|j: int| 0 <= j < mid.len() && entry_key(#[trigger] mid[j]) == kk;
                    assert(self.entries@[j] == mid[j]);
                }
            }
            assert forall|kk: SubscriptionKey| #[trigger] self.view().dom().contains(kk) implies self.view()[kk] == old_view.insert(k, handle)[kk] by {
                if kk != k {
                    let j = choose|j: int| 0 <= j < self.entries@.len() && entry_key(#[trigger] self.entries@[j]) == kk;
                    self.lemma_view_at(j);
                    assert(j != n);
                    assert(mid[j] == self.entries@[j]);
                    assert(mid_view[kk] == mid[j].2) by {
                        let c = choose|c: int| 0 <= c < mid.len() && entry_key(#[trigger] mid[c]) == kk;
                        assert(c == j);
                    }
                }
            }
        }
        previous
    }

    /// Removes the subscription `(session_id, id)` and gives back its handle,
    /// or `None` where there is no such subscription.
    pub fn remove(&mut self, session_id: u64, id: &str) -> (r: Option<H>)
        ensures
            final(self).view() == old(self).view().remove((session_id, id@)),
            r == (if old(self).view().dom().contains((session_id, id@)) {
                Some(old(self).view()[(session_id, id@)])
            } else {
                None
            }),
    {
        proof {
            use_type_invariant(&*self);
        }
        let ghost k: SubscriptionKey = (session_id, id@);
        match self.find(session_id, id) {
            None => {
                assert(!self.view().dom().contains(k));
                assert(self.view() =~= self.view().remove(k));
                None
            },
            Some(i) => {
                let ghost old_entries = self.entries@;
                proof {
                    self.lemma_view_at(i as int);
                }
                let ghost old_view = self.view();
                assert(forall|a: int, b: int|
                    0 <= a < old_entries.len() && 0 <= b < old_entries.len() && a != b
                        ==> entry_key(#[trigger] old_entries[a]) != entry_key(#[trigger] old_entries[b]));
                let mut entries = Vec::new();
        std::mem::swap(&mut entries, &mut self.entries);
                let e = entries.swap_remove(i);
                let ghost n = old_entries.len();
                // `swap_remove` moved the last entry into position `i`.
                assert(forall|j: int| 0 <= j < entries@.len() ==> #[trigger] entries@[j] == (if j == i { old_entries[n - 1] } else { old_entries[j] }));
                assert forall|a: int, b: int|
                    0 <= a < entries@.len() && 0 <= b < entries@.len() && a != b
                    implies entry_key(#[trigger] entries@[a]) != entry_key(#[trigger] entries@[b]) by {
                    let oa = if a == i { n - 1 } else { a };
                    let ob = if b == i { n - 1 } else { b };
                    assert(entries@[a] == old_entries[oa]);
                    assert(entries@[b] == old_entries[ob]);
                }
                self.entries = entries;
                assert(self.wf());
                assert(self.view() =~= old_view.remove(k)) by {
                    assert forall|kk: SubscriptionKey| #[trigger] self.view().dom().contains(kk) <==> old_view.remove(k).dom().contains(kk) by {
                        if self.view().dom().contains(kk) {
                            let j = choose|j: int| 0 <= j < self.entries@.len() && entry_key(#[trigger] self.entries@[j]) == kk;
                            let oj = if j == i { n - 1 } else { j };
                            assert(old_entries[oj] == self.entries@[j]);
                            assert(entry_key(old_entries[oj]) == kk);
                            assert(oj != i);
                        }
                        if old_view.remove(k).dom().contains(kk) {
                            let oj = choose|j: int| 0 <= j < old_entries.len() && entry_key(#[trigger] old_entries[j]) == kk;
                            assert(oj != i);
                            let j = if oj == n - 1 { i as int } else { oj };
                            assert(self.entries@[j] == old_entries[oj]);
                            assert(entry_key(self.entries@[j]) == kk);
                        }
                    }
                    assert forall|kk: SubscriptionKey| #[trigger] self.view().dom().contains(kk) implies self.view()[kk] == old_view.remove(k)[kk] by {
                        let j = choose|j: int| 0 <= j < self.entries@.len() && entry_key(#[trigger] self.entries@[j]) == kk;
                        self.lemma_view_at(j);
                        let oj = if j == i { n - 1 } else { j };
                        assert(old_entries[oj] == self.entries@[j]);
                        assert(old_view[kk] == old_entries[oj].2) by {
                            let oc = choose|c: int| 0 <= c < old_entries.len() && entry_key(#[trigger] old_entries[c]) == kk;
                            assert(oc == oj);
                        }
                    }
                }
                Some(e.2)
            },
        }
    }
}

/// `str == str`: the two texts are equal.
#[verifier::external_body]
pub(crate) fn same_text(a: &str, b: &str) -> (r: bool)
    ensures
        r == (a@ == b@),
{
    a == b
}

/// A cancellation request from `session` for the subscription `id`: without
/// a session nothing is cancelled; otherwise the session's own subscription
/// under that id is removed and its handle given back.
pub fn unsubscribe<H>(subscriptions: &mut Subscriptions<H>, session: Option<u64>, id: &str) -> (r: Option<H>)
    ensures
        session is None ==> r is None && final(subscriptions).view() == old(subscriptions).view(),
        session matches Some(s) ==> {
            &&& final(subscriptions).view() == old(subscriptions).view().remove((s, id@))
            &&& r == (if old(subscriptions).view().dom().contains((s, id@)) {
                Some(old(subscriptions).view()[(s, id@)])
            } else {
                None
            })
        },
{
    match session {
        None => None,
        Some(session_id) => subscriptions.remove(session_id, id),
    }
}

/// A subscription recorded for a session can be cancelled by that session,
/// exactly once: cancelling gives back its handle, and a second cancellation
/// finds nothing.
pub proof fn lemma_cancel_after_subscribe<H>(m: Map<SubscriptionKey, H>, session_id: u64, id: Seq<char>, handle: H)
    ensures
        m.insert((session_id, id), handle).dom().contains((session_id, id)),
        m.insert((session_id, id), handle)[(session_id, id)] == handle,
        !m.insert((session_id, id), handle).remove((session_id, id)).dom().contains((session_id, id)),
        m.insert((session_id, id), handle).remove((session_id, id)) == m.remove((session_id, id)),
{
    assert(m.insert((session_id, id), handle).remove((session_id, id)) =~= m.remove((session_id, id)));
}

/// A session cannot cancel a subscription made by another session: after
/// session `owner` subscribes under `id`, a cancellation of `id` by session
/// `other` finds nothing unless `other` holds a subscription under `id` of its
/// own.
pub proof fn lemma_other_session_cannot_cancel<H>(
    m: Map<SubscriptionKey, H>,
    owner: u64,
    other: u64,
    id: Seq<char>,
    handle: H,
)
    requires
        owner != other,
        !m.dom().contains((other, id)),
    ensures
        !m.insert((owner, id), handle).dom().contains((other, id)),
        m.insert((owner, id), handle).remove((other, id)) == m.insert((owner, id), handle),
{
    assert(m.insert((owner, id), handle).remove((other, id)) =~= m.insert((owner, id), handle));
}

} // verus!
