//! Bookkeeping of `Listen` subscribers: the daemon knows each one by an
//! identifier it hands out; the transport channels themselves live with the
//! socket server. A broadcast pass addresses every registered subscriber
//! exactly once, and those whose channel turned out broken are pruned
//! afterwards without disturbing the rest.

use vstd::prelude::*;

use crate::snapshot::lemma_filter_take_step;

verus! {

/// Every element of a filtered sequence comes from the sequence itself.
proof fn lemma_filter_members<A>(s: Seq<A>, pred: spec_fn(A) -> bool)
    ensures
        forall|i: int|
            0 <= i < s.filter(pred).len() ==> s.contains(#[trigger] s.filter(pred)[i]),
    decreases s.len(),
{
    reveal(Seq::filter);
    if s.len() > 0 {
        let d = s.drop_last();
        lemma_filter_members(d, pred);
        assert forall|i: int|
            0 <= i < s.filter(pred).len() implies s.contains(#[trigger] s.filter(pred)[i]) by {
            if i < d.filter(pred).len() {
                assert(d.contains(d.filter(pred)[i]));
                let k = choose|k: int| 0 <= k < d.len() && d[k] == d.filter(pred)[i];
                assert(s[k] == s.filter(pred)[i]);
            } else {
                assert(s.filter(pred)[i] == s.last());
                assert(s[s.len() - 1] == s.last());
            }
        }
    }
}

/// Filtering keeps distinct elements distinct.
proof fn lemma_filter_distinct(s: Seq<u64>, pred: spec_fn(u64) -> bool)
    requires
        forall|i: int, j: int| 0 <= i < j < s.len() ==> s[i] != s[j],
    ensures
        forall|i: int, j: int|
            0 <= i < j < s.filter(pred).len() ==> s.filter(pred)[i] != s.filter(pred)[j],
    decreases s.len(),
{
    reveal(Seq::filter);
    if s.len() > 0 {
        let d = s.drop_last();
        assert(forall|i: int, j: int| 0 <= i < j < d.len() ==> d[i] != d[j]);
        lemma_filter_distinct(d, pred);
        lemma_filter_members(d, pred);
        let f = s.filter(pred);
        let fd = d.filter(pred);
        assert forall|i: int, j: int| 0 <= i < j < f.len() implies f[i] != f[j] by {
            if j < fd.len() {
                assert(f[i] == fd[i] && f[j] == fd[j]);
            } else {
                assert(pred(s.last()) && f[j] == s.last() && i < fd.len());
                assert(d.contains(fd[i]));
                let k = choose|k: int| 0 <= k < d.len() && d[k] == fd[i];
                assert(s[k] == fd[i] && s[s.len() - 1] == s.last());
            }
        }
    }
}

/// Identifiers of the currently registered subscribers, in registration
/// order, each handed out once.
pub struct SubscriberRegistry {
    /// Registered subscriber identifiers.
    pub subs: Vec<u64>,
    /// Next identifier to hand out.
    pub next_id: u64,
}

impl SubscriberRegistry {
    /// Identifiers are unique and below the next one to be handed out.
    pub open spec fn wf(&self) -> bool {
        &&& forall|i: int| 0 <= i < self.subs@.len() ==> self.subs@[i] < self.next_id
        &&& forall|i: int, j: int|
            0 <= i < j < self.subs@.len() ==> self.subs@[i] != self.subs@[j]
    }

    /// An empty registry.
    pub fn new() -> (r: SubscriberRegistry)
        ensures
            r.wf(),
            r.subs@.len() == 0,
            r.next_id == 0,
    {
        SubscriberRegistry { subs: Vec::new(), next_id: 0 }
    }

    /// Register a new subscriber and hand out its fresh identifier.
    pub fn register(&mut self) -> (id: u64)
        requires
            old(self).wf(),
            old(self).next_id < u64::MAX,
        ensures
            final(self).wf(),
            id == old(self).next_id,
            final(self).subs@ == old(self).subs@.push(id),
            final(self).next_id == old(self).next_id + 1,
    {
        let id = self.next_id;
        self.subs.push(id);
        self.next_id = self.next_id + 1;
        id
    }

    /// How many subscribers a broadcast pass will address.
    pub fn count(&self) -> (r: usize)
        ensures
            r == self.subs@.len(),
    {
        self.subs.len()
    }

    /// The subscribers a broadcast pass delivers to: every registered one,
    /// once each, in registration order.
    pub fn targets(&self) -> (r: &Vec<u64>)
        ensures
            r@ == self.subs@,
    {
        &self.subs
    }

    /// Drop the subscribers whose delivery failed; everyone else stays, in
    /// order. This is the cleanup path for clients that disconnected
    /// without an explicit unsubscribe.
    pub fn prune_failed(&mut self, failed: &Vec<u64>)
        requires
            old(self).wf(),
        ensures
            final(self).wf(),
            final(self).subs@ == old(self).subs@.filter((|id: u64| !failed@.contains(id))),
            final(self).next_id == old(self).next_id,
    {
        let ghost orig = self.subs@;
        let ghost pred = (|id: u64| !failed@.contains(id));
        let mut kept: Vec<u64> = Vec::new();
        let mut i: usize = 0;
        while i < self.subs.len()
            invariant
                i <= self.subs@.len(),
                self.subs@ == orig,
                pred == (|id: u64| !failed@.contains(id)),
                kept@ == orig.take(i as int).filter(pred),
            decreases self.subs@.len() - i,
        {
            proof {
                lemma_filter_take_step(orig, i as int, pred);
            }
            let id = self.subs[i];
            if !contains_id(failed, id) {
                kept.push(id);
            }
            i = i + 1;
        }
        proof {
            assert(orig.take(orig.len() as int) =~= orig);
        }
        self.subs = kept;
        proof {
            lemma_filter_distinct(orig, pred);
            lemma_filter_members(orig, pred);
            assert forall|a: int|
                0 <= a < self.subs@.len() implies self.subs@[a] < self.next_id by {
                assert(orig.contains(self.subs@[a]));
                let k = choose|k: int| 0 <= k < orig.len() && orig[k] == self.subs@[a];
            }
        }
    }
}

fn contains_id(v: &Vec<u64>, id: u64) -> (r: bool)
    ensures
        r == v@.contains(id),
{
    let mut i: usize = 0;
    while i < v.len()
        invariant
            i <= v@.len(),
            forall|j: int| 0 <= j < i ==> v@[j] != id,
        decreases v@.len() - i,
    {
        if v[i] == id {
            proof {
                assert(v@[i as int] == id);
            }
            return true;
        }
        i = i + 1;
    }
    false
}

/// A subscriber that stays alive is never lost by pruning the failed ones:
/// whoever was registered and did not fail is still addressed by the next
/// broadcast pass.
pub proof fn lemma_prune_keeps_live(subs: Seq<u64>, failed: Seq<u64>, id: u64)
    requires
        subs.contains(id),
        !failed.contains(id),
    ensures
        subs.filter((|x: u64| !failed.contains(x))).contains(id),
{
    let pred = (|x: u64| !failed.contains(x));
    let i = choose|i: int| 0 <= i < subs.len() && subs[i] == id;
    assert(pred(subs[i]));
    subs.lemma_filter_contains(pred, i);
}

} // verus!
