use vstd::prelude::*;
use crate::types::PeerId;

verus! {

/// The set of peers that a list of identities names.
pub open spec fn peer_set(s: Seq<PeerId>) -> Set<Seq<u8>> {
    Set::new(|p: Seq<u8>| exists|i: int| 0 <= i < s.len() && s[i]@ == p)
}

/// Whether a list of identities names each peer at most once.
pub open spec fn distinct_peers(s: Seq<PeerId>) -> bool {
    forall|i: int, j: int| 0 <= i < s.len() && 0 <= j < s.len() && i != j ==> s[i]@ != s[j]@
}

/// Position of `peer` in `s`, if it occurs there.
pub fn find_peer(s: &Vec<PeerId>, peer: &PeerId) -> (r: Option<usize>)
    ensures
        match r {
            Some(i) => i < s@.len() && s@[i as int]@ == peer@,
            None => !peer_set(s@).contains(peer@),
        },
{
    let mut i: usize = 0;
    while i < s.len()
        invariant
            i <= s@.len(),
            forall|j: int| 0 <= j < i ==> s@[j]@ != peer@,
        decreases s@.len() - i,
    {
        if s[i].same(peer) {
            return Some(i);
        }
        i = i + 1;
    }
    None
}

/// Adds each peer of `more` that `acc` does not hold yet.
pub fn merge_peers(acc: &mut Vec<PeerId>, more: Vec<PeerId>)
    requires
        distinct_peers(old(acc)@),
    ensures
        distinct_peers(final(acc)@),
        peer_set(final(acc)@) == peer_set(old(acc)@).union(peer_set(more@)),
{
    let mut more = more;
    let ghost all = more@;
    let ghost start = acc@;
    let total: usize = more.len();
    let mut taken: usize = 0;
    while more.len() > 0
        invariant
            distinct_peers(acc@),
            all.len() == total,
            taken + more@.len() == all.len(),
            more@ == all.subrange(taken as int, all.len() as int),
            peer_set(acc@) == peer_set(start).union(peer_set(all.subrange(0, taken as int))),
        decreases more@.len(),
    {
        let p = more.remove(0);
        let ghost before = acc@;
        assert(acc@.len() == before.len());
        assert(p == all[taken as int]);
        match find_peer(acc, &p) {
            Some(i) => {
                assert(acc@[i as int]@ == p@);
                assert(peer_set(acc@).contains(p@));
            },
            None => {
                acc.push(p);
                assert forall|i: int, j: int|
                    0 <= i < acc@.len() && 0 <= j < acc@.len() && i != j implies acc@[i]@
                    != acc@[j]@ by {
                    if i == before.len() as int {
                        if acc@[j]@ == p@ {
                            assert(peer_set(before).contains(p@));
                        }
                    } else if j == before.len() as int {
                        if acc@[i]@ == p@ {
                            assert(peer_set(before).contains(p@));
                        }
                    }
                };
            },
        }
        taken = taken + 1;
        assert(more@ =~= all.subrange(taken as int, all.len() as int));
        assert(peer_set(acc@) =~= peer_set(start).union(peer_set(all.subrange(0, taken as int))))
            by {
            let pre = all.subrange(0, taken as int - 1);
            let now = all.subrange(0, taken as int);
            assert forall|q: Seq<u8>| peer_set(now).contains(q) <==> (peer_set(pre).contains(q)
                || q == p@) by {
                if peer_set(now).contains(q) {
                    let k = choose|k: int| 0 <= k < now.len() && now[k]@ == q;
                    if k < taken as int - 1 {
                        assert(pre[k]@ == q);
                    }
                }
                if peer_set(pre).contains(q) {
                    let k = choose|k: int| 0 <= k < pre.len() && pre[k]@ == q;
                    assert(now[k]@ == q);
                }
                if q == p@ {
                    assert(now[taken as int - 1]@ == q);
                }
            };
            assert forall|q: Seq<u8>| peer_set(acc@).contains(q) <==> (peer_set(before).contains(q)
                || q == p@) by {
                if peer_set(acc@).contains(q) {
                    let k = choose|k: int| 0 <= k < acc@.len() && acc@[k]@ == q;
                    if k < before.len() {
                        assert(before[k]@ == q);
                    }
                }
                if peer_set(before).contains(q) {
                    let k = choose|k: int| 0 <= k < before.len() && before[k]@ == q;
                    assert(acc@[k]@ == q);
                }
                if q == p@ {
                    if acc@.len() > before.len() {
                        assert(acc@[before.len() as int]@ == q);
                    } else {
                        assert(peer_set(acc@).contains(q));
                    }
                }
            };
            assert(peer_set(before) == peer_set(start).union(peer_set(pre)));
            assert forall|q: Seq<u8>| peer_set(acc@).contains(q) <==> peer_set(start).union(
                peer_set(now),
            ).contains(q) by {
                assert(peer_set(before).contains(q) <==> (peer_set(start).contains(q)
                    || peer_set(pre).contains(q)));
            };
        };
    }
    assert(all.subrange(0, taken as int) =~= all);
}

/// Pending dials, one completion handle per peer.
pub struct DialTable<V> {
    entries: Vec<(PeerId, V)>,
    model: Ghost<Map<Seq<u8>, V>>,
}

impl<V> View for DialTable<V> {
    type V = Map<Seq<u8>, V>;

    closed spec fn view(&self) -> Map<Seq<u8>, V> {
        self.model@
    }
}

impl<V> DialTable<V> {
    /// The entries name each peer once, and are exactly what the view maps.
    pub closed spec fn wf(&self) -> bool {
        let e = self.entries@;
        &&& forall|i: int, j: int|
            0 <= i < e.len() && 0 <= j < e.len() && i != j ==> e[i].0@ != e[j].0@
        &&& forall|k: Seq<u8>|
            self.model@.contains_key(k) <==> exists|i: int| 0 <= i < e.len() && e[i].0@ == k
        &&& forall|i: int| 0 <= i < e.len() ==> self.model@[e[i].0@] == e[i].1
    }

    pub fn new() -> (r: DialTable<V>)
        ensures
            r.wf(),
            r@ == Map::<Seq<u8>, V>::empty(),
    {
        DialTable { entries: Vec::new(), model: Ghost(Map::empty()) }
    }

    fn position(&self, peer: &PeerId) -> (r: Option<usize>)
        requires
            self.wf(),
        ensures
            match r {
                Some(i) => i < self.entries@.len() && self.entries@[i as int].0@ == peer@,
                None => !self@.contains_key(peer@),
            },
    {
        let mut i: usize = 0;
        while i < self.entries.len()
            invariant
                self.wf(),
                i <= self.entries@.len(),
                forall|j: int| 0 <= j < i ==> self.entries@[j].0@ != peer@,
            decreases self.entries@.len() - i,
        {
            if self.entries[i].0.same(peer) {
                return Some(i);
            }
            i = i + 1;
        }
        None
    }

    /// Whether a dial to `peer` is pending.
    pub fn contains(&self, peer: &PeerId) -> (r: bool)
        requires
            self.wf(),
        ensures
            r == self@.contains_key(peer@),
    {
        match self.position(peer) {
            Some(_) => true,
            None => false,
        }
    }

    /// Records a pending dial; refuses, handing the value back, where one is
    /// already pending for the peer.
    pub fn insert(&mut self, peer: PeerId, v: V) -> (r: Result<(), V>)
        requires
            old(self).wf(),
        ensures
            final(self).wf(),
            match r {
                Ok(()) => !old(self)@.contains_key(peer@) && final(self)@ == old(self)@.insert(
                    peer@,
                    v,
                ),
                Err(w) => old(self)@.contains_key(peer@) && w == v && final(self)@ == old(self)@,
            },
    {
        if self.contains(&peer) {
            return Err(v);
        }
        let ghost k = peer@;
        let ghost before = self.entries@;
        self.model = Ghost(self.model@.insert(k, v));
        self.entries.push((peer, v));
        assert forall|q: Seq<u8>| self.model@.contains_key(q) <==> exists|i: int|
            0 <= i < self.entries@.len() && self.entries@[i].0@ == q by {
            if q == k {
                assert(self.entries@[before.len() as int].0@ == q);
            } else if self.model@.contains_key(q) {
                let i = choose|i: int| 0 <= i < before.len() && before[i].0@ == q;
                assert(self.entries@[i].0@ == q);
            } else {
                if exists|i: int| 0 <= i < self.entries@.len() && self.entries@[i].0@ == q {
                    let i = choose|i: int| 0 <= i < self.entries@.len() && self.entries@[i].0@ == q;
                    assert(before[i].0@ == q);
                }
            }
        };
        assert forall|i: int, j: int|
            0 <= i < self.entries@.len() && 0 <= j < self.entries@.len() && i != j implies
            self.entries@[i].0@ != self.entries@[j].0@ by {
            if i == before.len() as int {
                assert(before[j].0@ != k);
            } else if j == before.len() as int {
                assert(before[i].0@ != k);
            }
        };
        Ok(())
    }

    /// Takes out the pending dial to `peer`, if there is one.
    pub fn remove(&mut self, peer: &PeerId) -> (r: Option<V>)
        requires
            old(self).wf(),
        ensures
            final(self).wf(),
            r == old(self)@.get(peer@),
            final(self)@ == old(self)@.remove(peer@),
    {
        match self.position(peer) {
            None => {
                assert(self.model@.remove(peer@) =~= self.model@);
                None
            },
            Some(i) => {
                let ghost before = self.entries@;
                let ghost k = peer@;
                let (_, v) = self.entries.remove(i);
                self.model = Ghost(self.model@.remove(k));
                assert forall|q: Seq<u8>| self.model@.contains_key(q) <==> exists|j: int|
                    0 <= j < self.entries@.len() && self.entries@[j].0@ == q by {
                    if self.model@.contains_key(q) {
                        let j = choose|j: int| 0 <= j < before.len() && before[j].0@ == q;
                        assert(j != i as int);
                        if j < i as int {
                            assert(self.entries@[j].0@ == q);
                        } else {
                            assert(self.entries@[j - 1].0@ == q);
                        }
                    }
                    if exists|j: int| 0 <= j < self.entries@.len() && self.entries@[j].0@ == q {
                        let j = choose|j: int|
                            0 <= j < self.entries@.len() && self.entries@[j].0@ == q;
                        if j < i as int {
                            assert(before[j].0@ == q);
                            assert(q != k);
                        } else {
                            assert(before[j + 1].0@ == q);
                            assert(q != k);
                        }
                    }
                };
                assert forall|j: int| 0 <= j < self.entries@.len() implies self.model@[
                    self.entries@[j].0@] == self.entries@[j].1 by {
                    if j < i as int {
                        assert(before[j].0@ != k);
                    } else {
                        assert(before[j + 1].0@ != k);
                    }
                };
                Some(v)
            },
        }
    }
}

} // verus!
