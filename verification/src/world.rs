//! The world registry: a position-keyed collection.
//!
//! One `Grid` holds one layer of the world (plants, herbivores or
//! carnivores).  Its view is a finite map from positions to occupants,
//! and its well-formedness (`wf`) says that no two entries share a
//! position — within one layer, a cell holds at most one occupant.  The
//! layers are independent, so a herbivore and a carnivore may stand on
//! the same cell; that coincidence is exactly the predation condition.

use vstd::prelude::*;
use vstd::pervasive::unreached;

verus! {

/// One layer of the world: occupants of type `V`, keyed by position.
pub struct Grid<V> {
    entries: Vec<((i32, i32), V)>,
}

impl<V> View for Grid<V> {
    type V = Map<(i32, i32), V>;

    closed spec fn view(&self) -> Map<(i32, i32), V> {
        Map::new(
            |p: (i32, i32)| self.contains_pos(p),
            |p: (i32, i32)| self.entry_seq()[self.idx_of(p)].1,
        )
    }
}

impl<V> Grid<V> {
    /// The underlying sequence of (position, occupant) entries.
    pub closed spec fn entry_seq(self) -> Seq<((i32, i32), V)> {
        self.entries@
    }

    /// The positions of the entries, in storage order.
    pub open spec fn key_seq(self) -> Seq<(i32, i32)> {
        Seq::new(self.entry_seq().len(), |i: int| self.entry_seq()[i].0)
    }

    /// No two entries share a position.
    pub open spec fn wf(self) -> bool {
        self.key_seq().no_duplicates()
    }

    /// Some entry sits at position `p`.
    pub open spec fn contains_pos(self, p: (i32, i32)) -> bool {
        exists|i: int| 0 <= i < self.key_seq().len() && self.key_seq()[i] == p
    }

    /// The index of the entry at position `p` (meaningful when present).
    pub closed spec fn idx_of(self, p: (i32, i32)) -> int {
        choose|i: int| 0 <= i < self.key_seq().len() && self.key_seq()[i] == p
    }

    proof fn lemma_idx_of(self, p: (i32, i32))
        requires
            self.contains_pos(p),
        ensures
            0 <= self.idx_of(p) < self.key_seq().len(),
            self.key_seq()[self.idx_of(p)] == p,
    {
    }

    proof fn lemma_idx_is(self, p: (i32, i32), i: int)
        requires
            self.wf(),
            0 <= i < self.key_seq().len(),
            self.key_seq()[i] == p,
        ensures
            self.idx_of(p) == i,
    {
        self.lemma_idx_of(p);
    }

    /// The domain of the view is exactly the set of stored positions.
    pub proof fn lemma_dom(self)
        ensures
            forall|p: (i32, i32)| #[trigger] self@.dom().contains(p) <==> self.key_seq().contains(p),
    {
        assert forall|p: (i32, i32)| #[trigger] self@.dom().contains(p) <==> self.key_seq().contains(p) by {
            assert(self@.dom().contains(p) <==> self.contains_pos(p));
        }
    }

    /// A well-formed grid holds as many map entries as stored pairs.
    pub proof fn lemma_dom_len(self)
        requires
            self.wf(),
        ensures
            self@.dom().finite(),
            self@.dom().len() == self.key_seq().len(),
    {
        broadcast use vstd::seq_lib::seq_to_set_is_finite;

        self.lemma_dom();
        assert(self@.dom() =~= self.key_seq().to_set());
        self.key_seq().unique_seq_to_set();
    }

    /// The occupant stored at index `i` is the view's occupant of that
    /// entry's position.
    pub proof fn lemma_entry_view(self, i: int)
        requires
            self.wf(),
            0 <= i < self.entry_seq().len(),
        ensures
            self@.dom().contains(self.entry_seq()[i].0),
            self@[self.entry_seq()[i].0] == self.entry_seq()[i].1,
    {
        let p = self.entry_seq()[i].0;
        assert(self.key_seq()[i] == p);
        self.lemma_idx_is(p, i);
    }

    /// An empty layer.
    pub fn new() -> (g: Self)
        ensures
            g.wf(),
            g@ == Map::<(i32, i32), V>::empty(),
            g.key_seq() == Seq::<(i32, i32)>::empty(),
    {
        let g = Grid { entries: Vec::new() };
        proof {
            assert(g.key_seq() =~= Seq::<(i32, i32)>::empty());
            assert(g@ =~= Map::<(i32, i32), V>::empty());
        }
        g
    }

    /// How many occupants the layer holds.
    pub fn len(&self) -> (n: usize)
        ensures
            n == self.key_seq().len(),
    {
        self.entries.len()
    }

    /// The number of stored entries (equal to `len`; exposed for
    /// index-based traversal).
    pub fn num_entries(&self) -> (n: usize)
        ensures
            n == self.entry_seq().len(),
    {
        self.entries.len()
    }

    /// The entry at storage index `i`.
    pub fn entry(&self, i: usize) -> (e: ((i32, i32), &V))
        requires
            i < self.entry_seq().len(),
        ensures
            e.0 == self.entry_seq()[i as int].0,
            *e.1 == self.entry_seq()[i as int].1,
    {
        let pair = &self.entries[i];
        (pair.0, &pair.1)
    }

    /// Does position `p` hold an occupant?
    pub fn contains_key(&self, p: &(i32, i32)) -> (r: bool)
        ensures
            r == self@.dom().contains(*p),
    {
        let n = self.entries.len();
        for i in 0..n
            invariant
                n == self.entry_seq().len(),
                forall|j: int| 0 <= j < i ==> self.key_seq()[j] != *p,
        {
            let e = &self.entries[i];
            if e.0.0 == p.0 && e.0.1 == p.1 {
                proof {
                    assert(self.key_seq()[i as int] == *p);
                    assert(self.contains_pos(*p));
                }
                return true;
            }
        }
        proof {
            assert(!self.contains_pos(*p));
        }
        false
    }

    /// The occupant of position `p`, if any.
    pub fn get(&self, p: &(i32, i32)) -> (r: Option<&V>)
        requires
            self.wf(),
        ensures
            match r {
                Some(v) => self@.dom().contains(*p) && *v == self@[*p],
                None => !self@.dom().contains(*p),
            },
    {
        let n = self.entries.len();
        for i in 0..n
            invariant
                self.wf(),
                n == self.entry_seq().len(),
                forall|j: int| 0 <= j < i ==> self.key_seq()[j] != *p,
        {
            let e = &self.entries[i];
            if e.0.0 == p.0 && e.0.1 == p.1 {
                proof {
                    assert(self.key_seq()[i as int] == *p);
                    self.lemma_idx_is(*p, i as int);
                }
                return Some(&e.1);
            }
        }
        proof {
            assert(!self.contains_pos(*p));
        }
        None
    }

    /// The occupant of a position known to be occupied.
    pub fn get_req(&self, p: &(i32, i32)) -> (r: &V)
        requires
            self.wf(),
            self@.dom().contains(*p),
        ensures
            *r == self@[*p],
    {
        match self.get(p) {
            Some(v) => v,
            None => unreached(),
        }
    }

    /// Put `v` at position `p`, replacing any present occupant.
    pub fn insert(&mut self, p: (i32, i32), v: V)
        requires
            old(self).wf(),
        ensures
            final(self).wf(),
            final(self)@ == old(self)@.insert(p, v),
            final(self).key_seq() == if old(self)@.dom().contains(p) {
                old(self).key_seq()
            } else {
                old(self).key_seq().push(p)
            },
    {
        proof {
            old(self).lemma_dom();
        }
        let n = self.entries.len();
        for i in 0..n
            invariant
                self.wf(),
                self == old(self),
                n == self.entry_seq().len(),
                forall|j: int| 0 <= j < i ==> self.key_seq()[j] != p,
        {
            let e = &self.entries[i];
            if e.0.0 == p.0 && e.0.1 == p.1 {
                proof {
                    assert(self.key_seq()[i as int] == p);
                    assert(old(self).contains_pos(p));
                }
                self.entries.set(i, (p, v));
                proof {
                    assert(self.key_seq() =~= old(self).key_seq());
                    self.lemma_idx_is(p, i as int);
                    assert forall|q: (i32, i32)| self.contains_pos(q) <==> old(self).contains_pos(q) by {
                        assert forall|j: int| 0 <= j < self.key_seq().len() implies
                            self.key_seq()[j] == old(self).key_seq()[j] by {}
                    }
                    assert forall|q: (i32, i32)| #[trigger] old(self)@.insert(p, v).dom().contains(q) && q != p implies
                        self@[q] == old(self)@[q] by {
                        old(self).lemma_idx_of(q);
                        let j = old(self).idx_of(q);
                        assert(self.key_seq()[j] == q);
                        self.lemma_idx_is(q, j);
                    }
                    assert(self@ =~= old(self)@.insert(p, v));
                }
                return ;
            }
        }
        proof {
            assert(!old(self).contains_pos(p));
        }
        self.entries.push((p, v));
        proof {
            assert(self.key_seq() =~= old(self).key_seq().push(p));
            let m = self.key_seq().len() - 1;
            assert(self.key_seq()[m] == p);
            assert(self.wf());
            self.lemma_idx_is(p, m);
            assert forall|q: (i32, i32)| #[trigger] old(self)@.insert(p, v).dom().contains(q) && q != p implies
                self@.dom().contains(q) && self@[q] == old(self)@[q] by {
                old(self).lemma_idx_of(q);
                let j = old(self).idx_of(q);
                assert(self.key_seq()[j] == q);
                self.lemma_idx_is(q, j);
            }
            assert forall|q: (i32, i32)| #[trigger] self@.dom().contains(q) implies
                old(self)@.insert(p, v).dom().contains(q) by {
                let j = self.idx_of(q);
                self.lemma_idx_of(q);
                if j < m {
                    assert(old(self).key_seq()[j] == q);
                }
            }
            assert(self@ =~= old(self)@.insert(p, v));
        }
    }

    /// Remove and return the occupant of position `p`, if any.
    pub fn remove(&mut self, p: &(i32, i32)) -> (r: Option<V>)
        requires
            old(self).wf(),
        ensures
            final(self).wf(),
            final(self)@ == old(self)@.remove(*p),
            match r {
                Some(v) => old(self)@.dom().contains(*p) && v == old(self)@[*p]
                    && final(self).key_seq().len() == old(self).key_seq().len() - 1,
                None => !old(self)@.dom().contains(*p) && *final(self) == *old(self),
            },
    {
        proof {
            old(self).lemma_dom();
        }
        let n = self.entries.len();
        for i in 0..n
            invariant
                self.wf(),
                self == old(self),
                n == self.entry_seq().len(),
                forall|j: int| 0 <= j < i ==> self.key_seq()[j] != *p,
        {
            let e = &self.entries[i];
            if e.0.0 == p.0 && e.0.1 == p.1 {
                proof {
                    assert(self.key_seq()[i as int] == *p);
                    assert(old(self).contains_pos(*p));
                    old(self).lemma_idx_is(*p, i as int);
                }
                let pair = self.entries.remove(i);
                proof {
                    let old_keys = old(self).key_seq();
                    assert(self.key_seq() =~= old_keys.remove(i as int));
                    assert forall|a: int, b: int| 0 <= a < b < self.key_seq().len() implies
                        self.key_seq()[a] != self.key_seq()[b] by {
                        let oa = if a < i as int { a } else { a + 1 };
                        let ob = if b < i as int { b } else { b + 1 };
                        assert(self.key_seq()[a] == old_keys[oa]);
                        assert(self.key_seq()[b] == old_keys[ob]);
                    }
                    assert(self.wf());
                    assert forall|q: (i32, i32)| #[trigger] old(self)@.remove(*p).dom().contains(q) implies
                        self@.dom().contains(q) && self@[q] == old(self)@[q] by {
                        old(self).lemma_idx_of(q);
                        let j = old(self).idx_of(q);
                        let nj = if j < i as int { j } else { j - 1 };
                        assert(old(self).key_seq()[j] == q);
                        assert(self.key_seq()[nj] == q);
                        self.lemma_idx_is(q, nj);
                    }
                    assert forall|q: (i32, i32)| #[trigger] self@.dom().contains(q) implies
                        old(self)@.remove(*p).dom().contains(q) by {
                        self.lemma_idx_of(q);
                        let j = self.idx_of(q);
                        let oj = if j < i as int { j } else { j + 1 };
                        assert(old(self).key_seq()[oj] == q);
                        if q == *p {
                            assert(old(self).key_seq()[i as int] == *p);
                        }
                    }
                    assert(self@ =~= old(self)@.remove(*p));
                }
                return Some(pair.1);
            }
        }
        proof {
            assert(!old(self).contains_pos(*p));
            assert(self@ =~= old(self)@.remove(*p));
        }
        None
    }

    /// Within one well-formed layer no two occupants ever share a
    /// position: any two distinct entries sit on distinct cells.
    pub proof fn lemma_unique_positions(self)
        requires
            self.wf(),
        ensures
            forall|i: int, j: int| 0 <= i < j < self.key_seq().len()
                ==> self.key_seq()[i] != self.key_seq()[j],
    {
    }

    /// A snapshot of all occupied positions, in storage order.
    pub fn keys(&self) -> (ks: Vec<(i32, i32)>)
        ensures
            ks@ == self.key_seq(),
    {
        let n = self.entries.len();
        let mut ks: Vec<(i32, i32)> = Vec::new();
        for i in 0..n
            invariant
                n == self.entry_seq().len(),
                ks@.len() == i,
                forall|j: int| 0 <= j < i ==> ks@[j] == self.key_seq()[j],
        {
            ks.push(self.entries[i].0);
        }
        proof {
            assert(ks@ =~= self.key_seq());
        }
        ks
    }
}

} // verus!
