//! The container registry: the set of runtime-assigned ids of the containers
//! this agent has successfully started and still tracks.  It is owned by the
//! orchestrator and mutated from a single execution context, so it needs no
//! internal synchronisation.  Its mathematical content is the set of tracked
//! ids.

use vstd::prelude::*;

verus! {

/// The registry holds each tracked id exactly once; its view is the set of
/// those ids.
pub struct Registry {
    ids: Vec<String>,
}

impl View for Registry {
    type V = Set<Seq<char>>;

    closed spec fn view(&self) -> Set<Seq<char>> {
        self.ids.deep_view().to_set()
    }
}

impl Registry {
    /// Well-formedness: no id occurs twice.  `new` establishes it and every
    /// mutating method preserves it.
    pub closed spec fn wf(&self) -> bool {
        forall|i: int, j: int|
            0 <= i < j < self.ids.deep_view().len() ==> self.ids.deep_view()[i]
                != self.ids.deep_view()[j]
    }

    pub fn new() -> (r: Registry)
        ensures
            r.wf(),
            r@ == Set::<Seq<char>>::empty(),
    {
        let r = Registry { ids: Vec::new() };
        proof {
            assert(r@ =~= Set::<Seq<char>>::empty());
        }
        r
    }

    /// Index of `id` in the backing vector, if present.
    fn index_of(&self, id: &String) -> (r: Option<usize>)
        ensures
            match r {
                Some(i) => i < self.ids.deep_view().len() && self.ids.deep_view()[i as int] == id@,
                None => !self@.contains(id@),
            },
    {
        let n = self.ids.len();
        for i in 0..n
            invariant
                n == self.ids@.len(),
                forall|j: int| 0 <= j < i ==> self.ids.deep_view()[j] != id@,
        {
            let hit = self.ids[i] == *id;
            proof {
                assert(self.ids.deep_view()[i as int] == self.ids@[i as int]@);
            }
            if hit {
                return Some(i);
            }
        }
        None
    }

    /// Whether `id` is currently tracked.
    pub fn contains(&self, id: &String) -> (r: bool)
        ensures
            r == self@.contains(id@),
    {
        match self.index_of(id) {
            Some(_) => true,
            None => false,
        }
    }

    /// Start tracking `id`.  Inserting an id that is already tracked leaves
    /// the registry unchanged.
    pub fn insert(&mut self, id: String)
        requires
            old(self).wf(),
        ensures
            final(self).wf(),
            final(self)@ == old(self)@.insert(id@),
    {
        if !self.contains(&id) {
            proof {
                let olds = old(self).ids.deep_view();
                assert(forall|j: int| 0 <= j < olds.len() ==> olds[j] != id@);
            }
            self.ids.push(id);
            proof {
                let olds = old(self).ids.deep_view();
                let news = self.ids.deep_view();
                assert(news.len() == olds.len() + 1);
                assert(forall|j: int| 0 <= j < olds.len() ==> news[j] == olds[j]);
                assert(news[olds.len() as int] == id@);
                assert forall|x: Seq<char>| news.contains(x) implies olds.contains(x) || x
                    == id@ by {
                    let k = choose|k: int| 0 <= k < news.len() && news[k] == x;
                    if k < olds.len() {
                        assert(olds[k] == x);
                    }
                }
                assert(self@ =~= old(self)@.insert(id@));
            }
        } else {
            proof {
                assert(old(self)@.contains(id@));
                assert(self@ =~= old(self)@.insert(id@));
            }
        }
    }

    /// Stop tracking `id`.  Removing an id that is not tracked leaves the
    /// registry unchanged.
    pub fn remove(&mut self, id: &String)
        requires
            old(self).wf(),
        ensures
            final(self).wf(),
            final(self)@ == old(self)@.remove(id@),
    {
        match self.index_of(id) {
            Some(i) => {
                self.ids.remove(i);
                proof {
                    let olds = old(self).ids.deep_view();
                    let news = self.ids.deep_view();
                    assert(news.len() == olds.len() - 1);
                    assert(forall|j: int| 0 <= j < i ==> news[j] == olds[j]);
                    assert(forall|j: int| i <= j < news.len() ==> news[j] == olds[j + 1]);
                    assert forall|x: Seq<char>| news.contains(x) implies olds.contains(x) && x
                        != id@ by {
                        let k = choose|k: int| 0 <= k < news.len() && news[k] == x;
                        if k < i {
                            assert(olds[k] == x);
                        } else {
                            assert(olds[k + 1] == x);
                        }
                    }
                    assert forall|x: Seq<char>| olds.contains(x) && x != id@ implies news.contains(
                        x,
                    ) by {
                        let k = choose|k: int| 0 <= k < olds.len() && olds[k] == x;
                        if k < i {
                            assert(news[k] == x);
                        } else if k > i {
                            assert(news[k - 1] == x);
                        }
                    }
                    assert(self@ =~= old(self)@.remove(id@));
                }
            },
            None => {
                proof {
                    assert(self@ =~= old(self)@.remove(id@));
                }
            },
        }
    }
}

} // verus!
