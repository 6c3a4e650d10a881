use vstd::prelude::*;

verus! {

/// The set of ports held by live instances.
pub struct PortAllocator {
    used: Vec<u32>,
}

impl View for PortAllocator {
    type V = Set<u32>;

    closed spec fn view(&self) -> Set<u32> {
        self.used@.to_set()
    }
}

impl PortAllocator {
    /// Each port is held at most once.
    pub closed spec fn wf(&self) -> bool {
        self.used@.no_duplicates()
    }

    pub fn new() -> (r: PortAllocator)
        ensures
            r.wf(),
            r@ == Set::<u32>::empty(),
    {
        let r = PortAllocator { used: Vec::new() };
        assert(r.used@.to_set() =~= Set::<u32>::empty());
        r
    }

    /// Whether `port` is currently marked in use.
    pub fn is_allocated(&self, port: u32) -> (r: bool)
        ensures
            r == self@.contains(port),
    {
        let mut i: usize = 0;
        while i < self.used.len()
            invariant
                0 <= i <= self.used@.len(),
                forall|j: int| 0 <= j < i ==> self.used@[j] != port,
            decreases self.used@.len() - i,
        {
            if self.used[i] == port {
                assert(self.used@.contains(port));
                return true;
            }
            i = i + 1;
        }
        false
    }

    /// Marks `port` as in use; marking a port twice is harmless.
    pub fn allocate(&mut self, port: u32)
        requires
            old(self).wf(),
        ensures
            final(self).wf(),
            final(self)@ == old(self)@.insert(port),
    {
        if !self.is_allocated(port) {
            proof {
                self.used@.unique_seq_to_set();
            }
            self.used.push(port);
            assert(self.used@.to_set() =~= old(self)@.insert(port)) by {
                assert forall|p: u32| old(self).used@.contains(p) implies #[trigger] self.used@.contains(p) by {
                    let k = choose|k: int| 0 <= k < old(self).used@.len() && old(self).used@[k] == p;
                    assert(self.used@[k] == p);
                }
                assert(self.used@[self.used@.len() - 1] == port);
            }
        } else {
            assert(old(self)@.insert(port) =~= old(self)@);
        }
    }

    /// Frees `port`; freeing a port that is not in use is harmless.
    pub fn deallocate(&mut self, port: u32)
        requires
            old(self).wf(),
        ensures
            final(self).wf(),
            final(self)@ == old(self)@.remove(port),
    {
        let mut i: usize = 0;
        while i < self.used.len()
            invariant
                0 <= i <= self.used@.len(),
                self.used == old(self).used,
                self.used@.no_duplicates(),
                forall|j: int| 0 <= j < i ==> self.used@[j] != port,
            decreases self.used@.len() - i,
        {
            if self.used[i] == port {
                let ghost before = self.used@;
                self.used.remove(i);
                proof {
                    assert(self.used@ =~= before.remove(i as int));
                    assert forall|a: int, b: int| 0 <= a < b < self.used@.len() implies self.used@[a] != self.used@[b] by {
                        let a2 = if a < i { a } else { a + 1 };
                        let b2 = if b < i { b } else { b + 1 };
                        assert(self.used@[a] == before[a2]);
                        assert(self.used@[b] == before[b2]);
                        assert(before[a2] != before[b2]);
                    }
                    assert(self.used@.to_set() =~= old(self)@.remove(port)) by {
                        assert forall|p: u32| #[trigger] old(self)@.remove(port).contains(p) implies self.used@.contains(p) by {
                            let k = choose|k: int| 0 <= k < before.len() && before[k] == p;
                            if k < i {
                                assert(self.used@[k] == p);
                            } else {
                                assert(self.used@[k - 1] == p);
                            }
                        }
                        assert forall|p: u32| #[trigger] self.used@.contains(p) implies old(self)@.remove(port).contains(p) by {
                            let k = choose|k: int| 0 <= k < self.used@.len() && self.used@[k] == p;
                            let k2 = if k < i { k } else { k + 1 };
                            assert(before[k2] == p);
                            assert(before[k2] != before[i as int]);
                        }
                    }
                }
                return;
            }
            i = i + 1;
        }
        assert(!old(self).used@.contains(port));
        assert(old(self)@.remove(port) =~= old(self)@);
    }
}

} // verus!
