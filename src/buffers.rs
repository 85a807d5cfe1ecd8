use vstd::prelude::*;

verus! {

/// Bookkeeping for buffers handed across the foreign-call boundary. Each
/// buffer is known by its address while it is out; it must come back exactly
/// once. Address zero stands for the null pointer and is never recorded.
pub struct BufferLedger {
    live: Vec<u64>,
    issued: u64,
    released: u64,
}

impl BufferLedger {
    /// The addresses of the buffers that are out.
    pub closed spec fn outstanding(&self) -> Set<u64> {
        self.live@.to_set()
    }

    pub closed spec fn issued_count(&self) -> nat {
        self.issued as nat
    }

    pub closed spec fn released_count(&self) -> nat {
        self.released as nat
    }

    /// Every buffer handed out is either still out or came back once.
    pub closed spec fn wf(&self) -> bool {
        &&& self.live@.no_duplicates()
        &&& !self.live@.contains(0)
        &&& self.issued as int == self.released as int + self.live@.len()
    }

    pub fn new() -> (r: BufferLedger)
        ensures
            r.wf(),
            r.outstanding() == Set::<u64>::empty(),
            r.issued_count() == 0,
            r.released_count() == 0,
    {
        let r = BufferLedger { live: Vec::new(), issued: 0, released: 0 };
        assert(r.live@.to_set() =~= Set::<u64>::empty());
        r
    }

    /// Records that the buffer at `addr` was handed out. Refused for the null
    /// address, for an address already out, and when the issue count is full.
    pub fn issue(&mut self, addr: u64) -> (r: bool)
        requires
            old(self).wf(),
        ensures
            final(self).wf(),
            r == (addr != 0 && !old(self).outstanding().contains(addr)
                && old(self).issued_count() < u64::MAX),
            r ==> final(self).outstanding() == old(self).outstanding().insert(addr),
            r ==> final(self).issued_count() == old(self).issued_count() + 1,
            !r ==> final(self).outstanding() == old(self).outstanding(),
            !r ==> final(self).issued_count() == old(self).issued_count(),
            final(self).released_count() == old(self).released_count(),
    {
        if addr == 0 || self.issued == u64::MAX {
            proof {
                if addr != 0 {
                    assert(self.issued_count() == u64::MAX);
                }
            }
            return false;
        }
        if self.position(addr).is_some() {
            return false;
        }
        let ghost before = self.live@;
        self.live.push(addr);
        self.issued = self.issued + 1;
        proof {
            assert(self.live@ == before.push(addr));
            before.lemma_push_to_set_commute(addr);
            assert(self.live@.no_duplicates()) by {
                assert forall|i: int, j: int|
                    0 <= i < self.live@.len() && 0 <= j < self.live@.len() && i != j implies
                    self.live@[i] != self.live@[j] by {
                    if i < before.len() && j < before.len() {
                    } else if i == before.len() {
                        assert(before.contains(before[j]));
                    } else {
                        assert(before.contains(before[i]));
                    }
                }
            }
            assert(!self.live@.contains(0)) by {
                if self.live@.contains(0) {
                    let k = choose|k: int| 0 <= k < self.live@.len() && self.live@[k] == 0;
                    if k < before.len() {
                        assert(before.contains(0));
                    }
                }
            }
        }
        true
    }

    /// Records that the buffer at `addr` came back. Only an address that is
    /// out is taken; the null address and any other are ignored, so a second
    /// release of one buffer does nothing.
    pub fn release(&mut self, addr: u64) -> (r: bool)
        requires
            old(self).wf(),
        ensures
            final(self).wf(),
            r == old(self).outstanding().contains(addr),
            final(self).outstanding() == old(self).outstanding().remove(addr),
            final(self).issued_count() == old(self).issued_count(),
            r ==> final(self).released_count() == old(self).released_count() + 1,
            !r ==> final(self).released_count() == old(self).released_count(),
    {
        match self.position(addr) {
            None => {
                proof {
                    assert(self.outstanding().remove(addr) =~= self.outstanding());
                }
                false
            },
            Some(i) => {
                let ghost before = self.live@;
                self.live.remove(i);
                self.released = self.released + 1;
                proof {
                    let after = self.live@;
                    assert(after == before.remove(i as int));
                    assert forall|a: u64| after.contains(a) <==> (before.contains(a) && a != addr) by {
                        if after.contains(a) {
                            let k = choose|k: int| 0 <= k < after.len() && after[k] == a;
                            if k < i {
                                assert(before[k] == a);
                                assert(before[i as int] == addr);
                            } else {
                                assert(before[k + 1] == a);
                                assert(before[i as int] == addr);
                            }
                        }
                        if before.contains(a) && a != addr {
                            let k = choose|k: int| 0 <= k < before.len() && before[k] == a;
                            if k < i {
                                assert(after[k] == a);
                            } else {
                                assert(k != i);
                                assert(after[k - 1] == a);
                            }
                        }
                    }
                    assert(after.to_set() =~= before.to_set().remove(addr));
                    assert(after.no_duplicates()) by {
                        assert forall|x: int, y: int|
                            0 <= x < after.len() && 0 <= y < after.len() && x != y implies
                            after[x] != after[y] by {
                            let bx = if x < i { x } else { x + 1 };
                            let by_ = if y < i { y } else { y + 1 };
                            assert(after[x] == before[bx]);
                            assert(after[y] == before[by_]);
                        }
                    }
                    assert(!after.contains(0)) by {
                        if after.contains(0) {
                            assert(before.contains(0));
                        }
                    }
                }
                true
            },
        }
    }

    /// The number of buffers that are out.
    pub fn outstanding_len(&self) -> (r: usize)
        requires
            self.wf(),
        ensures
            r == self.outstanding().len(),
    {
        proof {
            self.live@.unique_seq_to_set();
        }
        self.live.len()
    }

    pub fn issued(&self) -> (r: u64)
        ensures
            r == self.issued_count(),
    {
        self.issued
    }

    pub fn released(&self) -> (r: u64)
        ensures
            r == self.released_count(),
    {
        self.released
    }

    fn position(&self, addr: u64) -> (r: Option<usize>)
        ensures
            match r {
                Some(i) => i < self.live@.len() && self.live@[i as int] == addr,
                None => !self.live@.contains(addr),
            },
            r is Some <==> self.outstanding().contains(addr),
    {
        let mut i: usize = 0;
        while i < self.live.len()
            invariant
                i <= self.live@.len(),
                forall|k: int| 0 <= k < i ==> self.live@[k] != addr,
            decreases self.live@.len() - i,
        {
            if self.live[i] == addr {
                return Some(i);
            }
            i = i + 1;
        }
        None
    }
}

/// The counts balance: every buffer handed out is still out or was released
/// once, so when none is out, as many were released as were handed out.
pub proof fn lemma_ledger_balances(l: BufferLedger)
    requires
        l.wf(),
    ensures
        l.issued_count() == l.released_count() + l.outstanding().len(),
        l.outstanding().len() == 0 ==> l.issued_count() == l.released_count(),
{
    l.live@.unique_seq_to_set();
}

} // verus!
