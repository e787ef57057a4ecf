use vstd::prelude::*;

verus! {

/// The number of notifications a connection buffers before a publisher waits.
pub const CHANNEL_SUBSCRIPTION_BUFFER_SIZE: usize = 100;

/// The subscriptions of one connection: which ids are live, the next id to
/// hand out, and whether the connection's channel has closed.
pub struct Subscriptions {
    next_id: u32,
    active: Vec<u32>,
    closed: bool,
}

impl Subscriptions {
    /// The live subscription ids.
    pub closed spec fn ids(&self) -> Set<u32> {
        self.active@.to_set()
    }

    pub closed spec fn is_closed(&self) -> bool {
        self.closed
    }

    /// Every id handed out so far is below this one.
    pub closed spec fn next(&self) -> u32 {
        self.next_id
    }

    pub closed spec fn wf(&self) -> bool {
        &&& self.active@.no_duplicates()
        &&& forall|i: int| 0 <= i < self.active@.len() ==> self.active@[i] < self.next_id
        &&& self.closed ==> self.active@.len() == 0
    }

    pub fn new() -> (r: Self)
        ensures
            r.wf(),
            r.ids() == Set::<u32>::empty(),
            !r.is_closed(),
            r.next() == 0,
    {
        let r = Subscriptions { next_id: 0, active: Vec::new(), closed: false };
        proof {
            assert(r.active@ =~= Seq::<u32>::empty());
        }
        r
    }

    /// Registers a new subscription and gives its id, one never handed out
    /// before on this channel. `None` once the channel is closed or the ids
    /// are used up.
    pub fn new_subscription(&mut self) -> (r: Option<u32>)
        requires
            old(self).wf(),
        ensures
            final(self).wf(),
            final(self).is_closed() == old(self).is_closed(),
            (old(self).is_closed() || old(self).next() == u32::MAX) ==> {
                &&& r is None
                &&& final(self).ids() == old(self).ids()
                &&& final(self).next() == old(self).next()
            },
            !(old(self).is_closed() || old(self).next() == u32::MAX) ==> {
                &&& r == Some(old(self).next())
                &&& final(self).ids() == old(self).ids().insert(old(self).next())
                &&& final(self).next() == old(self).next() + 1
            },
            r matches Some(id) ==> !old(self).ids().contains(id),
    {
        if self.closed || self.next_id == u32::MAX {
            return None;
        }
        let id = self.next_id;
        proof {
            assert(!self.active@.contains(id));
        }
        self.active.push(id);
        self.next_id = id + 1;
        proof {
            assert(self.active@.to_set() =~= old(self).active@.to_set().insert(id)) by {
                assert forall|x: u32| self.active@.contains(x) <==> (old(self).active@.contains(x)
                    || x == id) by {
                    if self.active@.contains(x) {
                        let k = choose|k: int| 0 <= k < self.active@.len() && self.active@[k] == x;
                        if k < old(self).active@.len() {
                            assert(old(self).active@[k] == x);
                        }
                    }
                    if old(self).active@.contains(x) {
                        let k = choose|k: int|
                            0 <= k < old(self).active@.len() && old(self).active@[k] == x;
                        assert(self.active@[k] == x);
                    }
                    if x == id {
                        assert(self.active@[self.active@.len() - 1] == x);
                    }
                }
            }
        }
        Some(id)
    }

    /// Whether a notification for `id` is delivered: only while the id is live.
    pub fn is_active(&self, id: u32) -> (r: bool)
        requires
            self.wf(),
        ensures
            r == self.ids().contains(id),
    {
        let mut i: usize = 0;
        while i < self.active.len()
            invariant
                i <= self.active@.len(),
                forall|j: int| 0 <= j < i ==> self.active@[j] != id,
            decreases self.active@.len() - i,
        {
            if self.active[i] == id {
                proof {
                    assert(self.active@.contains(id));
                }
                return true;
            }
            i = i + 1;
        }
        false
    }

    /// Drops a subscription; later notifications for it are discarded.
    /// Returns whether it was live.
    pub fn remove(&mut self, id: u32) -> (r: bool)
        requires
            old(self).wf(),
        ensures
            final(self).wf(),
            r == old(self).ids().contains(id),
            final(self).ids() == old(self).ids().remove(id),
            final(self).is_closed() == old(self).is_closed(),
            final(self).next() == old(self).next(),
    {
        let mut i: usize = 0;
        while i < self.active.len()
            invariant
                self == old(self),
                self.wf(),
                i <= self.active@.len(),
                forall|j: int| 0 <= j < i ==> self.active@[j] != id,
            decreases self.active@.len() - i,
        {
            if self.active[i] == id {
                let ghost before = self.active@;
                self.active.remove(i);
                proof {
                    assert(before[i as int] == id);
                    assert(before.contains(id));
                    assert(before.no_duplicates());
                    assert(self.active@ =~= before.remove(i as int));
                    assert forall|a: int, b: int|
                        0 <= a < self.active@.len() && 0 <= b < self.active@.len() && a != b
                            implies self.active@[a] != self.active@[b] by {
                        let a2 = if a < i { a } else { a + 1 };
                        let b2 = if b < i { b } else { b + 1 };
                        assert(self.active@[a] == before[a2]);
                        assert(self.active@[b] == before[b2]);
                    }
                    assert forall|x: u32| self.active@.contains(x) <==> (before.contains(x) && x
                        != id) by {
                        if self.active@.contains(x) {
                            let k = choose|k: int| 0 <= k < self.active@.len() && self.active@[k] == x;
                            if k < i {
                                assert(before[k] == x);
                                assert(k != i);
                            } else {
                                assert(before[k + 1] == x);
                                assert(k + 1 != i);
                            }
                        }
                        if before.contains(x) && x != id {
                            let k = choose|k: int| 0 <= k < before.len() && before[k] == x;
                            if k < i {
                                assert(self.active@[k] == x);
                            } else {
                                assert(self.active@[k - 1] == x);
                            }
                        }
                    }
                    assert(self.active@.to_set() =~= before.to_set().remove(id));
                    assert forall|j: int| 0 <= j < self.active@.len() implies self.active@[j]
                        < self.next_id by {
                        if j < i {
                            assert(self.active@[j] == before[j]);
                        } else {
                            assert(self.active@[j] == before[j + 1]);
                        }
                    }
                }
                return true;
            }
            i = i + 1;
        }
        proof {
            assert(!self.active@.contains(id));
            assert(self.active@.to_set() =~= self.active@.to_set().remove(id));
        }
        false
    }

    /// Closes the channel: every subscription is dropped and none can be
    /// added. Closing again changes nothing.
    pub fn close(&mut self)
        requires
            old(self).wf(),
        ensures
            final(self).wf(),
            final(self).is_closed(),
            final(self).ids() == Set::<u32>::empty(),
            final(self).next() == old(self).next(),
    {
        self.closed = true;
        self.active = Vec::new();
        proof {
            assert(self.active@ =~= Seq::<u32>::empty());
            assert(self.active@.to_set() =~= Set::<u32>::empty());
        }
    }

    pub fn is_closed_now(&self) -> (r: bool)
        ensures
            r == self.is_closed(),
    {
        self.closed
    }
}

} // verus!
