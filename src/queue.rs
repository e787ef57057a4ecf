use std::collections::VecDeque;
use vstd::prelude::*;

verus! {

/// The responses of one connection that wait to be written, oldest first.
pub struct ResponseQueue<V> {
    items: VecDeque<V>,
}

impl<V> View for ResponseQueue<V> {
    type V = Seq<V>;

    closed spec fn view(&self) -> Seq<V> {
        self.items@
    }
}

/// One step of taking from a queue: the oldest value and what stays.
pub open spec fn pop_front_spec<V>(s: Seq<V>) -> (Option<V>, Seq<V>) {
    if s.len() == 0 {
        (None, s)
    } else {
        (Some(s[0]), s.drop_first())
    }
}

impl<V> ResponseQueue<V> {
    pub fn new() -> (r: Self)
        ensures
            r@ == Seq::<V>::empty(),
    {
        ResponseQueue { items: VecDeque::new() }
    }

    /// Adds a value behind all that wait.
    pub fn push(&mut self, v: V)
        ensures
            final(self)@ == old(self)@.push(v),
    {
        self.items.push_back(v);
    }

    /// Takes the oldest waiting value, if any.
    pub fn pop(&mut self) -> (r: Option<V>)
        ensures
            r == pop_front_spec(old(self)@).0,
            final(self)@ == pop_front_spec(old(self)@).1,
    {
        self.items.pop_front()
    }

    pub fn len(&self) -> (r: usize)
        ensures
            r == self@.len(),
    {
        self.items.len()
    }

    pub fn is_empty(&self) -> (r: bool)
        ensures
            r == (self@.len() == 0),
    {
        self.items.len() == 0
    }
}

/// The values taken from a queue holding `s` until it is empty, in order.
pub open spec fn take_all_spec<V>(s: Seq<V>) -> Seq<V>
    decreases s.len(),
{
    if s.len() == 0 {
        Seq::empty()
    } else {
        seq![pop_front_spec(s).0->0].add(take_all_spec(pop_front_spec(s).1))
    }
}

/// Values leave a queue in the order they were pushed: taking everything
/// from a queue gives back exactly what was pushed, in push order.
pub proof fn lemma_queue_keeps_order<V>(s: Seq<V>)
    ensures
        take_all_spec(s) == s,
    decreases s.len(),
{
    if s.len() > 0 {
        lemma_queue_keeps_order(s.drop_first());
        assert(s =~= seq![s[0]].add(s.drop_first()));
    } else {
        assert(s =~= Seq::<V>::empty());
    }
}

/// A value pushed later never leaves before one pushed earlier.
pub proof fn lemma_push_behind<V>(s: Seq<V>, v: V)
    ensures
        s.len() > 0 ==> pop_front_spec(s.push(v)) == (Some(s[0]), s.drop_first().push(v)),
        s.len() == 0 ==> pop_front_spec(s.push(v)).0 == Some(v),
{
    if s.len() > 0 {
        assert(s.push(v).drop_first() =~= s.drop_first().push(v));
    }
}

} // verus!
