use std::collections::VecDeque;
use vstd::prelude::*;

verus! {

/// A change that the control thread hands over to the editor's own thread.
/// `V` is the type of a parameter value or scale factor.
#[derive(Clone, Debug, PartialEq)]
pub enum Notification<V> {
    /// A parameter's normalized value changed.
    ValueChanged { id: String, normalized: V },
    /// A parameter's modulation offset changed.
    ModulationChanged { id: String, offset: V },
    /// Several parameter values changed at once; the editor rereads them all.
    ValuesChanged,
    /// The host asks the editor to render at a new scale.
    ScaleFactor(V),
}

/// One step of sending: `t` is appended unless `cap` items wait already.
pub open spec fn send_step<T>(s: Seq<T>, cap: nat, t: T) -> Seq<T> {
    if s.len() < cap {
        s.push(t)
    } else {
        s
    }
}

/// What waits after each of `items` was sent in turn, starting from `s`.
pub open spec fn send_all<T>(s: Seq<T>, cap: nat, items: Seq<T>) -> Seq<T>
    decreases items.len(),
{
    if items.len() == 0 {
        s
    } else {
        send_all(send_step(s, cap, items[0]), cap, items.drop_first())
    }
}

/// What the receiver takes out, in order, by receiving until nothing waits.
pub open spec fn receive_all<T>(s: Seq<T>) -> Seq<T>
    decreases s.len(),
{
    if s.len() == 0 {
        Seq::empty()
    } else {
        seq![s[0]] + receive_all(s.drop_first())
    }
}

/// A bounded first-in first-out handoff between one sender and one receiver.
/// Sending never blocks: when the queue is full the item is handed back.
pub struct NotificationQueue<T> {
    items: VecDeque<T>,
    capacity: usize,
}

impl<T> View for NotificationQueue<T> {
    type V = Seq<T>;

    closed spec fn view(&self) -> Seq<T> {
        self.items@
    }
}

impl<T> NotificationQueue<T> {
    /// The most items that may wait at once.
    pub closed spec fn cap(&self) -> nat {
        self.capacity as nat
    }

    pub closed spec fn wf(&self) -> bool {
        self.items@.len() <= self.capacity
    }

    /// An empty queue that holds at most `capacity` items.
    pub fn new(capacity: usize) -> (r: Self)
        ensures
            r.wf(),
            r@ == Seq::<T>::empty(),
            r.cap() == capacity,
    {
        NotificationQueue { items: VecDeque::new(), capacity }
    }

    pub fn capacity(&self) -> (r: usize)
        ensures
            r == self.cap(),
    {
        self.capacity
    }

    pub fn len(&self) -> (r: usize)
        requires
            self.wf(),
        ensures
            r == self@.len(),
    {
        self.items.len()
    }

    pub fn is_full(&self) -> (r: bool)
        requires
            self.wf(),
        ensures
            r == (self@.len() >= self.cap()),
    {
        self.items.len() >= self.capacity
    }

    /// Appends `t` behind what waits; hands it back when the queue is full.
    pub fn send(&mut self, t: T) -> (r: Result<(), T>)
        requires
            old(self).wf(),
        ensures
            final(self).wf(),
            final(self).cap() == old(self).cap(),
            final(self)@ == send_step(old(self)@, old(self).cap(), t),
            r is Ok <==> old(self)@.len() < old(self).cap(),
            r matches Err(x) ==> x == t,
    {
        if self.items.len() < self.capacity {
            self.items.push_back(t);
            Ok(())
        } else {
            Err(t)
        }
    }

    /// Takes out the item that has waited longest.
    pub fn receive(&mut self) -> (r: Option<T>)
        requires
            old(self).wf(),
        ensures
            final(self).wf(),
            final(self).cap() == old(self).cap(),
            old(self)@.len() == 0 ==> r is None && final(self)@ == old(self)@,
            old(self)@.len() > 0 ==> r == Some(old(self)@[0]) && final(self)@ == old(self)@.drop_first(),
    {
        self.items.pop_front()
    }

    /// Drops everything that waits.
    pub fn clear(&mut self)
        requires
            old(self).wf(),
        ensures
            final(self).wf(),
            final(self).cap() == old(self).cap(),
            final(self)@ == Seq::<T>::empty(),
    {
        self.items.clear();
    }

    /// Takes out everything that waits, oldest first.
    pub fn drain(&mut self) -> (r: Vec<T>)
        requires
            old(self).wf(),
        ensures
            final(self).wf(),
            final(self).cap() == old(self).cap(),
            final(self)@ == Seq::<T>::empty(),
            r@ == receive_all(old(self)@),
    {
        let mut out: Vec<T> = Vec::new();
        let ghost start = self@;
        while self.items.len() > 0
            invariant
                self.wf(),
                self.cap() == old(self).cap(),
                start == old(self)@,
                receive_all(start) == out@ + receive_all(self@),
            decreases self@.len(),
        {
            let ghost before = self@;
            let t = self.receive();
            match t {
                Some(x) => {
                    proof {
                        assert(receive_all(before) == seq![x] + receive_all(before.drop_first()));
                        assert(out@.push(x) + receive_all(self@) == out@ + (seq![x] + receive_all(self@)));
                    }
                    out.push(x);
                },
                None => {},
            }
        }
        proof {
            assert(receive_all(self@) == Seq::<T>::empty());
            assert(out@ + Seq::<T>::empty() == out@);
        }
        out
    }
}

/// Receiving everything that waits gives back exactly what waits.
pub proof fn lemma_receive_all_is_identity<T>(s: Seq<T>)
    ensures
        receive_all(s) == s,
    decreases s.len(),
{
    if s.len() > 0 {
        lemma_receive_all_is_identity(s.drop_first());
        assert(seq![s[0]] + s.drop_first() == s);
    }
}

/// Sending items that all fit appends them behind what waits, in order.
pub proof fn lemma_send_all_appends<T>(s: Seq<T>, cap: nat, items: Seq<T>)
    requires
        s.len() + items.len() <= cap,
    ensures
        send_all(s, cap, items) == s + items,
    decreases items.len(),
{
    if items.len() > 0 {
        lemma_send_all_appends(s.push(items[0]), cap, items.drop_first());
        assert(s.push(items[0]) + items.drop_first() == s + items);
    }
}

/// Order is kept across the handoff: when a run of notifications is sent to
/// an empty queue with room for all of them, the receiver takes them out in
/// the order in which they were sent, none lost and none added.
pub proof fn lemma_order_kept<T>(cap: nat, sent: Seq<T>)
    requires
        sent.len() <= cap,
    ensures
        receive_all(send_all(Seq::<T>::empty(), cap, sent)) == sent,
{
    lemma_send_all_appends(Seq::<T>::empty(), cap, sent);
    assert(Seq::<T>::empty() + sent == sent);
    lemma_receive_all_is_identity(sent);
}

} // verus!
