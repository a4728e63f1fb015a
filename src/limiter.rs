//! A counting admission gate that bounds how many forwarding operations run
//! at once. Requests that find every slot taken wait in arrival order, and a
//! released slot goes straight to the oldest waiter.
use vstd::prelude::*;

verus! {

/// The answer to a request for a slot.
#[derive(PartialEq, Eq, Structural, Clone, Copy, Debug)]
pub enum Admission {
    /// A slot was free and now belongs to the ticket.
    Admitted(u64),
    /// Every slot is taken; the ticket waits its turn.
    Queued(u64),
}

pub struct Limiter {
    max: usize,
    active: usize,
    waiting: Vec<u64>,
    next_ticket: u64,
}

impl Limiter {
    /// The number of slots.
    pub closed spec fn slots(&self) -> nat {
        self.max as nat
    }

    /// The number of slots held now.
    pub closed spec fn held(&self) -> nat {
        self.active as nat
    }

    /// The tickets waiting for a slot, oldest first.
    pub closed spec fn queue(&self) -> Seq<u64> {
        self.waiting@
    }

    /// The ticket the next request will get.
    pub closed spec fn next(&self) -> nat {
        self.next_ticket as nat
    }

    /// Never more slots held than there are; nobody waits while a slot is
    /// free; waiting tickets are distinct, in the order they were issued.
    pub closed spec fn wf(&self) -> bool {
        &&& self.active <= self.max
        &&& self.waiting@.len() > 0 ==> self.active == self.max
        &&& forall|i: int, j: int|
            0 <= i < j < self.waiting@.len() ==> self.waiting@[i] < self.waiting@[j]
        &&& forall|i: int| 0 <= i < self.waiting@.len() ==> self.waiting@[i] < self.next_ticket
    }

    /// A gate with `max` slots, none held.
    pub fn new(max: usize) -> (r: Limiter)
        ensures
            r.wf(),
            r.slots() == max,
            r.held() == 0,
            r.queue().len() == 0,
            r.next() == 0,
    {
        Limiter { max, active: 0, waiting: Vec::new(), next_ticket: 0 }
    }

    /// The number of slots.
    pub fn capacity(&self) -> (r: usize)
        ensures
            r == self.slots(),
    {
        self.max
    }

    /// The number of slots held now.
    pub fn in_use(&self) -> (r: usize)
        ensures
            r == self.held(),
    {
        self.active
    }

    /// The number of requests waiting for a slot.
    pub fn waiters(&self) -> (r: usize)
        ensures
            r == self.queue().len(),
    {
        self.waiting.len()
    }

    /// Whether another ticket can still be issued.
    pub fn can_issue(&self) -> (r: bool)
        ensures
            r == (self.next() < u64::MAX),
    {
        self.next_ticket < u64::MAX
    }

    /// Asks for a slot under a new ticket: admitted at once when a slot is
    /// free, else queued behind every earlier waiter.
    pub fn acquire(&mut self) -> (r: Admission)
        requires
            old(self).wf(),
            old(self).next() < u64::MAX,
        ensures
            final(self).wf(),
            final(self).slots() == old(self).slots(),
            final(self).next() == old(self).next() + 1,
            old(self).held() < old(self).slots() ==> {
                &&& r == Admission::Admitted(old(self).next() as u64)
                &&& final(self).held() == old(self).held() + 1
                &&& final(self).queue() == old(self).queue()
            },
            old(self).held() >= old(self).slots() ==> {
                &&& r == Admission::Queued(old(self).next() as u64)
                &&& final(self).held() == old(self).held()
                &&& final(self).queue() == old(self).queue().push(old(self).next() as u64)
            },
    {
        let t = self.next_ticket;
        self.next_ticket = t + 1;
        if self.active < self.max {
            self.active = self.active + 1;
            Admission::Admitted(t)
        } else {
            self.waiting.push(t);
            Admission::Queued(t)
        }
    }

    /// Gives a held slot back. When someone waits, the slot passes to the
    /// oldest waiter, whose ticket is returned; otherwise it becomes free.
    pub fn release(&mut self) -> (r: Option<u64>)
        requires
            old(self).wf(),
            old(self).held() > 0,
        ensures
            final(self).wf(),
            final(self).slots() == old(self).slots(),
            final(self).next() == old(self).next(),
            old(self).queue().len() > 0 ==> {
                &&& r == Some(old(self).queue()[0])
                &&& final(self).held() == old(self).held()
                &&& final(self).queue() == old(self).queue().drop_first()
            },
            old(self).queue().len() == 0 ==> {
                &&& r == None::<u64>
                &&& final(self).held() == old(self).held() - 1
                &&& final(self).queue() == old(self).queue()
            },
    {
        if self.waiting.len() > 0 {
            let t = self.waiting.remove(0);
            proof {
                assert(self.waiting@ =~= old(self).waiting@.drop_first());
            }
            Some(t)
        } else {
            self.active = self.active - 1;
            None
        }
    }

    /// A waiter gives up before it got a slot. Returns whether `ticket` was
    /// waiting; it no longer is.
    pub fn withdraw(&mut self, ticket: u64) -> (r: bool)
        requires
            old(self).wf(),
        ensures
            final(self).wf(),
            final(self).slots() == old(self).slots(),
            final(self).held() == old(self).held(),
            final(self).next() == old(self).next(),
            r == old(self).queue().contains(ticket),
            r ==> exists|i: int|
                0 <= i < old(self).queue().len() && old(self).queue()[i] == ticket
                    && final(self).queue() == old(self).queue().remove(i),
            !r ==> final(self).queue() == old(self).queue(),
    {
        let n = self.waiting.len();
        let mut i: usize = 0;
        while i < n
            invariant
                old(self).wf(),
                self.max == old(self).max,
                self.active == old(self).active,
                self.next_ticket == old(self).next_ticket,
                self.waiting@ == old(self).waiting@,
                n == self.waiting@.len(),
                0 <= i <= n,
                forall|k: int| 0 <= k < i ==> self.waiting@[k] != ticket,
            decreases n - i,
        {
            if self.waiting[i] == ticket {
                let ghost before = self.waiting@;
                self.waiting.remove(i);
                proof {
                    assert(before[i as int] == ticket);
                    assert(before.contains(ticket));
                    assert(self.waiting@ == before.remove(i as int));
                    assert forall|a: int, b: int|
                        0 <= a < b < self.waiting@.len() implies self.waiting@[a]
                        < self.waiting@[b] by {
                        let a2 = if a < i { a } else { a + 1 };
                        let b2 = if b < i { b } else { b + 1 };
                        assert(self.waiting@[a] == before[a2]);
                        assert(self.waiting@[b] == before[b2]);
                        assert(before[a2] < before[b2]);
                    }
                    assert forall|a: int| 0 <= a < self.waiting@.len() implies self.waiting@[a]
                        < self.next_ticket by {
                        let a2 = if a < i { a } else { a + 1 };
                        assert(self.waiting@[a] == before[a2]);
                        assert(before[a2] < self.next_ticket);
                    }
                }
                return true;
            }
            i = i + 1;
        }
        proof {
            assert(!self.waiting@.contains(ticket));
        }
        false
    }
}

/// At most as many slots are held as the limiter has, and no request waits
/// while a slot is free.
pub proof fn lemma_admission_bounded(l: Limiter)
    requires
        l.wf(),
    ensures
        l.held() <= l.slots(),
        l.queue().len() > 0 ==> l.held() == l.slots(),
{
}

} // verus!
