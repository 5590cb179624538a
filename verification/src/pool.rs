//! The client pool: a bounded set of slots holding reusable clients, with a
//! first-come-first-served queue of waiting tickets.
//!
//! Acquisition hands out an owned client (its slot stays empty while it is
//! checked out), so no client is ever held by two callers at once; when no
//! client is free the caller receives a ticket and waits its turn. Release
//! hands the freed client directly to the waiter at the head of the queue,
//! or puts it back into its slot when nobody waits. Suspension and waking
//! belong to the surrounding driver; every decision about who gets which
//! client is taken here.

use vstd::prelude::*;

use crate::client::CookieClient;

verus! {

/// The outcome of an acquisition attempt: an owned client with the index of
/// its slot, or a ticket queued behind earlier waiters.
pub enum Acquired {
    Granted(usize, CookieClient),
    Queued(u64),
}

/// A pool of client slots plus the queue of waiting tickets.
pub struct CookieClientPool {
    slots: Vec<Option<CookieClient>>,
    queue: Vec<u64>,
    next_ticket: u64,
}

/// One slot's transition when a client is granted: the slot held the client
/// and is emptied; nothing else moves.
pub open spec fn grant_rel(
    pre: Seq<Option<CookieClient>>,
    post: Seq<Option<CookieClient>>,
    i: int,
    c: CookieClient,
) -> bool {
    &&& 0 <= i < pre.len()
    &&& pre[i] == Some(c)
    &&& post == pre.update(i, None::<CookieClient>)
}

/// One queue transition when a client is released with waiters pending: the
/// head waiter is served and leaves the queue.
pub open spec fn release_step(pre: Seq<u64>, post: Seq<u64>, served: u64) -> bool {
    &&& pre.len() > 0
    &&& served == pre[0]
    &&& post == pre.drop_first()
}

/// The queue holds strictly increasing tickets, all below the next ticket
/// to be handed out: no ticket waits twice.
pub open spec fn tickets_wf(q: Seq<u64>, next: u64) -> bool {
    &&& forall|i: int, j: int| 0 <= i < j < q.len() ==> q[i] < q[j]
    &&& forall|i: int| 0 <= i < q.len() ==> #[trigger] q[i] < next
}

impl CookieClientPool {
    /// The slots: `Some` for a client at rest, `None` while it is checked
    /// out.
    pub closed spec fn slots_model(self) -> Seq<Option<CookieClient>> {
        self.slots@
    }

    /// The waiting tickets, in arrival order.
    pub closed spec fn queue_model(self) -> Seq<u64> {
        self.queue@
    }

    /// The ticket the next queued waiter will receive.
    pub closed spec fn ticket_model(self) -> u64 {
        self.next_ticket
    }

    /// Tickets are handed out in increasing order and never repeat in the
    /// queue.
    pub open spec fn wf(self) -> bool {
        tickets_wf(self.queue_model(), self.ticket_model())
    }

    /// An empty pool: no slots, no waiters.
    pub fn new() -> (p: CookieClientPool)
        ensures
            p.wf(),
            p.slots_model() == Seq::<Option<CookieClient>>::empty(),
            p.queue_model() == Seq::<u64>::empty(),
            p.ticket_model() == 0,
    {
        let p = CookieClientPool { slots: Vec::new(), queue: Vec::new(), next_ticket: 0 };
        proof {
            assert(p.slots_model() =~= Seq::<Option<CookieClient>>::empty());
            assert(p.queue_model() =~= Seq::<u64>::empty());
        }
        p
    }

    /// Grows the pool by one client, at rest in a fresh slot.
    pub fn add_client(&mut self, c: CookieClient)
        requires
            old(self).wf(),
        ensures
            final(self).wf(),
            final(self).slots_model() == old(self).slots_model().push(Some(c)),
            final(self).queue_model() == old(self).queue_model(),
            final(self).ticket_model() == old(self).ticket_model(),
    {
        self.slots.push(Some(c));
    }

    /// The number of slots.
    pub fn len(&self) -> (n: usize)
        ensures
            n == self.slots_model().len(),
    {
        self.slots.len()
    }

    /// Whether the slot is currently empty (its client checked out).
    pub fn slot_is_empty(&self, i: usize) -> (b: bool)
        requires
            i < self.slots_model().len(),
        ensures
            b == (self.slots_model()[i as int] is None),
    {
        self.slots[i].is_none()
    }

    /// How many tickets were handed out so far.
    pub fn tickets_issued(&self) -> (t: u64)
        ensures
            t == self.ticket_model(),
    {
        self.next_ticket
    }

    /// Tries to acquire a client: the first slot at rest is emptied and its
    /// client handed out; when every slot is empty or checked out, the
    /// caller is queued behind all earlier waiters and told its ticket.
    pub fn acquire(&mut self) -> (r: Acquired)
        requires
            old(self).wf(),
            old(self).ticket_model() < u64::MAX,
        ensures
            final(self).wf(),
            match r {
                Acquired::Granted(i, c) => {
                    &&& grant_rel(old(self).slots_model(), final(self).slots_model(), i as int, c)
                    &&& (forall|j: int| 0 <= j < i ==> old(self).slots_model()[j] is None)
                    &&& final(self).queue_model() == old(self).queue_model()
                    &&& final(self).ticket_model() == old(self).ticket_model()
                },
                Acquired::Queued(t) => {
                    &&& t == old(self).ticket_model()
                    &&& (forall|j: int|
                        0 <= j < old(self).slots_model().len() ==> old(self).slots_model()[j]
                            is None)
                    &&& final(self).slots_model() == old(self).slots_model()
                    &&& final(self).queue_model() == old(self).queue_model().push(t)
                    &&& final(self).ticket_model() == old(self).ticket_model() + 1
                },
            },
    {
        let ghost pre = self.slots@;
        let mut i: usize = 0;
        while i < self.slots.len()
            invariant
                0 <= i <= self.slots@.len(),
                self.slots@ == pre,
                pre == old(self).slots@,
                self.queue@ == old(self).queue@,
                self.next_ticket == old(self).next_ticket,
                tickets_wf(self.queue@, self.next_ticket),
                forall|j: int| 0 <= j < i ==> pre[j] is None,
            decreases self.slots@.len() - i,
        {
            if self.slots[i].is_some() {
                let taken = self.slots.remove(i);
                self.slots.insert(i, None);
                proof {
                    assert(self.slots@ =~= pre.update(i as int, None::<CookieClient>));
                }
                match taken {
                    Some(c) => {
                        return Acquired::Granted(i, c);
                    },
                    None => {
                        return vstd::pervasive::unreached();
                    },
                }
            }
            i = i + 1;
        }
        let t = self.next_ticket;
        self.next_ticket = t + 1;
        self.queue.push(t);
        proof {
            let q = old(self).queue@;
            assert forall|a: int, b: int|
                0 <= a < b < self.queue@.len() implies self.queue@[a] < self.queue@[b] by {
                if b < q.len() {
                    assert(q[a] < q[b]);
                } else {
                    assert(self.queue@[b] == t);
                    assert(q[a] < t);
                }
            }
            assert forall|a: int| 0 <= a < self.queue@.len() implies #[trigger] self.queue@[a]
                < self.next_ticket by {
                if a < q.len() {
                    assert(q[a] < t);
                }
            }
            assert(tickets_wf(self.queue@, self.next_ticket));
        }
        Acquired::Queued(t)
    }

    /// Releases a checked-out client back to the pool, naming the slot it
    /// was granted from. With waiters pending, the client is handed on at
    /// once — still checked out — to the waiter at the head of the queue,
    /// who is served first; with nobody waiting, the client comes to rest in
    /// its slot.
    pub fn release(&mut self, i: usize, c: CookieClient) -> (r: Option<(u64, CookieClient)>)
        requires
            old(self).wf(),
            i < old(self).slots_model().len(),
            old(self).slots_model()[i as int] is None,
        ensures
            final(self).wf(),
            final(self).ticket_model() == old(self).ticket_model(),
            match r {
                Some((t, c2)) => {
                    &&& release_step(old(self).queue_model(), final(self).queue_model(), t)
                    &&& c2 == c
                    &&& final(self).slots_model() == old(self).slots_model()
                },
                None => {
                    &&& old(self).queue_model().len() == 0
                    &&& final(self).queue_model() == old(self).queue_model()
                    &&& final(self).slots_model() == old(self).slots_model().update(
                        i as int,
                        Some(c),
                    )
                },
            },
    {
        if self.queue.len() > 0 {
            let t = self.queue.remove(0);
            proof {
                let q = old(self).queue@;
                assert(self.queue@ =~= q.drop_first());
                assert forall|a: int, b: int|
                    0 <= a < b < self.queue@.len() implies self.queue@[a] < self.queue@[b] by {
                    assert(q[a + 1] < q[b + 1]);
                }
                assert forall|a: int| 0 <= a < self.queue@.len() implies #[trigger] self.queue@[a]
                    < self.next_ticket by {
                    assert(q[a + 1] < self.next_ticket);
                }
                assert(tickets_wf(self.queue@, self.next_ticket));
            }
            Some((t, c))
        } else {
            let ghost pre = self.slots@;
            let _gone = self.slots.remove(i);
            self.slots.insert(i, Some(c));
            proof {
                assert(self.slots@ =~= pre.update(i as int, Some(c)));
            }
            None
        }
    }
}

/// Law: a client is never held by two callers at once — two grants with no
/// release in between come from different slots.
pub proof fn lemma_no_double_grant(
    s0: Seq<Option<CookieClient>>,
    s1: Seq<Option<CookieClient>>,
    s2: Seq<Option<CookieClient>>,
    i1: int,
    i2: int,
    c1: CookieClient,
    c2: CookieClient,
)
    requires
        grant_rel(s0, s1, i1, c1),
        grant_rel(s1, s2, i2, c2),
    ensures
        i1 != i2,
{
    assert(s1[i1] is None);
    assert(s1[i2] is Some);
}

/// Law (isolation): whatever one caller does to the client it acquired, no
/// other slot changes between the grant and the matching release — fetches
/// on different pooled clients never touch each other's jar or policy slot.
pub proof fn lemma_checkout_isolation(
    s0: Seq<Option<CookieClient>>,
    s1: Seq<Option<CookieClient>>,
    s2: Seq<Option<CookieClient>>,
    i: int,
    c0: CookieClient,
    c1: CookieClient,
)
    requires
        grant_rel(s0, s1, i, c0),
        s2 == s1.update(i, Some(c1)),
    ensures
        forall|j: int| 0 <= j < s0.len() && j != i ==> s2[j] == s0[j],
        s2[i] == Some(c1),
{
}

/// Law (first come, first served): starting from a queue of waiters, when
/// each release serves the head of the queue, the waiter that arrived k-th
/// is exactly the one served by the k-th release — nobody is passed over and
/// nobody waits forever while clients keep being released.
pub proof fn lemma_fifo_service(queues: Seq<Seq<u64>>, served: Seq<u64>, k: int)
    requires
        queues.len() == served.len() + 1,
        forall|s: int|
            0 <= s < served.len() ==> release_step(#[trigger] queues[s], queues[s + 1], served[s]),
        0 <= k < served.len(),
        k < queues[0].len(),
    ensures
        served[k] == queues[0][k],
    decreases k,
{
    assert(release_step(queues[0], queues[1], served[0]));
    if k > 0 {
        let qs = queues.drop_first();
        let sv = served.drop_first();
        assert forall|s: int|
            0 <= s < sv.len() implies release_step(#[trigger] qs[s], qs[s + 1], sv[s]) by {
            assert(release_step(queues[s + 1], queues[s + 2], served[s + 1]));
        }
        lemma_fifo_service(qs, sv, k - 1);
        assert(qs[0] == queues[1]);
        assert(queues[1] == queues[0].drop_first());
        assert(sv[k - 1] == served[k]);
        assert(queues[0].drop_first()[k - 1] == queues[0][k]);
    }
}

} // verus!
