//! A bounded broadcast channel with one producer and a fixed number of
//! subscribers, each reading at its own pace. When the buffer is full, the
//! oldest message is dropped; a subscriber that had not read it skips ahead.
use vstd::prelude::*;

verus! {

/// Every subscriber slot is taken.
#[derive(Clone, Copy, Debug, PartialEq, Eq, Structural)]
pub enum SubscribeError {
    MaximumSubscribersReached,
}

pub struct Broadcast<T> {
    /// The messages still held, oldest first.
    buf: Vec<T>,
    /// The sequence number of `buf[0]`.
    first: u64,
    capacity: usize,
    /// For each subscriber, the sequence number of the next message it reads.
    cursors: Vec<u64>,
    max_subscribers: usize,
    /// Every message ever published, in order.
    log: Ghost<Seq<T>>,
}

impl<T> Broadcast<T> {
    /// Every message published so far, in publication order.
    pub closed spec fn published(&self) -> Seq<T> {
        self.log@
    }

    /// The sequence number of the next message subscriber `sub` reads.
    pub closed spec fn cursor(&self, sub: int) -> int {
        self.cursors@[sub] as int
    }

    pub closed spec fn subscriber_count(&self) -> nat {
        self.cursors@.len()
    }

    pub closed spec fn max_subscribers(&self) -> nat {
        self.max_subscribers as nat
    }

    pub closed spec fn capacity(&self) -> nat {
        self.capacity as nat
    }

    /// The sequence number of the oldest message still held.
    pub closed spec fn oldest(&self) -> int {
        self.first as int
    }

    pub closed spec fn wf(&self) -> bool {
        &&& self.capacity > 0
        &&& self.buf@.len() <= self.capacity
        &&& self.first + self.buf@.len() == self.log@.len()
        &&& self.log@.len() <= u64::MAX
        &&& self.buf@ == self.log@.subrange(self.first as int, self.log@.len() as int)
        &&& self.cursors@.len() <= self.max_subscribers
        &&& forall|i: int| 0 <= i < self.cursors@.len() ==> #[trigger] self.cursors@[i] <= self.log@.len()
    }

    /// An empty channel that holds up to `capacity` messages for up to
    /// `max_subscribers` subscribers.
    pub fn new(capacity: usize, max_subscribers: usize) -> (r: Self)
        requires
            capacity > 0,
        ensures
            r.wf(),
            r.published() == Seq::<T>::empty(),
            r.subscriber_count() == 0,
            r.capacity() == capacity,
            r.max_subscribers() == max_subscribers,
    {
        let r = Broadcast {
            buf: Vec::new(),
            first: 0,
            capacity,
            cursors: Vec::new(),
            max_subscribers,
            log: Ghost(Seq::empty()),
        };
        proof {
            assert(r.buf@ =~= r.log@.subrange(0, 0));
        }
        r
    }

    /// Adds a subscriber, which reads the messages published from now on.
    pub fn subscribe(&mut self) -> (r: Result<usize, SubscribeError>)
        requires
            old(self).wf(),
        ensures
            final(self).wf(),
            final(self).published() == old(self).published(),
            final(self).capacity() == old(self).capacity(),
            final(self).max_subscribers() == old(self).max_subscribers(),
            old(self).subscriber_count() < old(self).max_subscribers() <==> r is Ok,
            match r {
                Ok(sub) => {
                    &&& sub == old(self).subscriber_count()
                    &&& final(self).subscriber_count() == old(self).subscriber_count() + 1
                    &&& final(self).cursor(sub as int) == old(self).published().len()
                    &&& forall|i: int|
                        0 <= i < old(self).subscriber_count() ==> final(self).cursor(i) == old(
                            self,
                        ).cursor(i)
                },
                Err(_) => *final(self) == *old(self),
            },
    {
        if self.cursors.len() < self.max_subscribers {
            let sub = self.cursors.len();
            let next = self.first + self.buf.len() as u64;
            self.cursors.push(next);
            Ok(sub)
        } else {
            Err(SubscribeError::MaximumSubscribersReached)
        }
    }

    /// Publishes `msg` without waiting. Where the buffer is full the oldest
    /// message is dropped, and `true` reports that loss.
    pub fn publish(&mut self, msg: T) -> (dropped: bool)
        requires
            old(self).wf(),
            old(self).published().len() < u64::MAX,
        ensures
            final(self).wf(),
            final(self).published() == old(self).published().push(msg),
            final(self).capacity() == old(self).capacity(),
            final(self).max_subscribers() == old(self).max_subscribers(),
            final(self).subscriber_count() == old(self).subscriber_count(),
            forall|i: int|
                0 <= i < old(self).subscriber_count() ==> final(self).cursor(i) == old(self).cursor(
                    i,
                ),
            dropped <==> old(self).published().len() - old(self).oldest() == old(self).capacity(),
            dropped ==> final(self).oldest() == old(self).oldest() + 1,
            !dropped ==> final(self).oldest() == old(self).oldest(),
    {
        let ghost log = self.log@;
        let dropped = self.buf.len() == self.capacity;
        if dropped {
            self.buf.remove(0);
            self.first = self.first + 1;
        }
        self.buf.push(msg);
        self.log = Ghost(log.push(msg));
        proof {
            assert(self.buf@ =~= self.log@.subrange(self.first as int, self.log@.len() as int));
        }
        dropped
    }

    /// Takes the next message for subscriber `sub` without waiting: gives its
    /// sequence number, or `None` when the subscriber has read everything.
    /// Messages dropped before the subscriber read them are skipped.
    pub fn try_next(&mut self, sub: usize) -> (r: Option<u64>)
        requires
            old(self).wf(),
            sub < old(self).subscriber_count(),
        ensures
            final(self).wf(),
            final(self).published() == old(self).published(),
            final(self).oldest() == old(self).oldest(),
            final(self).capacity() == old(self).capacity(),
            final(self).max_subscribers() == old(self).max_subscribers(),
            final(self).subscriber_count() == old(self).subscriber_count(),
            forall|i: int|
                0 <= i < old(self).subscriber_count() && i != sub ==> final(self).cursor(i) == old(
                    self,
                ).cursor(i),
            r matches Some(k) ==> old(self).cursor(sub as int) <= k,
            r matches Some(k) ==> old(self).oldest() <= k < old(self).published().len(),
            r matches Some(k) ==> k == (if old(self).cursor(sub as int) < old(self).oldest() {
                old(self).oldest()
            } else {
                old(self).cursor(sub as int)
            }),
            r matches Some(k) ==> final(self).cursor(sub as int) == k + 1,
            r is None ==> old(self).published().len() == (if old(self).cursor(sub as int) < old(
                self,
            ).oldest() {
                old(self).oldest()
            } else {
                old(self).cursor(sub as int)
            }),
            r is None ==> final(self).cursor(sub as int) == old(self).cursor(sub as int),
    {
        let ghost s0 = *self;
        let mut c = self.cursors[sub];
        if c < self.first {
            c = self.first;
        }
        if c < self.first + self.buf.len() as u64 {
            self.cursors.set(sub, c + 1);
            Some(c)
        } else {
            None
        }
    }

    /// The message with sequence number `seq`, while it is still held.
    pub fn message(&self, seq: u64) -> (r: &T)
        requires
            self.wf(),
            self.oldest() <= seq < self.published().len(),
        ensures
            *r == self.published()[seq as int],
    {
        &self.buf[(seq - self.first) as usize]
    }
}

/// A subscriber takes messages in the order they were published, each at
/// most once. `taken[i]` is the sequence number the subscriber's `i`-th take
/// gave; its cursor was `before[i]` then and `after[i]` afterwards, as
/// `try_next` states, and nothing in between moved it back (`publish` and
/// `subscribe` leave it alone). Then the numbers taken strictly increase: the
/// messages taken are a subsequence of the messages published.
pub proof fn lemma_taken_in_order(taken: Seq<int>, before: Seq<int>, after: Seq<int>)
    requires
        taken.len() == before.len(),
        after.len() == before.len(),
        forall|i: int| 0 <= i < taken.len() ==> before[i] <= #[trigger] taken[i],
        forall|i: int| 0 <= i < taken.len() ==> #[trigger] after[i] == taken[i] + 1,
        forall|i: int| 0 <= i < taken.len() - 1 ==> #[trigger] after[i] <= before[i + 1],
    ensures
        forall|i: int, j: int| 0 <= i < j < taken.len() ==> taken[i] < taken[j],
    decreases taken.len(),
{
    if taken.len() > 1 {
        let n = taken.len() - 1;
        lemma_taken_in_order(taken.drop_last(), before.drop_last(), after.drop_last());
        assert forall|i: int, j: int| 0 <= i < j < taken.len() implies taken[i] < taken[j] by {
            if j == n {
                if i < n - 1 {
                    assert(taken.drop_last()[i] < taken.drop_last()[n - 1]);
                }
                assert(after[n - 1] <= before[n]);
            } else {
                assert(taken.drop_last()[i] < taken.drop_last()[j]);
            }
        }
    }
}

} // verus!
