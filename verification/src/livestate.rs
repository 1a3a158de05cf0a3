//! Live state cache and notifier: the latest value of a payload type plus a
//! set of subscribers, each woken once per replacement of the value. This is
//! the sequential core of the service; the unverified shell wraps it in a
//! shared lock and an asynchronous broadcast channel.
//!
//! A subscriber that falls behind the notification buffer's capacity
//! observes a lagged signal — to be treated as "re-fetch current state via
//! `get`", never as a terminating error; only explicit closure of the
//! notifier is terminal.

use vstd::pervasive::cloned;
use vstd::prelude::*;

verus! {

/// Outcome of one receive attempt on a subscription.
#[derive(Clone, Copy, Debug, PartialEq, Eq, Structural)]
pub enum RecvOutcome {
    /// One notification was consumed.
    Notified,
    /// The subscriber fell behind the buffer by the given number of missed
    /// notifications; it should re-fetch the current state via `get`.
    Lagged(usize),
    /// Nothing is pending; a live subscriber would wait.
    Pending,
    /// The notifier is closed and nothing is pending: terminal.
    Closed,
}

/// One more pending notification, saturating at the integer's bound.
pub open spec fn bump(p: usize) -> usize {
    if p == usize::MAX {
        p
    } else {
        (p + 1) as usize
    }
}

/// The pending counts after one broadcast.
pub open spec fn bump_all(subs: Seq<usize>) -> Seq<usize> {
    subs.map_values(|p: usize| bump(p))
}

/// The pending counts after `n` broadcasts.
pub open spec fn after_sets(subs: Seq<usize>, n: nat) -> Seq<usize>
    decreases n,
{
    if n == 0 {
        subs
    } else {
        bump_all(after_sets(subs, (n - 1) as nat))
    }
}

/// The outcome of one receive attempt with `p` notifications pending against
/// capacity `cap`.
pub open spec fn recv_outcome_spec(p: usize, cap: usize, closed: bool) -> RecvOutcome {
    if p == 0 {
        if closed {
            RecvOutcome::Closed
        } else {
            RecvOutcome::Pending
        }
    } else if p > cap {
        RecvOutcome::Lagged((p - cap) as usize)
    } else {
        RecvOutcome::Notified
    }
}

/// The pending count left by one receive attempt.
pub open spec fn recv_pending_spec(p: usize, cap: usize) -> usize {
    if p == 0 {
        0
    } else if p > cap {
        cap
    } else {
        (p - 1) as usize
    }
}

/// The pending count after `n` receive attempts.
pub open spec fn pending_after_recvs(p: usize, cap: usize, n: nat) -> usize
    decreases n,
{
    if n == 0 {
        p
    } else {
        recv_pending_spec(pending_after_recvs(p, cap, (n - 1) as nat), cap)
    }
}

/// Generic store of the latest value of `T`, with one pending-notification
/// count per subscriber.
pub struct LiveState<T> {
    /// The current value.
    pub value: T,
    /// How far a subscriber may fall behind before it lags.
    pub capacity: usize,
    /// Pending notification count of each subscriber.
    pub subs: Vec<usize>,
    /// Whether the notifier was explicitly closed.
    pub closed: bool,
}

impl<T> LiveState<T> {
    /// A fresh store holding `initial`, with no subscribers.
    pub fn new(initial: T, capacity: usize) -> (r: LiveState<T>)
        requires
            capacity >= 1,
        ensures
            r.value == initial,
            r.capacity == capacity,
            r.subs@ == Seq::<usize>::empty(),
            !r.closed,
    {
        let r = LiveState { value: initial, capacity, subs: Vec::new(), closed: false };
        proof {
            assert(r.subs@ =~= Seq::<usize>::empty());
        }
        r
    }

    /// Replace the held value, then notify every current subscriber: after
    /// `set` returns, the held value is exactly the new one (no stale read),
    /// and each subscriber has one more notification pending.
    pub fn set(&mut self, v: T)
        ensures
            final(self).value == v,
            final(self).capacity == old(self).capacity,
            final(self).closed == old(self).closed,
            final(self).subs@ == bump_all(old(self).subs@),
    {
        self.value = v;
        let n = self.subs.len();
        let mut i: usize = 0;
        while i < n
            invariant
                i <= n,
                n == self.subs@.len(),
                self.subs@.len() == old(self).subs@.len(),
                self.value == v,
                self.capacity == old(self).capacity,
                self.closed == old(self).closed,
                forall|j: int| 0 <= j < i ==> self.subs@[j] == bump(old(self).subs@[j]),
                forall|j: int| i <= j < n ==> self.subs@[j] == old(self).subs@[j],
            decreases n - i,
        {
            let p = self.subs[i];
            if p < usize::MAX {
                self.subs[i] = p + 1;
            }
            i = i + 1;
        }
        proof {
            assert(self.subs@ =~= bump_all(old(self).subs@));
        }
    }

    /// Register a new subscriber with nothing pending; its identifier indexes
    /// `subs`. It will be woken once per `set` made after this call.
    pub fn subscribe(&mut self) -> (id: usize)
        ensures
            id == old(self).subs@.len(),
            final(self).subs@ == old(self).subs@.push(0),
            final(self).value == old(self).value,
            final(self).capacity == old(self).capacity,
            final(self).closed == old(self).closed,
    {
        let id = self.subs.len();
        self.subs.push(0);
        id
    }

    /// One receive attempt by subscriber `id`. With `p` notifications
    /// pending: nothing pending waits (or ends, once closed); more than
    /// `capacity` pending lags, reporting the missed count and leaving
    /// `capacity` pending; otherwise one notification is consumed.
    pub fn recv(&mut self, id: usize) -> (r: RecvOutcome)
        requires
            id < old(self).subs@.len(),
        ensures
            final(self).value == old(self).value,
            final(self).capacity == old(self).capacity,
            final(self).closed == old(self).closed,
            final(self).subs@.len() == old(self).subs@.len(),
            forall|j: int|
                0 <= j < old(self).subs@.len() && j != id ==> final(self).subs@[j] == old(
                    self,
                ).subs@[j],
            r == recv_outcome_spec(
                old(self).subs@[id as int],
                old(self).capacity,
                old(self).closed,
            ),
            final(self).subs@[id as int] == recv_pending_spec(
                old(self).subs@[id as int],
                old(self).capacity,
            ),
    {
        let p = self.subs[id];
        if p == 0 {
            if self.closed {
                RecvOutcome::Closed
            } else {
                RecvOutcome::Pending
            }
        } else if p > self.capacity {
            self.subs[id] = self.capacity;
            RecvOutcome::Lagged(p - self.capacity)
        } else {
            self.subs[id] = p - 1;
            RecvOutcome::Notified
        }
    }

    /// Close the notifier: subscribers still drain what is pending, then see
    /// `Closed`.
    pub fn close(&mut self)
        ensures
            final(self).closed,
            final(self).value == old(self).value,
            final(self).capacity == old(self).capacity,
            final(self).subs@ == old(self).subs@,
    {
        self.closed = true;
    }
}

impl<T: Clone> LiveState<T> {
    /// The current value, as a clone. Read after a completed `set`, this is
    /// the just-set value, for any number of readers.
    pub fn get(&self) -> (r: T)
        ensures
            cloned(self.value, r),
    {
        self.value.clone()
    }
}

proof fn lemma_after_sets_len(subs: Seq<usize>, n: nat)
    ensures
        after_sets(subs, n).len() == subs.len(),
    decreases n,
{
    if n > 0 {
        lemma_after_sets_len(subs, (n - 1) as nat);
    }
}

/// A subscriber registered with nothing pending, then notified by `n`
/// broadcasts, has exactly `n` notifications pending — one per `set` made
/// after its subscription, none lost — as long as `n` stays within the
/// counter's range.
pub proof fn lemma_fresh_subscriber_counts(subs: Seq<usize>, i: int, n: nat)
    requires
        0 <= i < subs.len(),
        subs[i] == 0,
        n <= usize::MAX,
    ensures
        after_sets(subs, n).len() == subs.len(),
        after_sets(subs, n)[i] == n,
    decreases n,
{
    lemma_after_sets_len(subs, n);
    if n > 0 {
        lemma_fresh_subscriber_counts(subs, i, (n - 1) as nat);
    }
}

/// A subscriber with `n` notifications pending, `n` within the buffer's
/// capacity, is notified on each of its next `n` receive attempts — exactly
/// one per broadcast, no lag and none lost — and then has nothing pending.
pub proof fn lemma_pending_drains(p: usize, cap: usize, n: nat)
    requires
        n <= p <= cap,
    ensures
        pending_after_recvs(p, cap, n) == p - n,
        forall|k: nat|
            k < n ==> recv_outcome_spec(
                #[trigger] pending_after_recvs(p, cap, k),
                cap,
                false,
            ) == RecvOutcome::Notified,
    decreases n,
{
    if n > 0 {
        lemma_pending_drains(p, cap, (n - 1) as nat);
        assert forall|k: nat| k < n implies recv_outcome_spec(
            #[trigger] pending_after_recvs(p, cap, k),
            cap,
            false,
        ) == RecvOutcome::Notified by {
            if k < (n - 1) as nat {
            } else {
                assert(pending_after_recvs(p, cap, k) == p - k);
            }
        }
    }
}

} // verus!
