use vstd::prelude::*;

verus! {

/// The model of one subscriber slot: `None` when the slot is free, otherwise
/// the value waiting for the subscriber (at most one), if any.
pub type SlotModel = Option<Option<Seq<char>>>;

/// The slot model after `snapshot` is published: every subscriber now holds
/// exactly `snapshot`, whatever it held before; free slots stay free.
pub open spec fn publish_slot(slot: SlotModel, snapshot: Seq<char>) -> SlotModel {
    match slot {
        Some(_) => Some(Some(snapshot)),
        None => None,
    }
}

/// All slots after `snapshot` is published.
pub open spec fn publish_spec(slots: Seq<SlotModel>, snapshot: Seq<char>) -> Seq<SlotModel> {
    slots.map_values(|slot: SlotModel| publish_slot(slot, snapshot))
}

/// All slots after each of `snapshots` is published, in order.
pub open spec fn publish_all(slots: Seq<SlotModel>, snapshots: Seq<Seq<char>>) -> Seq<SlotModel>
    decreases snapshots.len(),
{
    if snapshots.len() == 0 {
        slots
    } else {
        publish_all(publish_spec(slots, snapshots[0]), snapshots.drop_first())
    }
}

/// Whether `id` names a live subscription.
pub open spec fn subscribed(slots: Seq<SlotModel>, id: int) -> bool {
    0 <= id < slots.len() && slots[id] is Some
}

/// Whether some subscription is live.
pub open spec fn has_subscribers(slots: Seq<SlotModel>) -> bool {
    exists|i: int| subscribed(slots, i)
}

/// One subscriber slot of the channel.
#[derive(Debug)]
pub enum Slot {
    /// No subscriber holds this slot.
    Free,
    /// A subscriber that has consumed everything published so far.
    Idle,
    /// A subscriber with one unconsumed snapshot.
    Ready(String),
}

impl View for Slot {
    type V = SlotModel;

    open spec fn view(&self) -> SlotModel {
        match self {
            Slot::Free => None,
            Slot::Idle => Some(None),
            Slot::Ready(s) => Some(Some(s@)),
        }
    }
}

/// What a subscriber finds when it polls the channel.
#[derive(Debug)]
pub enum Recv {
    /// The newest snapshot published since the last poll.
    Value(String),
    /// Nothing new yet: wait.
    Empty,
    /// Nothing new, and the publishing side has gone: nothing will come.
    Closed,
}

/// A lossy, single-producer, multi-consumer channel that buffers at most one
/// value per subscriber: a newer snapshot replaces an unconsumed older one.
/// Subscribers see only what is published after they join.
#[derive(Debug)]
pub struct BroadcastChannel {
    slots: Vec<Slot>,
    closed: bool,
}

impl BroadcastChannel {
    /// The subscriber slots, indexed by subscription id.
    pub closed spec fn slots(&self) -> Seq<SlotModel> {
        self.slots@.map_values(|s: Slot| s@)
    }

    /// Whether the publishing side has closed the channel.
    pub closed spec fn is_closed(&self) -> bool {
        self.closed
    }

    /// An open channel with no subscribers.
    pub fn new() -> (r: Self)
        ensures
            r.slots() == Seq::<SlotModel>::empty(),
            !r.is_closed(),
    {
        BroadcastChannel { slots: Vec::new(), closed: false }
    }

    /// Whether `id` names a live subscription.
    pub fn is_subscribed(&self, id: usize) -> (r: bool)
        ensures
            r == subscribed(self.slots(), id as int),
    {
        id < self.slots.len() && !matches!(self.slots[id], Slot::Free)
    }

    /// Joins a new subscriber and returns its id. The subscriber starts with
    /// nothing to read: no earlier snapshot is replayed. A free slot is reused.
    pub fn subscribe(&mut self) -> (id: usize)
        ensures
            !subscribed(old(self).slots(), id as int),
            id <= old(self).slots().len(),
            final(self).slots() == (if id < old(self).slots().len() {
                old(self).slots().update(id as int, Some(None))
            } else {
                old(self).slots().push(Some(None))
            }),
            final(self).is_closed() == old(self).is_closed(),
    {
        let n = self.slots.len();
        let mut i: usize = 0;
        while i < n
            invariant
                n == self.slots@.len(),
                0 <= i <= n,
                self.slots@ == old(self).slots@,
                self.closed == old(self).closed,
                forall|j: int| 0 <= j < i ==> !(self.slots@[j] is Free),
            decreases n - i,
        {
            if matches!(self.slots[i], Slot::Free) {
                self.slots.set(i, Slot::Idle);
                assert(self.slots() =~= old(self).slots().update(i as int, Some(None)));
                return i;
            }
            i = i + 1;
        }
        self.slots.push(Slot::Idle);
        assert(self.slots() =~= old(self).slots().push(Some(None)));
        n
    }

    /// Releases subscription `id`; its unconsumed value, if any, is dropped.
    pub fn unsubscribe(&mut self, id: usize)
        requires
            id < old(self).slots().len(),
        ensures
            final(self).slots() == old(self).slots().update(id as int, None),
            final(self).is_closed() == old(self).is_closed(),
    {
        self.slots.set(id, Slot::Free);
        assert(self.slots() =~= old(self).slots().update(id as int, None));
    }

    /// Publishes `snapshot` to every current subscriber, replacing what each
    /// had not consumed yet. With no subscriber this changes nothing and is
    /// no error. Returns whether any subscriber was reached.
    pub fn publish(&mut self, snapshot: &String) -> (reached: bool)
        ensures
            final(self).slots() == publish_spec(old(self).slots(), snapshot@),
            final(self).is_closed() == old(self).is_closed(),
            reached == has_subscribers(old(self).slots()),
    {
        let n = self.slots.len();
        let mut i: usize = 0;
        let mut reached = false;
        while i < n
            invariant
                n == self.slots@.len(),
                0 <= i <= n,
                self.closed == old(self).closed,
                forall|j: int| 0 <= j < i ==> self.slots()[j] == publish_slot(old(self).slots()[j], snapshot@),
                forall|j: int| i <= j < n ==> self.slots()[j] == old(self).slots()[j],
                old(self).slots().len() == n,
                reached == (exists|j: int| 0 <= j < i && subscribed(old(self).slots(), j)),
            decreases n - i,
        {
            let ghost before = self.slots();
            if !matches!(self.slots[i], Slot::Free) {
                self.slots.set(i, Slot::Ready(snapshot.clone()));
                reached = true;
                assert(self.slots() =~= before.update(i as int, Some(Some(snapshot@))));
            }
            proof {
                assert(subscribed(old(self).slots(), i as int) ==> (exists|j: int| 0 <= j < i + 1 && subscribed(old(self).slots(), j)));
            }
            i = i + 1;
        }
        assert(self.slots() =~= publish_spec(old(self).slots(), snapshot@));
        reached
    }

    /// Closes the publishing side: subscribers read what they still hold,
    /// then learn that the channel is closed.
    pub fn close(&mut self)
        ensures
            final(self).slots() == old(self).slots(),
            final(self).is_closed(),
    {
        self.closed = true;
    }

    /// Polls subscription `id`: hands out its waiting value, if any, and
    /// otherwise says whether more may come.
    pub fn try_recv(&mut self, id: usize) -> (r: Recv)
        requires
            subscribed(old(self).slots(), id as int),
        ensures
            final(self).is_closed() == old(self).is_closed(),
            old(self).slots()[id as int] matches Some(Some(v)) ==> (r matches Recv::Value(s) && s@ == v
                && final(self).slots() == old(self).slots().update(id as int, Some(None))),
            old(self).slots()[id as int] is Some && old(self).slots()[id as int]->Some_0 is None ==> (
            final(self).slots() == old(self).slots() && (if old(self).is_closed() {
                r is Closed
            } else {
                r is Empty
            })),
    {
        if matches!(self.slots[id], Slot::Ready(_)) {
            let mut taken = Slot::Idle;
            let ghost before = self.slots@;
            std::mem::swap(&mut taken, &mut self.slots[id]);
            proof {
                assert(self.slots@ =~= before.update(id as int, Slot::Idle));
            }
            assert(self.slots() =~= old(self).slots().update(id as int, Some(None)));
            match taken {
                Slot::Ready(s) => Recv::Value(s),
                _ => Recv::Empty,
            }
        } else if self.closed {
            Recv::Closed
        } else {
            Recv::Empty
        }
    }

    /// One turn of the bridge worker: a snapshot received from the producer
    /// is published; a closed producer closes the channel. Returns whether
    /// the worker keeps running.
    pub fn relay(&mut self, received: Option<String>) -> (keep_running: bool)
        ensures
            keep_running == received is Some,
            received matches Some(s) ==> (final(self).slots() == publish_spec(old(self).slots(), s@)
                && final(self).is_closed() == old(self).is_closed()),
            received is None ==> (final(self).slots() == old(self).slots() && final(self).is_closed()),
    {
        match received {
            Some(s) => {
                self.publish(&s);
                true
            },
            None => {
                self.close();
                false
            },
        }
    }
}

/// With no live subscriber, any sequence of publishes leaves the channel
/// exactly as it was: nothing is retained for later delivery.
pub proof fn lemma_unobserved_publishes_retain_nothing(slots: Seq<SlotModel>, snapshots: Seq<Seq<char>>)
    requires
        !has_subscribers(slots),
    ensures
        publish_all(slots, snapshots) == slots,
    decreases snapshots.len(),
{
    if snapshots.len() > 0 {
        let next = publish_spec(slots, snapshots[0]);
        assert forall|i: int| 0 <= i < slots.len() implies next[i] == slots[i] by {
            assert(!subscribed(slots, i));
        }
        assert(next =~= slots);
        lemma_unobserved_publishes_retain_nothing(next, snapshots.drop_first());
    }
}

/// A subscriber that has not polled while several snapshots were published
/// holds only the most recent of them.
pub proof fn lemma_latest_wins(slots: Seq<SlotModel>, id: int, snapshots: Seq<Seq<char>>)
    requires
        subscribed(slots, id),
        snapshots.len() > 0,
    ensures
        publish_all(slots, snapshots)[id] == Some(Some(snapshots.last())),
    decreases snapshots.len(),
{
    let next = publish_spec(slots, snapshots[0]);
    let rest = snapshots.drop_first();
    if rest.len() == 0 {
        assert(publish_all(next, rest) == next);
    } else {
        assert(subscribed(next, id));
        lemma_latest_wins(next, id, rest);
        assert(rest.last() == snapshots.last());
    }
}

/// A subscriber that joins after snapshot `s1` is published never receives
/// it: it starts with nothing, and after later publishes it holds the most
/// recent of those.
pub proof fn lemma_late_joiner_misses_history(
    slots: Seq<SlotModel>,
    s1: Seq<char>,
    id: int,
    later: Seq<Seq<char>>,
)
    requires
        0 <= id <= slots.len(),
        !subscribed(publish_spec(slots, s1), id),
    ensures
        ({
            let before = publish_spec(slots, s1);
            let joined = if id < slots.len() {
                before.update(id, Some(None))
            } else {
                before.push(Some(None))
            };
            &&& joined[id] == Some(None::<Seq<char>>)
            &&& later.len() == 0 ==> publish_all(joined, later)[id] == Some(None::<Seq<char>>)
            &&& later.len() > 0 ==> publish_all(joined, later)[id] == Some(Some(later.last()))
        }),
{
    let before = publish_spec(slots, s1);
    let joined = if id < slots.len() {
        before.update(id, Some(None))
    } else {
        before.push(Some(None))
    };
    assert(subscribed(joined, id));
    if later.len() > 0 {
        lemma_latest_wins(joined, id, later);
    }
}

} // verus!
