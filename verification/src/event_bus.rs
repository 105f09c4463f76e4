//! The state of the publish/subscribe event bus.
//!
//! Every subscriber owns a queue of events under its subscription id.  A
//! published event is appended, as a clone, to every subscriber's queue;
//! a subscriber takes events from the front of its own queue.  Ids come
//! from a fixed pool and go back to it when the subscriber unsubscribes.
//! With delayed deletion, an unsubscription only marks the id, and a later
//! clean-up drops the marked queues.

use std::collections::{HashMap, HashSet, VecDeque};

use vstd::prelude::*;

verus! {

broadcast use vstd::std_specs::hash::group_hash_axioms;

/// A subscription id.
pub type SubId = u32;

/// The id of a handle that holds no subscription.
pub const NULL_SUBID: SubId = 0;

/// One past the largest subscription id: ids run from 1 to 65534.
pub const SUBID_LIMIT: SubId = 65535;

/// Errors of the event bus.
#[derive(Debug, PartialEq, Eq)]
pub enum EventBusError {
    /// No subscription id is free.
    ResourceExhaustion,
    /// The bus actor failed.
    ActorError(String),
    /// A request could not be sent to the bus.
    ChannelSendError,
    /// A reply could not be received from the bus.
    ChannelRcvError,
    /// A handle failed.
    HandleError(String),
}

/// The ids the bus hands out.
pub open spec fn id_range() -> Set<SubId> {
    Set::new(|id: SubId| 1 <= id < SUBID_LIMIT)
}

/// `new` extends `old` by one element at the back, a clone of `event`.
pub open spec fn pushed_clone<T: Clone>(old: Seq<T>, new: Seq<T>, event: T) -> bool {
    &&& new.len() == old.len() + 1
    &&& new.subrange(0, old.len() as int) == old
    &&& cloned(event, new[old.len() as int])
}

/// The event bus actor's state.
pub struct EventBus<T> {
    event_queues: HashMap<SubId, VecDeque<T>>,
    ids: HashSet<SubId>,
    recycle: Vec<SubId>,
}

impl<T: Clone> EventBus<T> {
    /// The event queue of each subscriber, by subscription id.
    pub closed spec fn queues(&self) -> Map<SubId, Seq<T>> {
        Map::new(
            |id: SubId| self.event_queues@.contains_key(id),
            |id: SubId| self.event_queues@[id]@,
        )
    }

    /// The ids that are free to hand out.
    pub closed spec fn free_ids(&self) -> Set<SubId> {
        self.ids@
    }

    /// The ids marked for removal by a delayed unsubscription, in order.
    pub closed spec fn marked(&self) -> Seq<SubId> {
        self.recycle@
    }

    /// Free ids and subscribed ids are disjoint, and both lie in the id range.
    pub open spec fn wf(&self) -> bool {
        &&& self.free_ids().subset_of(id_range())
        &&& self.queues().dom().subset_of(id_range())
        &&& self.free_ids().disjoint(self.queues().dom())
    }

    /// No id is lost: every id of the range is either free or subscribed.
    /// Every operation but the delayed clean-up keeps this.
    pub open spec fn conserves_ids(&self) -> bool {
        self.free_ids() + self.queues().dom() == id_range()
    }

    /// A new bus: every id free, no subscriber, nothing marked.
    pub fn new() -> (bus: Self)
        ensures
            bus.wf(),
            bus.conserves_ids(),
            bus.free_ids() == id_range(),
            bus.queues().dom().is_empty(),
            bus.marked().len() == 0,
    {
        let mut ids: HashSet<SubId> = HashSet::new();
        let mut i: SubId = 1;
        while i < SUBID_LIMIT
            invariant
                1 <= i <= SUBID_LIMIT,
                ids@ == Set::new(|id: SubId| 1 <= id < i),
            decreases SUBID_LIMIT - i,
        {
            ids.insert(i);
            i = i + 1;
            assert(ids@ =~= Set::new(|id: SubId| 1 <= id < i));
        }
        let bus = EventBus { event_queues: HashMap::new(), ids, recycle: Vec::new() };
        assert(bus.queues().dom() =~= Set::<SubId>::empty());
        assert(bus.free_ids() + bus.queues().dom() =~= id_range());
        bus
    }

    /// Takes some free id, if there is one.
    fn any_free_id(&self) -> (r: Option<SubId>)
        ensures
            r is Some ==> self.free_ids().contains(r->0),
            r is None ==> self.free_ids().is_empty(),
    {
        let mut r: Option<SubId> = None;
        for id in iter: self.ids.iter()
            invariant_except_break
                r is None,
                iter.index() == 0,
            invariant
                iter.seq().unref().to_set() == self.ids@,
            ensures
                r is Some ==> self.ids@.contains(r->0),
                r is None ==> iter.seq().unref() =~= Seq::<SubId>::empty(),
        {
            r = Some(*id);
            break;
        }
        r
    }

    /// What a subscription does: on success, a free id becomes a
    /// subscriber with an empty queue; it fails, changing nothing, exactly
    /// when no id is free.
    pub open spec fn subscribe_post(
        old: Self,
        new: Self,
        r: Result<SubId, EventBusError>,
    ) -> bool {
        match r {
            Ok(id) => {
                &&& old.free_ids().contains(id)
                &&& new.free_ids() == old.free_ids().remove(id)
                &&& new.queues() == old.queues().insert(id, Seq::empty())
                &&& new.marked() == old.marked()
            },
            Err(e) => {
                &&& e == EventBusError::ResourceExhaustion
                &&& old.free_ids().is_empty()
                &&& new.free_ids() == old.free_ids()
                &&& new.queues() == old.queues()
                &&& new.marked() == old.marked()
            },
        }
    }

    /// Subscribes a new subscriber and returns its id.
    pub fn subscribe(&mut self) -> (r: Result<SubId, EventBusError>)
        requires
            old(self).wf(),
        ensures
            final(self).wf(),
            old(self).conserves_ids() ==> final(self).conserves_ids(),
            Self::subscribe_post(*old(self), *final(self), r),
            r is Err <==> old(self).free_ids().is_empty(),
    {
        match self.any_free_id() {
            None => Err(EventBusError::ResourceExhaustion),
            Some(new_id) => {
                self.event_queues.insert(new_id, VecDeque::new());
                self.ids.remove(&new_id);
                assert(self.queues() =~= old(self).queues().insert(new_id, Seq::empty()));
                assert(old(self).conserves_ids() ==> self.free_ids() + self.queues().dom()
                    =~= old(self).free_ids() + old(self).queues().dom());
                Ok(new_id)
            },
        }
    }

    /// What an unsubscription does: a subscriber's queue is removed and
    /// handed back, and its id is free again; an id without a queue
    /// changes nothing.
    pub open spec fn unsubscribe_post(old: Self, new: Self, id: SubId, r: Option<Seq<T>>) -> bool {
        if old.queues().contains_key(id) {
            &&& r == Some(old.queues()[id])
            &&& new.queues() == old.queues().remove(id)
            &&& new.free_ids() == old.free_ids().insert(id)
            &&& new.marked() == old.marked()
        } else {
            &&& r is None
            &&& new.queues() == old.queues()
            &&& new.free_ids() == old.free_ids()
            &&& new.marked() == old.marked()
        }
    }

    /// Unsubscribes `id` at once, returning the events still queued for it.
    pub fn unsubscribe(&mut self, id: SubId) -> (r: Option<VecDeque<T>>)
        requires
            old(self).wf(),
        ensures
            final(self).wf(),
            old(self).conserves_ids() ==> final(self).conserves_ids(),
            Self::unsubscribe_post(
                *old(self),
                *final(self),
                id,
                match r {
                    Some(q) => Some(q@),
                    None => None,
                },
            ),
    {
        match self.event_queues.remove(&id) {
            Some(queue) => {
                self.ids.insert(id);
                assert(self.queues() =~= old(self).queues().remove(id));
                assert(old(self).conserves_ids() ==> self.free_ids() + self.queues().dom()
                    =~= old(self).free_ids() + old(self).queues().dom());
                Some(queue)
            },
            None => {
                assert(self.queues() =~= old(self).queues());
                None
            },
        }
    }

    /// Marks `id` for removal by the next clean-up; its queue stays until
    /// then.
    pub fn mark_for_removal(&mut self, id: SubId)
        requires
            old(self).wf(),
        ensures
            final(self).wf(),
            old(self).conserves_ids() ==> final(self).conserves_ids(),
            final(self).queues() == old(self).queues(),
            final(self).free_ids() == old(self).free_ids(),
            final(self).marked() == old(self).marked().push(id),
    {
        self.recycle.push(id);
    }

    /// Drops the queues of all marked ids and clears the marks.  The ids
    /// do not go back to the pool.
    pub fn cleanup(&mut self)
        requires
            old(self).wf(),
        ensures
            final(self).wf(),
            final(self).queues() == old(self).queues().remove_keys(old(self).marked().to_set()),
            final(self).free_ids() == old(self).free_ids(),
            final(self).marked().len() == 0,
    {
        let marked = self.recycle.clone();
        self.recycle.clear();
        assert(marked@ =~= old(self).recycle@);
        let mut i: usize = 0;
        while i < marked.len()
            invariant
                0 <= i <= marked.len(),
                self.queues() == old(self).queues().remove_keys(marked@.subrange(0, i as int).to_set()),
                self.ids@ == old(self).ids@,
                self.recycle@.len() == 0,
                marked@ == old(self).recycle@,
            decreases marked.len() - i,
        {
            let id = marked[i];
            let ghost before = self.queues();
            self.event_queues.remove(&id);
            assert(self.queues() =~= before.remove(id));
            assert(marked@.subrange(0, i + 1 as int).to_set() =~= marked@.subrange(0, i as int).to_set().insert(id)) by {
                assert(marked@.subrange(0, i + 1 as int) =~= marked@.subrange(0, i as int).push(id));
                marked@.subrange(0, i as int).lemma_push_to_set_commute(id);
            }
            i = i + 1;
            assert(self.queues() =~= old(self).queues().remove_keys(
                marked@.subrange(0, i as int).to_set(),
            ));
        }
        assert(marked@.subrange(0, i as int) =~= marked@);
    }

    /// The subscription ids, in some order, each once.
    fn subscriber_ids(&self) -> (keys: Vec<SubId>)
        ensures
            keys@.no_duplicates(),
            keys@.to_set() == self.queues().dom(),
    {
        let mut keys: Vec<SubId> = Vec::new();
        for k in it: self.event_queues.keys()
            invariant
                forall|k: SubId| it.seq().unref().contains(k) <==> self.event_queues@.dom().contains(k),
                it.seq().no_duplicates(),
                keys@ == it.seq().unref().subrange(0, it.index() as int),
                forall|j: int| 0 <= j < it.index() ==> keys@.contains(#[trigger] it.seq().unref()[j]),
                forall|k: SubId| keys@.contains(k) ==> self.event_queues@.dom().contains(k),
            ensures
                forall|k: SubId| keys@.contains(k) <==> self.event_queues@.dom().contains(k),
                forall|a: int, b: int| 0 <= a < b < keys@.len() ==> keys@[a] != keys@[b],
        {
            let ghost prev = keys@;
            keys.push(*k);
            assert(keys@ =~= it.seq().unref().subrange(0, it.index() as int + 1));
            assert(keys@ == prev.push(*k));
            assert(keys@[prev.len() as int] == *k);
            assert(it.seq().unref().contains(*k)) by {
                assert(it.seq().unref()[it.index() as int] == *k);
            }
        }
        proof {
            assert(self.queues().dom() =~= self.event_queues@.dom());
            assert(keys@.to_set() =~= self.event_queues@.dom());
        }
        keys
    }

    /// What publishing does: every subscriber's queue grows by a clone of
    /// the event at its back; nothing else changes.
    pub open spec fn push_post(old: Self, new: Self, event: T) -> bool {
        &&& new.queues().dom() == old.queues().dom()
        &&& forall|id: SubId| #[trigger]
            old.queues().contains_key(id) ==> pushed_clone(
                old.queues()[id],
                new.queues()[id],
                event,
            )
        &&& new.free_ids() == old.free_ids()
        &&& new.marked() == old.marked()
    }

    /// Publishes an event to every subscriber.
    pub fn push_to_event_queues(&mut self, event: T) -> (r: Result<(), EventBusError>)
        requires
            old(self).wf(),
        ensures
            final(self).wf(),
            old(self).conserves_ids() ==> final(self).conserves_ids(),
            Self::push_post(*old(self), *final(self), event),
            r is Ok,
    {
        let keys = self.subscriber_ids();
        let mut i: usize = 0;
        while i < keys.len()
            invariant
                0 <= i <= keys.len(),
                keys@.no_duplicates(),
                keys@.to_set() == old(self).queues().dom(),
                self.queues().dom() == old(self).queues().dom(),
                self.ids@ == old(self).ids@,
                self.recycle@ == old(self).recycle@,
                forall|id: SubId| #[trigger]
                    old(self).queues().contains_key(id) ==> if keys@.subrange(
                        0,
                        i as int,
                    ).contains(id) {
                        pushed_clone(old(self).queues()[id], self.queues()[id], event)
                    } else {
                        self.queues()[id] == old(self).queues()[id]
                    },
            decreases keys.len() - i,
        {
            let id = keys[i];
            assert(keys@.to_set().contains(id));
            let ghost before = self.queues();
            assert(old(self).queues().contains_key(id));
            assert(!keys@.subrange(0, i as int).contains(id)) by {
                if keys@.subrange(0, i as int).contains(id) {
                    let j = choose|j: int| 0 <= j < i && keys@.subrange(0, i as int)[j] == id;
                    assert(keys@[j] == keys@[i as int]);
                }
            }
            assert(before[id] == old(self).queues()[id]);
            match self.event_queues.remove(&id) {
                Some(mut queue) => {
                    let c = event.clone();
                    assert(cloned(event, c));
                    queue.push_back(c);
                    self.event_queues.insert(id, queue);
                    assert(self.queues()[id] == before[id].push(c));
                    assert(pushed_clone(before[id], self.queues()[id], event)) by {
                        assert(self.queues()[id].subrange(0, before[id].len() as int) =~= before[id]);
                    }
                },
                None => {
                    assert(false);
                },
            }
            proof {
                assert(pushed_clone(before[id], self.queues()[id], event));
                assert(self.queues().dom() =~= before.dom());
                assert forall|k: SubId| #[trigger]
                    old(self).queues().contains_key(k) implies if keys@.subrange(
                        0,
                        i + 1 as int,
                    ).contains(k) {
                        pushed_clone(old(self).queues()[k], self.queues()[k], event)
                    } else {
                        self.queues()[k] == old(self).queues()[k]
                    } by {
                    assert(keys@.subrange(0, i + 1 as int) =~= keys@.subrange(0, i as int).push(id));
                    if k == id {
                        assert(keys@.subrange(0, i + 1 as int).contains(k)) by {
                            assert(keys@.subrange(0, i + 1 as int)[i as int] == id);
                        }
                    } else {
                        assert(self.queues()[k] == before[k]);
                        assert(keys@.subrange(0, i + 1 as int).contains(k) == keys@.subrange(
                            0,
                            i as int,
                        ).contains(k));
                    }
                }
            }
            i = i + 1;
        }
        proof {
            assert(keys@.subrange(0, i as int) =~= keys@);
            assert(self.queues().dom() =~= old(self).queues().dom());
        }
        Ok(())
    }

    /// What a poll does: the front event of the subscriber's queue is
    /// taken; an empty queue or an id without a queue gives nothing.
    pub open spec fn poll_post(old: Self, new: Self, id: SubId, r: Option<T>) -> bool {
        &&& new.free_ids() == old.free_ids()
        &&& new.marked() == old.marked()
        &&& if old.queues().contains_key(id) && old.queues()[id].len() > 0 {
            &&& r == Some(old.queues()[id][0])
            &&& new.queues() == old.queues().insert(id, old.queues()[id].drop_first())
        } else {
            &&& r is None
            &&& new.queues() == old.queues()
        }
    }

    /// Takes the front event of the subscriber's queue.
    pub fn poll(&mut self, id: SubId) -> (r: Option<T>)
        requires
            old(self).wf(),
        ensures
            final(self).wf(),
            old(self).conserves_ids() ==> final(self).conserves_ids(),
            Self::poll_post(*old(self), *final(self), id, r),
    {
        match self.event_queues.remove(&id) {
            Some(mut queue) => {
                let item = queue.pop_front();
                self.event_queues.insert(id, queue);
                proof {
                    if old(self).queues()[id].len() > 0 {
                        assert(self.queues() =~= old(self).queues().insert(
                            id,
                            old(self).queues()[id].drop_first(),
                        ));
                    } else {
                        assert(self.queues() =~= old(self).queues());
                    }
                }
                item
            },
            None => {
                assert(self.queues() =~= old(self).queues());
                None
            },
        }
    }

    /// What a batch poll does: every event of the subscriber's queue is
    /// taken, in order, and the queue is left empty; an id without a queue
    /// gives nothing.
    pub open spec fn batch_poll_post(old: Self, new: Self, id: SubId, r: Seq<T>) -> bool {
        &&& new.free_ids() == old.free_ids()
        &&& new.marked() == old.marked()
        &&& if old.queues().contains_key(id) {
            &&& r == old.queues()[id]
            &&& new.queues() == old.queues().insert(id, Seq::empty())
        } else {
            &&& r.len() == 0
            &&& new.queues() == old.queues()
        }
    }

    /// Takes every event of the subscriber's queue.
    pub fn batch_poll(&mut self, id: SubId) -> (r: Vec<T>)
        requires
            old(self).wf(),
        ensures
            final(self).wf(),
            old(self).conserves_ids() ==> final(self).conserves_ids(),
            Self::batch_poll_post(*old(self), *final(self), id, r@),
            final(self).free_ids() == old(self).free_ids(),
            old(self).queues().contains_key(id) ==> {
                &&& r@ == old(self).queues()[id]
                &&& final(self).queues().contains_key(id)
                &&& final(self).queues()[id].len() == 0
            },
    {
        let mut items: Vec<T> = Vec::new();
        match self.event_queues.remove(&id) {
            Some(mut queue) => {
                let ghost all = queue@;
                while queue.len() > 0
                    invariant
                        items@ + queue@ == all,
                    decreases queue@.len(),
                {
                    let ghost q = queue@;
                    match queue.pop_front() {
                        Some(i) => {
                            items.push(i);
                            assert(items@ + queue@ =~= all) by {
                                assert(q =~= seq![i] + queue@);
                            }
                        },
                        None => {},
                    }
                }
                assert(queue@ =~= Seq::<T>::empty());
                self.event_queues.insert(id, queue);
                proof {
                    assert(items@ =~= all);
                    assert(self.queues() =~= old(self).queues().insert(id, Seq::empty()));
                }
            },
            None => {
                assert(self.queues() =~= old(self).queues());
            },
        }
        items
    }

    /// Serves one request to the bus and gives the reply.  With delayed
    /// deletion, an unsubscription only marks the id.
    pub fn handle(&mut self, req: BusRequest<T>, delay_delete: bool) -> (reply: BusReply<T>)
        requires
            old(self).wf(),
        ensures
            final(self).wf(),
            match req {
                BusRequest::Subscribe => match reply {
                    BusReply::Subscribed(r) => Self::subscribe_post(*old(self), *final(self), r),
                    _ => false,
                },
                BusRequest::Unsubscribe { id } => match reply {
                    BusReply::Unsubscribed(r) => if delay_delete {
                        &&& r is None
                        &&& final(self).queues() == old(self).queues()
                        &&& final(self).free_ids() == old(self).free_ids()
                        &&& final(self).marked() == old(self).marked().push(id)
                    } else {
                        Self::unsubscribe_post(
                            *old(self),
                            *final(self),
                            id,
                            match r {
                                Some(q) => Some(q@),
                                None => None,
                            },
                        )
                    },
                    _ => false,
                },
                BusRequest::PushEvent { event } => match reply {
                    BusReply::Pushed(r) => r is Ok && Self::push_post(*old(self), *final(self), event),
                    _ => false,
                },
                BusRequest::Poll { id } => match reply {
                    BusReply::Polled(r) => Self::poll_post(*old(self), *final(self), id, r),
                    _ => false,
                },
                BusRequest::BatchPoll { id } => match reply {
                    BusReply::BatchPolled(r) => Self::batch_poll_post(
                        *old(self),
                        *final(self),
                        id,
                        r@,
                    ),
                    _ => false,
                },
                BusRequest::CleanUp => {
                    &&& reply is CleanedUp
                    &&& final(self).queues() == old(self).queues().remove_keys(
                        old(self).marked().to_set(),
                    )
                    &&& final(self).free_ids() == old(self).free_ids()
                    &&& final(self).marked().len() == 0
                },
            },
    {
        match req {
            BusRequest::Subscribe => BusReply::Subscribed(self.subscribe()),
            BusRequest::Unsubscribe { id } => {
                if delay_delete {
                    self.mark_for_removal(id);
                    BusReply::Unsubscribed(None)
                } else {
                    BusReply::Unsubscribed(self.unsubscribe(id))
                }
            },
            BusRequest::PushEvent { event } => BusReply::Pushed(self.push_to_event_queues(event)),
            BusRequest::Poll { id } => BusReply::Polled(self.poll(id)),
            BusRequest::BatchPoll { id } => BusReply::BatchPolled(self.batch_poll(id)),
            BusRequest::CleanUp => {
                self.cleanup();
                BusReply::CleanedUp
            },
        }
    }
}

/// A request to the event bus actor.
pub enum BusRequest<T> {
    /// Subscribe a new subscriber.
    Subscribe,
    /// End the subscription `id`.
    Unsubscribe { id: SubId },
    /// Publish an event to every subscriber.
    PushEvent { event: T },
    /// Take the front event of subscriber `id`.
    Poll { id: SubId },
    /// Take every event of subscriber `id`.
    BatchPoll { id: SubId },
    /// Drop the queues of the subscriptions marked for removal.
    CleanUp,
}

/// The event bus actor's reply to a [`BusRequest`].
pub enum BusReply<T> {
    Subscribed(Result<SubId, EventBusError>),
    Unsubscribed(Option<VecDeque<T>>),
    Pushed(Result<(), EventBusError>),
    Polled(Option<T>),
    BatchPolled(Vec<T>),
    CleanedUp,
}

/// Unsubscribing right after subscribing restores the bus: the queue
/// that comes back is empty, the id is free again, and every other
/// subscriber is untouched.
pub proof fn lemma_unsubscribe_undoes_subscribe<T: Clone>(
    b0: EventBus<T>,
    b1: EventBus<T>,
    b2: EventBus<T>,
    id: SubId,
    r: Option<Seq<T>>,
)
    requires
        b0.wf(),
        EventBus::subscribe_post(b0, b1, Ok(id)),
        EventBus::unsubscribe_post(b1, b2, id, r),
    ensures
        r == Some(Seq::<T>::empty()),
        b2.queues() == b0.queues(),
        b2.free_ids() == b0.free_ids(),
        b2.marked() == b0.marked(),
{
    assert(!b0.queues().contains_key(id));
    assert(b2.queues() =~= b0.queues());
    assert(b2.free_ids() =~= b0.free_ids());
}

/// A subscription never hands out an id that is in use, so two
/// subscriptions in a row get different ids.
pub proof fn lemma_subscription_ids_are_fresh<T: Clone>(
    b0: EventBus<T>,
    b1: EventBus<T>,
    b2: EventBus<T>,
    a: SubId,
    b: SubId,
)
    requires
        b0.wf(),
        EventBus::subscribe_post(b0, b1, Ok(a)),
        EventBus::subscribe_post(b1, b2, Ok(b)),
    ensures
        !b0.queues().contains_key(a),
        1 <= a < SUBID_LIMIT,
        a != b,
        b2.queues().contains_key(a),
        b2.queues().contains_key(b),
{
}

/// Events reach a subscriber in the order they were published: a poll
/// after a publication gives the subscriber's oldest event, which is the
/// published one (a clone of it) when the queue was empty.
pub proof fn lemma_publish_then_poll<T: Clone>(
    b0: EventBus<T>,
    b1: EventBus<T>,
    b2: EventBus<T>,
    id: SubId,
    event: T,
    r: Option<T>,
)
    requires
        b0.queues().contains_key(id),
        EventBus::push_post(b0, b1, event),
        EventBus::poll_post(b1, b2, id, r),
    ensures
        r is Some,
        b0.queues()[id].len() == 0 ==> cloned(event, r->0),
        b0.queues()[id].len() > 0 ==> r->0 == b0.queues()[id][0],
        b2.queues()[id].len() == b0.queues()[id].len(),
{
    let q = b0.queues()[id];
    assert(pushed_clone(q, b1.queues()[id], event));
    if q.len() > 0 {
        assert(b1.queues()[id][0] == b1.queues()[id].subrange(0, q.len() as int)[0]);
    }
}

/// A batch poll drains the subscriber: a poll right after it gives
/// nothing.
pub proof fn lemma_batch_poll_drains<T: Clone>(
    b0: EventBus<T>,
    b1: EventBus<T>,
    b2: EventBus<T>,
    id: SubId,
    events: Seq<T>,
    r: Option<T>,
)
    requires
        EventBus::batch_poll_post(b0, b1, id, events),
        EventBus::poll_post(b1, b2, id, r),
    ensures
        r is None,
        b2.queues() == b1.queues(),
{
}

/// When every id is subscribed and none was lost, a subscription fails
/// with resource exhaustion and changes nothing.
pub proof fn lemma_full_bus_refuses<T: Clone>(
    b0: EventBus<T>,
    b1: EventBus<T>,
    r: Result<SubId, EventBusError>,
)
    requires
        b0.wf(),
        b0.conserves_ids(),
        b0.queues().dom() == id_range(),
        EventBus::subscribe_post(b0, b1, r),
    ensures
        r == Err::<SubId, EventBusError>(EventBusError::ResourceExhaustion),
        b1.queues() == b0.queues(),
{
    if let Ok(id) = r {
        assert(b0.free_ids().contains(id));
        assert(id_range().contains(id));
    }
}

/// After unsubscribing, a subscriber receives nothing more: events
/// published later do not reach it, and polling it gives nothing.
pub proof fn lemma_unsubscribed_receives_nothing<T: Clone>(
    b0: EventBus<T>,
    b1: EventBus<T>,
    b2: EventBus<T>,
    b3: EventBus<T>,
    id: SubId,
    q: Option<Seq<T>>,
    event: T,
    r: Option<T>,
)
    requires
        EventBus::unsubscribe_post(b0, b1, id, q),
        EventBus::push_post(b1, b2, event),
        EventBus::poll_post(b2, b3, id, r),
    ensures
        !b2.queues().contains_key(id),
        r is None,
{
}

/// A batch poll keeps the subscription: it hands back every queued event,
/// leaves the id subscribed (not freed), and an event published
/// afterwards still reaches the subscriber.
pub proof fn lemma_batch_poll_keeps_subscription<T: Clone>(
    b0: EventBus<T>,
    b1: EventBus<T>,
    b2: EventBus<T>,
    b3: EventBus<T>,
    id: SubId,
    events: Seq<T>,
    event: T,
    r: Option<T>,
)
    requires
        b0.queues().contains_key(id),
        EventBus::batch_poll_post(b0, b1, id, events),
        EventBus::push_post(b1, b2, event),
        EventBus::poll_post(b2, b3, id, r),
    ensures
        events == b0.queues()[id],
        b1.queues().contains_key(id),
        b1.queues()[id].len() == 0,
        b1.free_ids() == b0.free_ids(),
        !b1.free_ids().contains(id) <== !b0.free_ids().contains(id),
        r is Some,
        cloned(event, r->0),
{
    assert(pushed_clone(b1.queues()[id], b2.queues()[id], event));
}

} // verus!
