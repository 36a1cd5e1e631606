use vstd::prelude::*;
use crate::keyed::KeyedList;
use crate::tables::{PublisherTable, ServiceTable};

verus! {

/// The listener sets of a list of services, each by its view.
pub open spec fn listener_maps<L>(m: Map<Seq<u8>, KeyedList<u64, L>>) -> Map<Seq<u8>, Map<u64, L>> {
    Map::new(|k: Seq<u8>| m.dom().contains(k), |k: Seq<u8>| m[k].map())
}

/// The subscribers after a registration: a newly created subscriber is stored
/// under the service's name.
pub open spec fn subscribers_after_register<S>(
    subscribers: Map<Seq<u8>, S>,
    name: Seq<u8>,
    new_subscriber: Option<S>,
) -> Map<Seq<u8>, S> {
    match new_subscriber {
        Some(s) => subscribers.insert(name, s),
        None => subscribers,
    }
}

/// A listener set with one more listener; a listener already present stays
/// as it was.
pub open spec fn with_listener<L>(set: Map<u64, L>, id: u64, listener: L) -> Map<u64, L> {
    if set.dom().contains(id) {
        set
    } else {
        set.insert(id, listener)
    }
}

/// The listener sets after a registration: the listener joins the service's
/// set, which is created where the service has none.
pub open spec fn listeners_after_register<L>(
    listeners: Map<Seq<u8>, Map<u64, L>>,
    name: Seq<u8>,
    id: u64,
    listener: L,
) -> Map<Seq<u8>, Map<u64, L>> {
    let set = if listeners.dom().contains(name) {
        listeners[name]
    } else {
        Map::<u64, L>::empty()
    };
    listeners.insert(name, with_listener(set, id, listener))
}

/// The publishers after a send looks up the publisher of a service: the
/// recorded one is reused; only where none is recorded is the newly created
/// one recorded.
pub open spec fn publishers_after_get_or_create<P>(
    publishers: Map<Seq<u8>, P>,
    name: Seq<u8>,
    created: P,
) -> Map<Seq<u8>, P> {
    if publishers.dom().contains(name) {
        publishers
    } else {
        publishers.insert(name, created)
    }
}

/// The listener sets after an unregistration by the publish-subscribe
/// transport: the listener leaves the service's set, which stays even when
/// it becomes empty.
pub open spec fn pubsub_listeners_after_unregister<L>(
    listeners: Map<Seq<u8>, Map<u64, L>>,
    name: Seq<u8>,
    id: u64,
) -> Map<Seq<u8>, Map<u64, L>> {
    if listeners.dom().contains(name) {
        listeners.insert(name, listeners[name].remove(id))
    } else {
        listeners
    }
}

/// The listener sets after an unregistration by the worker: the listener
/// leaves the service's set, and a set left empty is dropped.
pub open spec fn worker_listeners_after_unregister<L>(
    listeners: Map<Seq<u8>, Map<u64, L>>,
    name: Seq<u8>,
    id: u64,
) -> Map<Seq<u8>, Map<u64, L>> {
    if !listeners.dom().contains(name) {
        listeners
    } else if unregister_empties(listeners, name, id) {
        listeners.remove(name)
    } else {
        listeners.insert(name, listeners[name].remove(id))
    }
}

/// Whether unregistering the listener leaves the service without listeners,
/// so that its subscriber is dropped.
pub open spec fn unregister_empties<L>(listeners: Map<Seq<u8>, Map<u64, L>>, name: Seq<u8>, id: u64) -> bool {
    &&& listeners.dom().contains(name)
    &&& forall|other: u64| #[trigger] listeners[name].dom().contains(other) ==> other == id
}

/// A listener set is left empty by removing one listener exactly when that
/// listener was the only one, or the set was empty.
pub proof fn lemma_remove_empties<L>(set: Map<u64, L>, id: u64)
    ensures
        (set.remove(id).dom() == Set::<u64>::empty()) <==> (forall|other: u64| #[trigger]
            set.dom().contains(other) ==> other == id),
{
    if forall|other: u64| #[trigger] set.dom().contains(other) ==> other == id {
        assert(set.remove(id).dom() =~= Set::<u64>::empty());
    }
    if set.remove(id).dom() == Set::<u64>::empty() {
        assert forall|other: u64| #[trigger] set.dom().contains(other) implies other == id by {
            if other != id {
                assert(set.remove(id).dom().contains(other));
            }
        }
    }
}

/// The subscribers after an unregistration: the service's subscriber goes
/// when its last listener goes.
pub open spec fn subscribers_after_unregister<S, L>(
    subscribers: Map<Seq<u8>, S>,
    listeners: Map<Seq<u8>, Map<u64, L>>,
    name: Seq<u8>,
    id: u64,
) -> Map<Seq<u8>, S> {
    if unregister_empties(listeners, name, id) {
        subscribers.remove(name)
    } else {
        subscribers
    }
}

/// After a registration the listener is in the service's set; every
/// listener registered before stays registered with the same value, and
/// every other service keeps its set.
pub proof fn lemma_register_adds_and_keeps<L>(
    listeners: Map<Seq<u8>, Map<u64, L>>,
    name: Seq<u8>,
    id: u64,
    listener: L,
    other: Seq<u8>,
    other_id: u64,
)
    ensures
        listeners_after_register(listeners, name, id, listener)[name].dom().contains(id),
        listeners.dom().contains(other) && listeners[other].dom().contains(other_id) ==> {
            let after = listeners_after_register(listeners, name, id, listener);
            &&& after.dom().contains(other)
            &&& after[other].dom().contains(other_id)
            &&& after[other][other_id] == listeners[other][other_id]
        },
        other != name ==> listeners_after_register(listeners, name, id, listener).dom().contains(
            other,
        ) == listeners.dom().contains(other),
        other != name && listeners.dom().contains(other) ==> listeners_after_register(
            listeners,
            name,
            id,
            listener,
        )[other] == listeners[other],
{
}

/// Registering a listener adds that listener alone: the service's set holds
/// exactly the listeners it held before and the new one; a listener that was
/// not yet there is stored as given, one that was keeps its value; every
/// other service keeps its set; the services with sets are those before and
/// this one.
pub proof fn lemma_register_adds_only_that_listener<L>(
    listeners: Map<Seq<u8>, Map<u64, L>>,
    name: Seq<u8>,
    id: u64,
    listener: L,
    other_id: u64,
)
    ensures
        listeners_after_register(listeners, name, id, listener).dom() == listeners.dom().insert(
            name,
        ),
        listeners_after_register(listeners, name, id, listener)[name].dom() == if listeners.dom().contains(
            name,
        ) {
            listeners[name].dom().insert(id)
        } else {
            Set::<u64>::empty().insert(id)
        },
        !(listeners.dom().contains(name) && listeners[name].dom().contains(id))
            ==> listeners_after_register(listeners, name, id, listener)[name][id] == listener,
        listeners.dom().contains(name) && listeners[name].dom().contains(other_id)
            ==> listeners_after_register(listeners, name, id, listener)[name][other_id]
            == listeners[name][other_id],
{
    let after = listeners_after_register(listeners, name, id, listener);
    assert(after.dom() =~= listeners.dom().insert(name));
    if listeners.dom().contains(name) {
        assert(after[name].dom() =~= listeners[name].dom().insert(id));
    } else {
        assert(after[name].dom() =~= Set::<u64>::empty().insert(id));
    }
}

/// Registering stores a newly created subscriber under the service's name
/// and leaves every other subscriber as it was; with no new subscriber the
/// subscribers stay as they were.
pub proof fn lemma_register_stores_new_subscriber<S>(
    subscribers: Map<Seq<u8>, S>,
    name: Seq<u8>,
    new_subscriber: Option<S>,
    other: Seq<u8>,
)
    ensures
        new_subscriber matches Some(s) ==> subscribers_after_register(
            subscribers,
            name,
            new_subscriber,
        ).dom().contains(name) && subscribers_after_register(subscribers, name, new_subscriber)[name]
            == s,
        new_subscriber is None ==> subscribers_after_register(subscribers, name, new_subscriber)
            == subscribers,
        other != name ==> (subscribers_after_register(subscribers, name, new_subscriber).dom().contains(
            other,
        ) <==> subscribers.dom().contains(other)),
        other != name && subscribers.dom().contains(other) ==> subscribers_after_register(
            subscribers,
            name,
            new_subscriber,
        )[other] == subscribers[other],
{
}

/// Registering a listener again after unregistering it puts it back in the
/// service's set, whatever the set held.
pub proof fn lemma_register_after_unregister<L>(
    listeners: Map<Seq<u8>, Map<u64, L>>,
    name: Seq<u8>,
    id: u64,
    listener: L,
)
    ensures
        ({
            let after = listeners_after_register(
                pubsub_listeners_after_unregister(listeners, name, id),
                name,
                id,
                listener,
            );
            after[name].dom().contains(id) && after[name][id] == listener
        }),
{
}

/// Looking up the publisher of a service keeps every publisher recorded for
/// another service, and keeps a publisher already recorded for this one;
/// only where none was recorded does the created one join.
pub proof fn lemma_get_or_create_keeps_recorded<P>(
    publishers: Map<Seq<u8>, P>,
    name: Seq<u8>,
    created: P,
    other: Seq<u8>,
)
    ensures
        publishers_after_get_or_create(publishers, name, created).dom() == publishers.dom().insert(
            name,
        ),
        publishers.dom().contains(other) ==> publishers_after_get_or_create(
            publishers,
            name,
            created,
        )[other] == publishers[other],
        !publishers.dom().contains(name) ==> publishers_after_get_or_create(
            publishers,
            name,
            created,
        )[name] == created,
{
    assert(publishers_after_get_or_create(publishers, name, created).dom() =~= publishers.dom().insert(
        name,
    ));
}

/// Looking up the publisher of a service twice, with whatever publishers
/// were created meanwhile, records it once: the second look-up changes
/// nothing and finds the publisher recorded by the first.
pub proof fn lemma_get_or_create_twice<P>(
    publishers: Map<Seq<u8>, P>,
    name: Seq<u8>,
    first: P,
    second: P,
)
    requires
        publishers.dom().finite(),
    ensures
        ({
            let once = publishers_after_get_or_create(publishers, name, first);
            let twice = publishers_after_get_or_create(once, name, second);
            &&& twice == once
            &&& twice[name] == if publishers.dom().contains(name) {
                publishers[name]
            } else {
                first
            }
            &&& twice.dom().len() == if publishers.dom().contains(name) {
                publishers.dom().len()
            } else {
                publishers.dom().len() + 1
            }
        }),
{
}

/// Registering a listener for a service that has no listener set, with a
/// freshly created subscriber, and then unregistering that listener, drops
/// the subscriber again and leaves the service with an empty listener set.
pub proof fn lemma_pubsub_register_then_unregister<S, L>(
    subscribers: Map<Seq<u8>, S>,
    listeners: Map<Seq<u8>, Map<u64, L>>,
    name: Seq<u8>,
    subscriber: S,
    id: u64,
    listener: L,
)
    requires
        !subscribers.dom().contains(name),
        !listeners.dom().contains(name),
    ensures
        ({
            let subs1 = subscribers_after_register(subscribers, name, Some(subscriber));
            let ls1 = listeners_after_register(listeners, name, id, listener);
            &&& subscribers_after_unregister(subs1, ls1, name, id) == subscribers
            &&& pubsub_listeners_after_unregister(ls1, name, id) == listeners.insert(
                name,
                Map::<u64, L>::empty(),
            )
        }),
{
    let subs1 = subscribers.insert(name, subscriber);
    let ls1 = listeners.insert(name, Map::<u64, L>::empty().insert(id, listener));
    assert(listeners_after_register(listeners, name, id, listener) == ls1);
    assert(ls1[name].remove(id) =~= Map::<u64, L>::empty());
    assert(subs1.remove(name) =~= subscribers);
    assert(ls1.insert(name, ls1[name].remove(id)) =~= listeners.insert(name, Map::<u64, L>::empty()));
}

/// Unregistering a listener from the publish-subscribe transport takes out
/// that listener alone: the service keeps its set, which no longer holds the
/// listener and holds every other listener it had, each with its value; the
/// set holds no listener it did not have; every other service keeps its set.
pub proof fn lemma_pubsub_unregister_removes_only_that_listener<L>(
    listeners: Map<Seq<u8>, Map<u64, L>>,
    name: Seq<u8>,
    id: u64,
    other_id: u64,
    other: Seq<u8>,
)
    ensures
        pubsub_listeners_after_unregister(listeners, name, id).dom() == listeners.dom(),
        listeners.dom().contains(name) ==> !pubsub_listeners_after_unregister(listeners, name, id)[
            name].dom().contains(id),
        listeners.dom().contains(name) && other_id != id ==> (pubsub_listeners_after_unregister(
            listeners,
            name,
            id,
        )[name].dom().contains(other_id) <==> listeners[name].dom().contains(other_id)),
        listeners.dom().contains(name) && other_id != id && listeners[name].dom().contains(other_id)
            ==> pubsub_listeners_after_unregister(listeners, name, id)[name][other_id]
            == listeners[name][other_id],
        other != name && listeners.dom().contains(other) ==> pubsub_listeners_after_unregister(
            listeners,
            name,
            id,
        )[other] == listeners[other],
{
}

/// Unregistering a listener from the worker takes out that listener alone:
/// the service keeps every other listener it had, each with its value, and
/// no listener it did not have; its set goes exactly when no other listener
/// is left; every other service keeps its set.
pub proof fn lemma_worker_unregister_removes_only_that_listener<L>(
    listeners: Map<Seq<u8>, Map<u64, L>>,
    name: Seq<u8>,
    id: u64,
    other_id: u64,
    other: Seq<u8>,
)
    ensures
        listeners.dom().contains(name) ==> (worker_listeners_after_unregister(
            listeners,
            name,
            id,
        ).dom().contains(name) <==> exists|k: u64| #[trigger]
            listeners[name].dom().contains(k) && k != id),
        worker_listeners_after_unregister(listeners, name, id).dom().contains(name) ==> {
            let after = worker_listeners_after_unregister(listeners, name, id);
            &&& listeners.dom().contains(name)
            &&& !after[name].dom().contains(id)
            &&& other_id != id ==> (after[name].dom().contains(other_id)
                <==> listeners[name].dom().contains(other_id))
            &&& other_id != id && listeners[name].dom().contains(other_id) ==> after[name][other_id]
                == listeners[name][other_id]
        },
        listeners.dom().contains(name) && other_id != id && listeners[name].dom().contains(other_id)
            ==> worker_listeners_after_unregister(listeners, name, id).dom().contains(name),
        other != name ==> (worker_listeners_after_unregister(listeners, name, id).dom().contains(
            other,
        ) <==> listeners.dom().contains(other)),
        other != name && listeners.dom().contains(other) ==> worker_listeners_after_unregister(
            listeners,
            name,
            id,
        )[other] == listeners[other],
{
    if listeners.dom().contains(name) && other_id != id && listeners[name].dom().contains(other_id) {
        assert(!unregister_empties(listeners, name, id));
    }
}

/// Unregistering a listener drops the service's subscriber exactly when the
/// service had a listener set and no listener but this one is left in it;
/// every other service keeps its subscriber.
pub proof fn lemma_unregister_drops_subscriber_only_when_last<S, L>(
    subscribers: Map<Seq<u8>, S>,
    listeners: Map<Seq<u8>, Map<u64, L>>,
    name: Seq<u8>,
    id: u64,
    other: Seq<u8>,
)
    ensures
        subscribers.dom().contains(name) ==> (subscribers_after_unregister(
            subscribers,
            listeners,
            name,
            id,
        ).dom().contains(name) <==> !(listeners.dom().contains(name) && forall|k: u64| #[trigger]
            listeners[name].dom().contains(k) ==> k == id)),
        !subscribers.dom().contains(name) ==> !subscribers_after_unregister(
            subscribers,
            listeners,
            name,
            id,
        ).dom().contains(name),
        subscribers_after_unregister(subscribers, listeners, name, id).dom().contains(name)
            ==> subscribers_after_unregister(subscribers, listeners, name, id)[name]
            == subscribers[name],
        other != name ==> (subscribers_after_unregister(
            subscribers,
            listeners,
            name,
            id,
        ).dom().contains(other) <==> subscribers.dom().contains(other)),
        other != name && subscribers.dom().contains(other) ==> subscribers_after_unregister(
            subscribers,
            listeners,
            name,
            id,
        )[other] == subscribers[other],
{
}

/// Unregistering from a service without a listener set changes nothing.
pub proof fn lemma_unregister_unknown_service<S, L>(
    subscribers: Map<Seq<u8>, S>,
    listeners: Map<Seq<u8>, Map<u64, L>>,
    name: Seq<u8>,
    id: u64,
)
    requires
        !listeners.dom().contains(name),
    ensures
        pubsub_listeners_after_unregister(listeners, name, id) == listeners,
        subscribers_after_unregister(subscribers, listeners, name, id) == subscribers,
{
}

/// A publisher recorded for a service is the one that later lookups of that
/// service find.
pub proof fn lemma_publisher_cached<P>(publishers: Map<Seq<u8>, P>, name: Seq<u8>, publisher: P)
    ensures
        publishers.insert(name, publisher).dom().contains(name),
        publishers.insert(name, publisher)[name] == publisher,
{
}

/// The bookkeeping of the publish-subscribe transport: its publishers and
/// subscribers by service name, and the listeners registered for each
/// service, each known by an identity number. A listener set stays when its
/// last listener leaves.
pub struct PubSubRegistry<P, S, L> {
    publishers: PublisherTable<P>,
    services: ServiceTable<S, L>,
}

impl<P, S, L> PubSubRegistry<P, S, L> {
    /// The publisher of each service.
    pub closed spec fn publishers(&self) -> Map<Seq<u8>, P> {
        self.publishers.map()
    }

    /// The subscriber of each service.
    pub closed spec fn subscribers(&self) -> Map<Seq<u8>, S> {
        self.services.subscribers()
    }

    /// The services with subscribers, in the order in which they are relayed.
    pub closed spec fn subscriber_order(&self) -> Seq<Seq<u8>> {
        self.services.subscriber_order()
    }

    /// The listeners of each service, by identity.
    pub closed spec fn listeners(&self) -> Map<Seq<u8>, Map<u64, L>> {
        self.services.listeners()
    }

    /// Every service with a subscriber has a listener set.
    pub open spec fn consistent(&self) -> bool {
        self.subscribers().dom().subset_of(self.listeners().dom())
    }

    #[verifier::type_invariant]
    closed spec fn inv(&self) -> bool {
        self.consistent()
    }

    /// No bookkeeping yet.
    pub fn new() -> (res: Self)
        ensures
            res.publishers() == Map::<Seq<u8>, P>::empty(),
            res.subscribers() == Map::<Seq<u8>, S>::empty(),
            res.listeners() == Map::<Seq<u8>, Map<u64, L>>::empty(),
            res.consistent(),
    {
        PubSubRegistry { publishers: PublisherTable::new(), services: ServiceTable::new() }
    }

    /// The publishers, for lookups.
    pub fn publisher_table(&self) -> (res: &PublisherTable<P>)
        ensures
            res.map() == self.publishers(),
    {
        &self.publishers
    }

    /// The subscribers and listeners, for lookups.
    pub fn service_table(&self) -> (res: &ServiceTable<S, L>)
        ensures
            res.subscribers() == self.subscribers(),
            res.subscriber_order() == self.subscriber_order(),
            res.listeners() == self.listeners(),
            self.consistent(),
    {
        proof { use_type_invariant(self); }
        &self.services
    }

    /// Records the publisher created for a service that had none.
    pub fn add_publisher(&mut self, name: Vec<u8>, publisher: P)
        requires
            !old(self).publishers().dom().contains(name@),
        ensures
            final(self).publishers() == old(self).publishers().insert(name@, publisher),
            final(self).publishers() == publishers_after_get_or_create(
                old(self).publishers(),
                name@,
                publisher,
            ),
            final(self).subscribers() == old(self).subscribers(),
            final(self).subscriber_order() == old(self).subscriber_order(),
            final(self).listeners() == old(self).listeners(),
    {
        proof { use_type_invariant(&*self); }
        let mut table = PublisherTable::new();
        std::mem::swap(&mut table, &mut self.publishers);
        table.add(name, publisher);
        self.publishers = table;
    }

    /// The publisher of a service: the recorded one where there is one;
    /// otherwise the one that `create` makes, which is then recorded. A
    /// failure to create is handed back and records nothing.
    pub fn get_or_create_publisher<E, F: FnOnce() -> Result<P, E>>(
        &mut self,
        name: Vec<u8>,
        create: F,
    ) -> (res: Result<&P, E>)
        requires
            !old(self).publishers().dom().contains(name@) ==> create.requires(()),
        ensures
            old(self).publishers().dom().contains(name@) ==> (res matches Ok(p) && *p == old(
                self,
            ).publishers()[name@]),
            !old(self).publishers().dom().contains(name@) ==> match res {
                Ok(p) => create.ensures((), Ok::<P, E>(*p)),
                Err(e) => create.ensures((), Err::<P, E>(e)),
            },
            res matches Ok(p) ==> (final(self).publishers() == publishers_after_get_or_create(
                old(self).publishers(),
                name@,
                *p,
            ) && *p == final(self).publishers()[name@]),
            res is Err ==> final(self).publishers() == old(self).publishers(),
            final(self).subscribers() == old(self).subscribers(),
            final(self).subscriber_order() == old(self).subscriber_order(),
            final(self).listeners() == old(self).listeners(),
    {
        proof { use_type_invariant(&*self); }
        let mut table = PublisherTable::new();
        std::mem::swap(&mut table, &mut self.publishers);
        let outcome = match table.get_or_create(name.clone(), create) {
            Ok(_) => Ok(()),
            Err(e) => Err(e),
        };
        self.publishers = table;
        match outcome {
            Ok(()) => Ok(self.publishers.get(&name).unwrap()),
            Err(e) => Err(e),
        }
    }

    /// Registers a listener for a service. A subscriber created for the
    /// service, because it had none, is stored first; the listener then joins
    /// the service's listener set.
    pub fn register_listener(
        &mut self,
        name: Vec<u8>,
        new_subscriber: Option<S>,
        id: u64,
        listener: L,
    )
        requires
            new_subscriber is Some <==> !old(self).subscribers().dom().contains(name@),
        ensures
            final(self).subscribers() == subscribers_after_register(
                old(self).subscribers(),
                name@,
                new_subscriber,
            ),
            final(self).listeners() == listeners_after_register(
                old(self).listeners(),
                name@,
                id,
                listener,
            ),
            final(self).publishers() == old(self).publishers(),
            final(self).consistent(),
    {
        proof { use_type_invariant(&*self); }
        let mut table = ServiceTable::new();
        std::mem::swap(&mut table, &mut self.services);
        table.register_listener(name, new_subscriber, id, listener);
        self.services = table;
    }

    /// Unregisters a listener from a service. When the service's listener set
    /// becomes empty its subscriber is dropped and returned; the empty set
    /// stays.
    pub fn unregister_listener(&mut self, name: &Vec<u8>, id: u64) -> (dropped: Option<S>)
        ensures
            final(self).listeners() == pubsub_listeners_after_unregister(old(self).listeners(), name@, id),
            final(self).subscribers() == subscribers_after_unregister(
                old(self).subscribers(),
                old(self).listeners(),
                name@,
                id,
            ),
            dropped is Some <==> unregister_empties(old(self).listeners(), name@, id)
                && old(self).subscribers().dom().contains(name@),
            dropped matches Some(s) ==> s == old(self).subscribers()[name@],
            old(self).listeners().dom().contains(name@) && final(self).listeners().dom().contains(name@)
                ==> final(self).listeners()[name@] == old(self).listeners()[name@].remove(id),
            forall|k: u64|
                k != id && old(self).listeners().dom().contains(name@) && #[trigger] old(
                    self,
                ).listeners()[name@].dom().contains(k) ==> final(self).listeners().dom().contains(
                    name@,
                ) && final(self).listeners()[name@].dom().contains(k) && final(self).listeners()[name@][k]
                    == old(self).listeners()[name@][k],
            forall|other: Seq<u8>|
                other != name@ && #[trigger] old(self).listeners().dom().contains(other)
                    ==> final(self).listeners().dom().contains(other) && final(self).listeners()[other]
                    == old(self).listeners()[other],
            final(self).publishers() == old(self).publishers(),
            final(self).consistent(),
    {
        proof { use_type_invariant(&*self); }
        let mut table = ServiceTable::new();
        std::mem::swap(&mut table, &mut self.services);
        let dropped = table.unregister_listener(name, id, false);
        self.services = table;
        dropped
    }
}

} // verus!
