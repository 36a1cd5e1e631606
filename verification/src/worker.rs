use vstd::prelude::*;
use crate::registry::{
    listeners_after_register, publishers_after_get_or_create, subscribers_after_register,
    subscribers_after_unregister, unregister_empties, worker_listeners_after_unregister,
};
use crate::tables::{PublisherTable, ServiceTable};

verus! {

/// The bookkeeping of the background worker: its publishers and subscribers
/// by service name, and the listeners registered for each service, each
/// known by an identity number. A listener set goes with its last listener.
pub struct WorkerRegistry<P, S, L> {
    publishers: PublisherTable<P>,
    services: ServiceTable<S, L>,
}

impl<P, S, L> WorkerRegistry<P, S, L> {
    /// The publisher of each service.
    pub closed spec fn publishers(&self) -> Map<Seq<u8>, P> {
        self.publishers.map()
    }

    /// The subscriber of each service.
    pub closed spec fn subscribers(&self) -> Map<Seq<u8>, S> {
        self.services.subscribers()
    }

    /// The services with subscribers, in the order in which they are relayed.
    pub closed spec fn subscriber_order(&self) -> Seq<Seq<u8>> {
        self.services.subscriber_order()
    }

    /// The listeners of each service, by identity.
    pub closed spec fn listeners(&self) -> Map<Seq<u8>, Map<u64, L>> {
        self.services.listeners()
    }

    /// The services with subscribers are exactly those with listeners, and
    /// no service keeps an empty listener set.
    pub open spec fn consistent(&self) -> bool {
        &&& self.subscribers().dom() == self.listeners().dom()
        &&& forall|name: Seq<u8>| #[trigger]
            self.listeners().dom().contains(name) ==> self.listeners()[name].dom()
                != Set::<u64>::empty()
    }

    #[verifier::type_invariant]
    closed spec fn inv(&self) -> bool {
        self.consistent()
    }

    /// No bookkeeping yet.
    pub fn new() -> (res: Self)
        ensures
            res.publishers() == Map::<Seq<u8>, P>::empty(),
            res.subscribers() == Map::<Seq<u8>, S>::empty(),
            res.listeners() == Map::<Seq<u8>, Map<u64, L>>::empty(),
            res.consistent(),
    {
        let services = ServiceTable::new();
        assert(services.subscribers().dom() =~= services.listeners().dom());
        WorkerRegistry { publishers: PublisherTable::new(), services }
    }

    /// The publishers, for lookups.
    pub fn publisher_table(&self) -> (res: &PublisherTable<P>)
        ensures
            res.map() == self.publishers(),
    {
        &self.publishers
    }

    /// The subscribers and listeners, for lookups.
    pub fn service_table(&self) -> (res: &ServiceTable<S, L>)
        ensures
            res.subscribers() == self.subscribers(),
            res.subscriber_order() == self.subscriber_order(),
            res.listeners() == self.listeners(),
            self.consistent(),
    {
        proof { use_type_invariant(self); }
        &self.services
    }

    /// Records the publisher created for a service that had none.
    pub fn add_publisher(&mut self, name: Vec<u8>, publisher: P)
        requires
            !old(self).publishers().dom().contains(name@),
        ensures
            final(self).publishers() == old(self).publishers().insert(name@, publisher),
            final(self).publishers() == publishers_after_get_or_create(
                old(self).publishers(),
                name@,
                publisher,
            ),
            final(self).subscribers() == old(self).subscribers(),
            final(self).subscriber_order() == old(self).subscriber_order(),
            final(self).listeners() == old(self).listeners(),
    {
        proof { use_type_invariant(&*self); }
        let mut table = PublisherTable::new();
        std::mem::swap(&mut table, &mut self.publishers);
        table.add(name, publisher);
        self.publishers = table;
    }

    /// The publisher of a service: the recorded one where there is one;
    /// otherwise the one that `create` makes, which is then recorded. A
    /// failure to create is handed back and records nothing.
    pub fn get_or_create_publisher<E, F: FnOnce() -> Result<P, E>>(
        &mut self,
        name: Vec<u8>,
        create: F,
    ) -> (res: Result<&P, E>)
        requires
            !old(self).publishers().dom().contains(name@) ==> create.requires(()),
        ensures
            old(self).publishers().dom().contains(name@) ==> (res matches Ok(p) && *p == old(
                self,
            ).publishers()[name@]),
            !old(self).publishers().dom().contains(name@) ==> match res {
                Ok(p) => create.ensures((), Ok::<P, E>(*p)),
                Err(e) => create.ensures((), Err::<P, E>(e)),
            },
            res matches Ok(p) ==> (final(self).publishers() == publishers_after_get_or_create(
                old(self).publishers(),
                name@,
                *p,
            ) && *p == final(self).publishers()[name@]),
            res is Err ==> final(self).publishers() == old(self).publishers(),
            final(self).subscribers() == old(self).subscribers(),
            final(self).subscriber_order() == old(self).subscriber_order(),
            final(self).listeners() == old(self).listeners(),
    {
        proof { use_type_invariant(&*self); }
        let mut table = PublisherTable::new();
        std::mem::swap(&mut table, &mut self.publishers);
        let outcome = match table.get_or_create(name.clone(), create) {
            Ok(_) => Ok(()),
            Err(e) => Err(e),
        };
        self.publishers = table;
        match outcome {
            Ok(()) => Ok(self.publishers.get(&name).unwrap()),
            Err(e) => Err(e),
        }
    }

    /// Registers a listener for a service. A subscriber created for the
    /// service, because it had none, is stored first; the listener then joins
    /// the service's listener set.
    pub fn register_listener(
        &mut self,
        name: Vec<u8>,
        new_subscriber: Option<S>,
        id: u64,
        listener: L,
    )
        requires
            new_subscriber is Some <==> !old(self).subscribers().dom().contains(name@),
        ensures
            final(self).subscribers() == subscribers_after_register(
                old(self).subscribers(),
                name@,
                new_subscriber,
            ),
            final(self).listeners() == listeners_after_register(
                old(self).listeners(),
                name@,
                id,
                listener,
            ),
            final(self).publishers() == old(self).publishers(),
            final(self).consistent(),
    {
        proof { use_type_invariant(&*self); }
        let mut table = ServiceTable::new();
        std::mem::swap(&mut table, &mut self.services);
        assert(table.subscribers().dom() =~= table.listeners().dom());
        table.register_listener(name, new_subscriber, id, listener);
        proof {
            assert(table.subscribers().dom() =~= table.listeners().dom());
            assert(table.listeners()[name@].dom().contains(id));
        }
        self.services = table;
    }

    /// Unregisters a listener from a service. When the service's listener set
    /// becomes empty, the set and the subscriber are dropped; the subscriber
    /// is returned.
    pub fn unregister_listener(&mut self, name: &Vec<u8>, id: u64) -> (dropped: Option<S>)
        ensures
            final(self).listeners() == worker_listeners_after_unregister(old(self).listeners(), name@, id),
            final(self).subscribers() == subscribers_after_unregister(
                old(self).subscribers(),
                old(self).listeners(),
                name@,
                id,
            ),
            dropped is Some <==> unregister_empties(old(self).listeners(), name@, id),
            dropped matches Some(s) ==> s == old(self).subscribers()[name@],
            old(self).listeners().dom().contains(name@) && final(self).listeners().dom().contains(name@)
                ==> final(self).listeners()[name@] == old(self).listeners()[name@].remove(id),
            forall|k: u64|
                k != id && old(self).listeners().dom().contains(name@) && #[trigger] old(
                    self,
                ).listeners()[name@].dom().contains(k) ==> final(self).listeners().dom().contains(
                    name@,
                ) && final(self).listeners()[name@].dom().contains(k) && final(self).listeners()[name@][k]
                    == old(self).listeners()[name@][k],
            forall|other: Seq<u8>|
                other != name@ && #[trigger] old(self).listeners().dom().contains(other)
                    ==> final(self).listeners().dom().contains(other) && final(self).listeners()[other]
                    == old(self).listeners()[other],
            final(self).publishers() == old(self).publishers(),
            final(self).consistent(),
    {
        proof { use_type_invariant(&*self); }
        let mut table = ServiceTable::new();
        std::mem::swap(&mut table, &mut self.services);
        assert(table.subscribers().dom() =~= table.listeners().dom());
        let ghost before = table.listeners();
        let dropped = table.unregister_listener(name, id, true);
        proof {
            assert(table.subscribers().dom() =~= table.listeners().dom());
            if before.dom().contains(name@) && !unregister_empties(before, name@, id) {
                let other = choose|other: u64| #[trigger] before[name@].dom().contains(other)
                    && other != id;
                assert(table.listeners()[name@].dom().contains(other));
            }
        }
        self.services = table;
        dropped
    }
}

/// After an unregistration by the worker the listener is in no set of that
/// service, and every other service keeps its set.
pub proof fn lemma_worker_unregister_removes<L>(
    listeners: Map<Seq<u8>, Map<u64, L>>,
    name: Seq<u8>,
    id: u64,
    other: Seq<u8>,
)
    ensures
        worker_listeners_after_unregister(listeners, name, id).dom().contains(name)
            ==> !worker_listeners_after_unregister(listeners, name, id)[name].dom().contains(id),
        other != name ==> worker_listeners_after_unregister(listeners, name, id).dom().contains(other)
            == listeners.dom().contains(other),
        other != name && listeners.dom().contains(other) ==> worker_listeners_after_unregister(
            listeners,
            name,
            id,
        )[other] == listeners[other],
{
}

/// For a service that had neither subscriber nor listeners, the worker's
/// unregistration of a listener undoes its registration with a new
/// subscriber: both the subscribers and the listener sets are as before.
pub proof fn lemma_worker_unregister_undoes_register<S, L>(
    subscribers: Map<Seq<u8>, S>,
    listeners: Map<Seq<u8>, Map<u64, L>>,
    name: Seq<u8>,
    subscriber: S,
    id: u64,
    listener: L,
)
    requires
        !subscribers.dom().contains(name),
        !listeners.dom().contains(name),
    ensures
        ({
            let subs1 = subscribers_after_register(subscribers, name, Some(subscriber));
            let ls1 = listeners_after_register(listeners, name, id, listener);
            &&& subscribers_after_unregister(subs1, ls1, name, id) == subscribers
            &&& worker_listeners_after_unregister(ls1, name, id) == listeners
        }),
{
    let ls1 = listeners_after_register(listeners, name, id, listener);
    assert(ls1[name] == Map::<u64, L>::empty().insert(id, listener));
    assert(ls1[name].remove(id) =~= Map::<u64, L>::empty());
    assert(subscribers.insert(name, subscriber).remove(name) =~= subscribers);
    assert(ls1.remove(name) =~= listeners);
}

} // verus!
