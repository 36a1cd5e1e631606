use vstd::prelude::*;
use crate::keyed::KeyedList;
use crate::registry::{
    lemma_remove_empties, listener_maps, listeners_after_register,
    publishers_after_get_or_create, pubsub_listeners_after_unregister, subscribers_after_register,
    subscribers_after_unregister, unregister_empties, with_listener,
    worker_listeners_after_unregister,
};

verus! {

/// The publisher of each service, by service name.
pub struct PublisherTable<P> {
    entries: KeyedList<Vec<u8>, P>,
}

impl<P> PublisherTable<P> {
    /// The publisher of each service.
    pub closed spec fn map(&self) -> Map<Seq<u8>, P> {
        self.entries.map()
    }

    /// No publishers yet.
    pub fn new() -> (res: Self)
        ensures
            res.map() == Map::<Seq<u8>, P>::empty(),
    {
        PublisherTable { entries: KeyedList::new() }
    }

    /// The publisher already created for the service, if any.
    pub fn get(&self, name: &Vec<u8>) -> (res: Option<&P>)
        ensures
            res is Some <==> self.map().dom().contains(name@),
            res matches Some(p) ==> *p == self.map()[name@],
    {
        self.entries.get(name)
    }

    /// The number of services with publishers.
    pub fn len(&self) -> (res: usize)
        ensures
            res == self.map().dom().len(),
            self.map().dom().finite(),
    {
        self.entries.len()
    }

    /// Records the publisher created for a service that had none.
    pub fn add(&mut self, name: Vec<u8>, publisher: P)
        requires
            !old(self).map().dom().contains(name@),
        ensures
            final(self).map() == old(self).map().insert(name@, publisher),
            final(self).map() == publishers_after_get_or_create(old(self).map(), name@, publisher),
    {
        self.entries.insert(name, publisher);
    }

    /// The publisher of a service: the recorded one where there is one;
    /// otherwise the one that `create` makes, which is then recorded. A
    /// failure to create is handed back and records nothing.
    pub fn get_or_create<E, F: FnOnce() -> Result<P, E>>(&mut self, name: Vec<u8>, create: F) -> (res:
        Result<&P, E>)
        requires
            !old(self).map().dom().contains(name@) ==> create.requires(()),
        ensures
            old(self).map().dom().contains(name@) ==> (res matches Ok(p) && *p == old(
                self,
            ).map()[name@]),
            !old(self).map().dom().contains(name@) ==> match res {
                Ok(p) => create.ensures((), Ok::<P, E>(*p)),
                Err(e) => create.ensures((), Err::<P, E>(e)),
            },
            res matches Ok(p) ==> (final(self).map() == publishers_after_get_or_create(
                old(self).map(),
                name@,
                *p,
            ) && *p == final(self).map()[name@]),
            res is Err ==> final(self).map() == old(self).map(),
    {
        if !self.entries.contains_key(&name) {
            match create() {
                Ok(publisher) => {
                    self.entries.insert(name.clone(), publisher);
                },
                Err(e) => return Err(e),
            }
        }
        Ok(self.entries.get(&name).unwrap())
    }
}

proof fn lemma_listener_maps_insert<L>(m: Map<Seq<u8>, KeyedList<u64, L>>, k: Seq<u8>, v: KeyedList<u64, L>)
    ensures
        listener_maps(m.insert(k, v)) == listener_maps(m).insert(k, v.map()),
        listener_maps(m.remove(k).insert(k, v)) == listener_maps(m).insert(k, v.map()),
{
    assert(listener_maps(m.insert(k, v)) =~= listener_maps(m).insert(k, v.map()));
    assert(listener_maps(m.remove(k).insert(k, v)) =~= listener_maps(m).insert(k, v.map()));
}

proof fn lemma_listener_maps_remove<L>(m: Map<Seq<u8>, KeyedList<u64, L>>, k: Seq<u8>)
    ensures
        listener_maps(m.remove(k)) == listener_maps(m).remove(k),
{
    assert(listener_maps(m.remove(k)) =~= listener_maps(m).remove(k));
}

/// The subscriber of each service, by service name, in the order in which
/// they are relayed, and the listeners registered for each service, each
/// known by an identity number.
pub struct ServiceTable<S, L> {
    subscribers: KeyedList<Vec<u8>, S>,
    listeners: KeyedList<Vec<u8>, KeyedList<u64, L>>,
}

impl<S, L> ServiceTable<S, L> {
    /// The subscriber of each service.
    pub closed spec fn subscribers(&self) -> Map<Seq<u8>, S> {
        self.subscribers.map()
    }

    /// The services with subscribers, in the order in which they are relayed.
    pub closed spec fn subscriber_order(&self) -> Seq<Seq<u8>> {
        self.subscribers.keys()
    }

    /// The listeners of each service, by identity.
    pub closed spec fn listeners(&self) -> Map<Seq<u8>, Map<u64, L>> {
        listener_maps(self.listeners.map())
    }

    /// No subscribers and no listeners yet.
    pub fn new() -> (res: Self)
        ensures
            res.subscribers() == Map::<Seq<u8>, S>::empty(),
            res.subscriber_order() == Seq::<Seq<u8>>::empty(),
            res.listeners() == Map::<Seq<u8>, Map<u64, L>>::empty(),
    {
        let res = ServiceTable { subscribers: KeyedList::new(), listeners: KeyedList::new() };
        assert(res.listeners() =~= Map::<Seq<u8>, Map<u64, L>>::empty());
        res
    }

    /// Whether the service has a subscriber.
    pub fn has_subscriber(&self, name: &Vec<u8>) -> (res: bool)
        ensures
            res == self.subscribers().dom().contains(name@),
    {
        self.subscribers.contains_key(name)
    }

    /// The number of services with subscribers. The relay order names each
    /// of them once.
    pub fn subscriber_count(&self) -> (res: usize)
        ensures
            res == self.subscriber_order().len(),
            self.subscriber_order().no_duplicates(),
            self.subscriber_order().to_set() == self.subscribers().dom(),
    {
        self.subscribers.len()
    }

    /// The service at a position in relay order, with its subscriber.
    pub fn subscriber_at(&self, i: usize) -> (res: (&Vec<u8>, &S))
        requires
            i < self.subscriber_order().len(),
        ensures
            res.0@ == self.subscriber_order()[i as int],
            self.subscribers().dom().contains(res.0@),
            *res.1 == self.subscribers()[res.0@],
    {
        self.subscribers.entry_at(i)
    }

    /// The listeners registered for the service, if it has a listener set.
    pub fn listeners_for(&self, name: &Vec<u8>) -> (res: Option<&KeyedList<u64, L>>)
        ensures
            res is Some <==> self.listeners().dom().contains(name@),
            res matches Some(set) ==> set.map() == self.listeners()[name@],
    {
        self.listeners.get(name)
    }

    /// Registers a listener for a service. A subscriber created for the
    /// service is stored first; the listener then joins the service's
    /// listener set, which is created where the service has none.
    pub fn register_listener(
        &mut self,
        name: Vec<u8>,
        new_subscriber: Option<S>,
        id: u64,
        listener: L,
    )
        ensures
            final(self).subscribers() == subscribers_after_register(
                old(self).subscribers(),
                name@,
                new_subscriber,
            ),
            final(self).listeners() == listeners_after_register(
                old(self).listeners(),
                name@,
                id,
                listener,
            ),
    {
        let ghost old_ls = self.listeners.map();
        if let Some(s) = new_subscriber {
            self.subscribers.insert(name.clone(), s);
        }
        let mut set = match self.listeners.remove(&name) {
            Some(set) => set,
            None => KeyedList::new(),
        };
        let ghost old_set = set.map();
        if !set.contains_key(&id) {
            set.insert(id, listener);
        }
        proof {
            assert(set.map() == with_listener(old_set, id, listener));
            lemma_listener_maps_insert(old_ls, name@, set);
        }
        self.listeners.insert(name, set);
        proof {
            assert(listener_maps(self.listeners.map()) =~= listeners_after_register(
                listener_maps(old_ls), name@, id, listener));
        }
    }

    /// Unregisters a listener from a service. When the service's listener
    /// set becomes empty, its subscriber is dropped and returned, and the
    /// set itself is dropped where `drop_empty_set` asks for it.
    pub fn unregister_listener(&mut self, name: &Vec<u8>, id: u64, drop_empty_set: bool) -> (dropped:
        Option<S>)
        ensures
            final(self).listeners() == if drop_empty_set {
                worker_listeners_after_unregister(old(self).listeners(), name@, id)
            } else {
                pubsub_listeners_after_unregister(old(self).listeners(), name@, id)
            },
            final(self).subscribers() == subscribers_after_unregister(
                old(self).subscribers(),
                old(self).listeners(),
                name@,
                id,
            ),
            dropped is Some <==> unregister_empties(old(self).listeners(), name@, id)
                && old(self).subscribers().dom().contains(name@),
            dropped matches Some(s) ==> s == old(self).subscribers()[name@],
            old(self).listeners().dom().contains(name@) && final(self).listeners().dom().contains(name@)
                ==> final(self).listeners()[name@] == old(self).listeners()[name@].remove(id),
            forall|k: u64|
                k != id && old(self).listeners().dom().contains(name@) && #[trigger] old(
                    self,
                ).listeners()[name@].dom().contains(k) ==> final(self).listeners().dom().contains(
                    name@,
                ) && final(self).listeners()[name@].dom().contains(k) && final(self).listeners()[name@][k]
                    == old(self).listeners()[name@][k],
            forall|other: Seq<u8>|
                other != name@ && #[trigger] old(self).listeners().dom().contains(other)
                    ==> final(self).listeners().dom().contains(other) && final(self).listeners()[other]
                    == old(self).listeners()[other],
    {
        let ghost old_ls = self.listeners.map();
        let ghost old_listeners = self.listeners();
        let mut dropped = None;
        if let Some(mut set) = self.listeners.remove(name) {
            let ghost before = set.map();
            set.remove(&id);
            let now_empty = set.is_empty();
            proof {
                lemma_remove_empties(before, id);
                assert(before == old_listeners[name@]);
            }
            if now_empty {
                dropped = self.subscribers.remove(name);
            }
            if now_empty && drop_empty_set {
                proof {
                    lemma_listener_maps_remove(old_ls, name@);
                    assert(listener_maps(self.listeners.map()) =~= worker_listeners_after_unregister(
                        old_listeners, name@, id));
                }
            } else {
                proof {
                    lemma_listener_maps_insert(old_ls, name@, set);
                }
                self.listeners.insert(name.clone(), set);
                proof {
                    assert(listener_maps(self.listeners.map()) =~= listener_maps(old_ls).insert(
                        name@, set.map()));
                }
            }
        } else {
            proof {
                assert(old_ls.remove(name@) =~= old_ls);
            }
        }
        dropped
    }
}

} // verus!
