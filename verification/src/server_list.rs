//! The list itself: servers under ids, and pages of it.

use crate::id::{
    draw_id, is_uuid_v4, lemma_neighbours_differ, neighbour, neighbour_id, ServerId,
};
use crate::pagination::Pagination;
use crate::server::ServerEntry;
use std::collections::hash_map::Entry;
use std::collections::HashMap;
use vstd::prelude::*;

verus! {

broadcast use vstd::std_specs::hash::group_hash_axioms;

/// Servers, each under an id that no other one has.
#[derive(Clone, Debug)]
pub struct ServerList<S = ServerEntry> {
    servers: HashMap<ServerId, S>,
}

impl<S> View for ServerList<S> {
    type V = Map<ServerId, S>;

    closed spec fn view(&self) -> Map<ServerId, S> {
        self.servers@
    }
}

/// Whether `order` goes through the ids of `servers`, each of them once.
pub open spec fn is_listing<S>(order: Seq<ServerId>, servers: Map<ServerId, S>) -> bool {
    &&& order.len() == servers.len()
    &&& order.no_duplicates()
    &&& order.to_set() == servers.dom()
}

/// The servers with these ids, one after the other.
pub open spec fn servers_in<S>(order: Seq<ServerId>, servers: Map<ServerId, S>) -> Seq<S> {
    order.map_values(|id: ServerId| servers[id])
}

impl<S> ServerList<S> {
    /// An empty list.
    pub fn new() -> (list: ServerList<S>)
        ensures
            list@ == Map::<ServerId, S>::empty(),
    {
        ServerList { servers: HashMap::new() }
    }

    /// Lists `server` under `id`, unless that id is taken. Then the list stays
    /// as it is, and the server is handed back.
    pub fn add_as(&mut self, id: ServerId, server: S) -> (added: Result<(), S>)
        ensures
            added is Ok <==> !old(self)@.contains_key(id),
            match added {
                Ok(()) => {
                    &&& final(self)@ == old(self)@.insert(id, server)
                    &&& final(self)@.len() == old(self)@.len() + 1
                },
                Err(refused) => final(self)@ == old(self)@ && refused == server,
            },
    {
        if self.servers.contains_key(&id) {
            Err(server)
        } else {
            self.servers.insert(id, server);
            Ok(())
        }
    }

    /// Lists `server` under a random id that is not taken, and gives that id.
    ///
    /// An id that turns out to be taken is drawn again. Should every one of
    /// `u64::MAX` draws be taken, the neighbours of the last one are gone through
    /// for one that is not, so that the call comes to an end whatever is drawn.
    /// What it gives is in any case an id that a draw could have given.
    pub fn add(&mut self, server: S) -> (id: ServerId)
        ensures
            is_uuid_v4(id),
            !old(self)@.contains_key(id),
            final(self)@ == old(self)@.insert(id, server),
            final(self)@.len() == old(self)@.len() + 1,
    {
        let mut pending = server;
        let mut id = draw_id();
        let mut draws: u64 = 1;
        while draws < u64::MAX
            invariant
                is_uuid_v4(id),
                pending == server,
                self@ == old(self)@,
            decreases u64::MAX - draws,
        {
            match self.add_as(id, pending) {
                Ok(()) => {
                    return id;
                },
                Err(refused) => {
                    pending = refused;
                },
            }
            id = draw_id();
            draws = draws + 1;
        }
        id = self.free_neighbour(id);
        self.servers.insert(id, pending);
        id
    }

    /// Takes the server with this id off the list, and gives it. Where there
    /// is none, the list stays as it is.
    pub fn remove(&mut self, id: &ServerId) -> (removed: Option<S>)
        ensures
            removed == old(self)@.get(*id),
            final(self)@ == old(self)@.remove(*id),
            final(self)@.len() == old(self)@.len() - (if removed is Some { 1int } else { 0 }),
    {
        self.servers.remove(id)
    }

    /// Lets `change` alter the server with this id, where there is one, and
    /// tells whether there is.
    pub fn update<F: FnOnce(&mut S)>(&mut self, id: &ServerId, change: F) -> (found: bool)
        requires
            old(self)@.contains_key(*id) ==> forall|server: &mut S|
                *server == old(self)@[*id] ==> #[trigger] change.requires((server,)),
        ensures
            found == old(self)@.contains_key(*id),
            !found ==> final(self)@ == old(self)@,
            found ==> exists|server: &mut S|
                {
                    &&& #[trigger] change.ensures((server,), ())
                    &&& *server == old(self)@[*id]
                    &&& final(self)@ == old(self)@.insert(*id, *final(server))
                },
    {
        match self.servers.entry(*id) {
            Entry::Occupied(entry) => {
                change(entry.into_mut());
                true
            },
            Entry::Vacant(_) => false,
        }
    }

    /// The number of listed servers.
    pub fn len(&self) -> (len: usize)
        ensures
            len == self@.len(),
    {
        self.servers.len()
    }

    /// Tells whether no server is listed.
    pub fn is_empty(&self) -> (empty: bool)
        ensures
            empty == self@.is_empty(),
            empty == (self@.len() == 0),
    {
        self.servers.is_empty()
    }

    /// The ids in the order in which the list is walked. Which order that is
    /// stays open, and two lists of the same servers may be walked differently.
    /// But it rests on the list alone: one that nothing has changed since is
    /// walked as it was before.
    pub closed spec fn order(self) -> Seq<ServerId> {
        vstd::std_specs::hash::into_iter(
            vstd::std_specs::hash::spec_hash_map_iter(&self.servers),
        ).map_values(|entry: (ServerId, S)| entry.0)
    }

    /// A page of the listed servers.
    pub fn get(&self, pagination: &Pagination) -> (page: Vec<&S>)
        ensures
            is_listing(self.order(), self@),
            page@.unref() == pagination.page(servers_in(self.order(), self@)),
            forall|i: int|
                0 <= i < page.len() ==> *(#[trigger] page[i]) == self@[self.order()[i + (
                if pagination.offset is Some {
                    pagination.offset->0 as int
                } else {
                    0
                })]],
            pagination.limit is Some ==> page.len() <= pagination.limit->0,
            pagination.offset is None && pagination.limit is None ==> page.len() == self@.len(),
    {
        let mut listing: Vec<&S> = Vec::new();
        let entries = self.servers.iter();
        let ghost all = vstd::std_specs::iter::IteratorSpec::remaining(&entries);
        let ghost order = Seq::new(all.len(), |i: int| *all[i].0);
        for (id, server) in walk: entries
            invariant
                walk.seq() == all,
                all.len() == order.len(),
                forall|i: int| 0 <= i < all.len() ==> self@[order[i]] == *(#[trigger] all[i]).1,
                listing@.len() == walk.index(),
                forall|i: int| 0 <= i < listing@.len() ==> *(#[trigger] listing@[i]) == *all[i].1,
        {
            listing.push(server);
        }
        proof {
            lemma_walk_is_listing(self@, all);
            assert(order == self.order());
            assert(listing@.unref() == servers_in(order, self@));
        }
        let page = pagination.select(&listing);
        assert(page@.unref() == pagination.page(listing@.unref()));
        page
    }

    /// Finds the first neighbour of `start` that is not taken.
    fn free_neighbour(&self, start: ServerId) -> (id: ServerId)
        requires
            is_uuid_v4(start),
        ensures
            is_uuid_v4(id),
            !self@.contains_key(id),
    {
        let mut n: u64 = 0;
        let mut id = neighbour_id(start, 0);
        let len = self.servers.len();
        while self.servers.contains_key(&id)
            invariant
                is_uuid_v4(start),
                is_uuid_v4(id),
                len == self@.len(),
                id == neighbour(start, n),
                n <= len,
                forall|m: u64| m < n ==> self@.contains_key(#[trigger] neighbour(start, m)),
            decreases len - n,
        {
            proof {
                assert forall|m: u64| m <= n implies self@.dom().contains(
                    #[trigger] neighbour(start, m),
                ) by {
                    assert(self@.contains_key(neighbour(start, m)));
                }
                lemma_neighbours_taken(self@.dom(), start, (n + 1) as nat);
            }
            n = n + 1;
            id = neighbour_id(start, n);
        }
        id
    }
}

impl<S> Default for ServerList<S> {
    fn default() -> (list: ServerList<S>)
        ensures
            list@ == Map::<ServerId, S>::empty(),
    {
        ServerList::new()
    }
}

/// The keys of entries that make up a map, each entry once, go through the
/// ids of that map.
proof fn lemma_walk_is_listing<S>(servers: Map<ServerId, S>, all: Seq<(&ServerId, &S)>)
    requires
        all.len() == servers.len(),
        all.no_duplicates(),
        forall|i: int|
            0 <= i < all.len() ==> servers.contains_key(*(#[trigger] all[i]).0)
                && servers[*all[i].0] == *all[i].1,
        forall|id: ServerId| #[trigger]
            servers.contains_key(id) ==> all.contains((&id, &servers[id])),
    ensures
        is_listing(Seq::new(all.len(), |i: int| *all[i].0), servers),
{
    let order = Seq::new(all.len(), |i: int| *all[i].0);
    assert forall|i: int, j: int| 0 <= i < j < order.len() implies order[i] != order[j] by {
        assert(all[i] != all[j]);
    }
    assert forall|id: ServerId| servers.dom().contains(id) implies order.contains(id) by {
        let i = choose|i: int| 0 <= i < all.len() && all[i] == (&id, &servers[id]);
        assert(order[i] == id);
    }
    assert forall|id: ServerId| order.contains(id) implies servers.dom().contains(id) by {
        let i = choose|i: int| 0 <= i < order.len() && order[i] == id;
        assert(servers.contains_key(*all[i].0));
    }
    assert(order.to_set() =~= servers.dom());
}

/// A set that holds the first `n` neighbours of an id has `n` elements at least.
proof fn lemma_neighbours_taken(ids: Set<ServerId>, start: ServerId, n: nat)
    requires
        n <= u64::MAX + 1,
        ids.finite(),
        forall|m: u64| m < n ==> ids.contains(#[trigger] neighbour(start, m)),
    ensures
        n <= ids.len(),
    decreases n,
{
    if n > 0 {
        let last = (n - 1) as u64;
        assert(ids.contains(neighbour(start, last)));
        assert forall|m: u64| m < last implies ids.remove(neighbour(start, last)).contains(
            #[trigger] neighbour(start, m),
        ) by {
            if neighbour(start, m) == neighbour(start, last) {
                lemma_neighbours_differ(start, m, last);
            }
        }
        lemma_neighbours_taken(ids.remove(neighbour(start, last)), start, last as nat);
    }
}

} // verus!
