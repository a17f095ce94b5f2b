use crate::ids::next_id;
use crate::types::{
    copy_addresses, listing_view, summaries, ServerGroup, ServerGroupSerde, ServerSummary,
};
use vstd::prelude::*;

verus! {

/// The registry as a mathematical object: for each network name that has an
/// entry, the instances running under it, oldest first.
pub type RegistryModel = Map<Seq<char>, Seq<ServerGroup>>;

/// The instances that `model` holds under `name`; none where the name has no entry.
pub open spec fn servers_in(model: RegistryModel, name: Seq<char>) -> Seq<ServerGroup> {
    if model.dom().contains(name) {
        model[name]
    } else {
        Seq::empty()
    }
}

/// The index of the first instance in `servers` whose identifier is `id`.
pub open spec fn position_of(servers: Seq<ServerGroup>, id: u64) -> Option<int>
    decreases servers.len(),
{
    if servers.len() == 0 {
        None
    } else if servers[0].id == id {
        Some(0)
    } else {
        match position_of(servers.drop_first(), id) {
            Some(k) => Some(k + 1),
            None => None,
        }
    }
}

/// `model` after `instance` has been appended to what runs under `name`.
pub open spec fn registered(model: RegistryModel, name: Seq<char>, instance: ServerGroup) -> RegistryModel {
    model.insert(name, servers_in(model, name).push(instance))
}

/// `model` after the first instance under `name` with identifier `id`, if there
/// is one, has been taken out.
pub open spec fn unregistered(model: RegistryModel, name: Seq<char>, id: u64) -> RegistryModel {
    match position_of(servers_in(model, name), id) {
        Some(k) => model.insert(name, servers_in(model, name).remove(k)),
        None => model,
    }
}

/// The first instance under `name` with identifier `id`, if there is one.
pub open spec fn found_in(model: RegistryModel, name: Seq<char>, id: u64) -> Option<ServerGroup> {
    match position_of(servers_in(model, name), id) {
        Some(k) => Some(servers_in(model, name)[k]),
        None => None,
    }
}

/// No two instances in `servers` share an identifier.
pub open spec fn ids_distinct(servers: Seq<ServerGroup>) -> bool {
    forall|i: int, j: int| 0 <= i < j < servers.len() ==> servers[i].id != servers[j].id
}

/// What `position_of` finds is the first match, and `None` means there is no match.
pub proof fn lemma_position_of(servers: Seq<ServerGroup>, id: u64)
    ensures
        match position_of(servers, id) {
            Some(k) => {
                &&& 0 <= k < servers.len()
                &&& servers[k].id == id
                &&& forall|j: int| 0 <= j < k ==> servers[j].id != id
            },
            None => forall|j: int| 0 <= j < servers.len() ==> servers[j].id != id,
        },
    decreases servers.len(),
{
    if servers.len() > 0 && servers[0].id != id {
        let rest = servers.drop_first();
        lemma_position_of(rest, id);
        match position_of(rest, id) {
            Some(k) => {
                assert forall|j: int| 0 <= j < k + 1 implies servers[j].id != id by {
                    if j > 0 {
                        assert(servers[j] == rest[j - 1]);
                    }
                }
                assert(servers[k + 1] == rest[k]);
            },
            None => {
                assert forall|j: int| 0 <= j < servers.len() implies servers[j].id != id by {
                    if j > 0 {
                        assert(servers[j] == rest[j - 1]);
                    }
                }
            },
        }
    }
}

/// An index that holds `id` with no earlier match is what `position_of` finds.
pub proof fn lemma_position_of_first(servers: Seq<ServerGroup>, id: u64, k: int)
    requires
        0 <= k < servers.len(),
        servers[k].id == id,
        forall|j: int| 0 <= j < k ==> servers[j].id != id,
    ensures
        position_of(servers, id) == Some(k),
{
    lemma_position_of(servers, id);
}

/// No instance in `servers` has identifier `id`, so `position_of` finds nothing.
pub proof fn lemma_position_of_absent(servers: Seq<ServerGroup>, id: u64)
    requires
        forall|j: int| 0 <= j < servers.len() ==> servers[j].id != id,
    ensures
        position_of(servers, id) is None,
{
    lemma_position_of(servers, id);
}

struct Bucket {
    name: String,
    servers: Vec<ServerGroup>,
}

/// The table of running instances, keyed by network name.
pub struct Registry {
    buckets: Vec<Bucket>,
}

impl View for Registry {
    type V = RegistryModel;

    closed spec fn view(&self) -> RegistryModel {
        Map::new(
            |name: Seq<char>| self.has(name),
            |name: Seq<char>| self.buckets[self.slot(name)].servers@,
        )
    }
}

impl Registry {
    spec fn has(&self, name: Seq<char>) -> bool {
        exists|i: int| 0 <= i < self.buckets.len() && self.buckets[i].name@ == name
    }

    spec fn slot(&self, name: Seq<char>) -> int {
        choose|i: int| 0 <= i < self.buckets.len() && self.buckets[i].name@ == name
    }

    /// Each network name has at most one entry.
    pub closed spec fn wf(&self) -> bool {
        forall|i: int, j: int|
            0 <= i < j < self.buckets.len() ==> self.buckets[i].name@ != self.buckets[j].name@
    }

    /// The instances running under `name`.
    pub open spec fn servers_of(&self, name: Seq<char>) -> Seq<ServerGroup> {
        servers_in(self@, name)
    }

    proof fn lemma_slot(&self, i: int)
        requires
            self.wf(),
            0 <= i < self.buckets.len(),
        ensures
            self.has(self.buckets[i].name@),
            self.slot(self.buckets[i].name@) == i,
            self@.dom().contains(self.buckets[i].name@),
            self@[self.buckets[i].name@] == self.buckets[i].servers@,
    {
    }

    /// A registry that differs from `before` only in what runs in one bucket
    /// is `before` with that bucket's name mapped to what runs there now.
    proof fn lemma_bucket_changed(&self, before: &Registry, slot: int)
        requires
            before.wf(),
            0 <= slot < before.buckets.len(),
            self.buckets.len() == before.buckets.len(),
            forall|i: int|
                0 <= i < self.buckets.len() ==> (#[trigger] self.buckets[i]).name@ == before.buckets[i].name@,
            forall|i: int|
                0 <= i < self.buckets.len() && i != slot ==> (#[trigger] self.buckets[i]).servers@
                    == before.buckets[i].servers@,
        ensures
            self.wf(),
            self@ == before@.insert(before.buckets[slot].name@, self.buckets[slot].servers@),
    {
        assert forall|name: Seq<char>| self.has(name) == before.has(name) by {
            if self.has(name) {
                let i: int = self.slot(name);
                assert(before.buckets[i].name@ == name);
            }
            if before.has(name) {
                let i: int = before.slot(name);
                assert(self.buckets[i].name@ == name);
            }
        }
        assert forall|name: Seq<char>| self.has(name) implies self.slot(name) == before.slot(name) by {
            let i: int = self.slot(name);
            before.lemma_slot(i);
        }
        before.lemma_slot(slot);
        assert(self@ =~= before@.insert(before.buckets[slot].name@, self.buckets[slot].servers@));
    }

    /// An empty registry.
    pub fn new() -> (registry: Registry)
        ensures
            registry.wf(),
            registry@ == Map::<Seq<char>, Seq<ServerGroup>>::empty(),
    {
        let registry = Registry { buckets: Vec::new() };
        assert(registry@ =~= Map::<Seq<char>, Seq<ServerGroup>>::empty());
        registry
    }

    fn find(&self, name: &String) -> (found: Option<usize>)
        requires
            self.wf(),
        ensures
            match found {
                Some(i) => i < self.buckets.len() && self.buckets[i as int].name@ == name@,
                None => !self.has(name@),
            },
    {
        let mut i: usize = 0;
        while i < self.buckets.len()
            invariant
                i <= self.buckets.len(),
                forall|j: int| 0 <= j < i ==> self.buckets[j].name@ != name@,
            decreases self.buckets.len() - i,
        {
            if self.buckets[i].name == *name {
                return Some(i);
            }
            i += 1;
        }
        None
    }

    /// Appends `instance` to what runs under `network_name`; a name that had
    /// no entry gets one. Whatever ran before stays, in its order.
    pub fn register(&mut self, network_name: String, instance: ServerGroup)
        requires
            old(self).wf(),
        ensures
            final(self).wf(),
            final(self)@ == registered(old(self)@, network_name@, instance),
    {
        match self.find(&network_name) {
            Some(slot) => {
                proof {
                    old(self).lemma_slot(slot as int);
                }
                self.buckets[slot].servers.push(instance);
                proof {
                    self.lemma_bucket_changed(old(self), slot as int);
                }
            },
            None => {
                let mut servers: Vec<ServerGroup> = Vec::new();
                servers.push(instance);
                self.buckets.push(Bucket { name: network_name, servers });
                proof {
                    let last: int = self.buckets.len() - 1;
                    self.lemma_slot(last);
                    assert forall|name: Seq<char>| self.has(name) == (old(self).has(name) || name
                        == network_name@) by {
                        if self.has(name) && name != network_name@ {
                            let i: int = self.slot(name);
                            assert(old(self).buckets[i].name@ == name);
                        }
                        if old(self).has(name) {
                            let i: int = old(self).slot(name);
                            assert(self.buckets[i].name@ == name);
                        }
                    }
                    assert forall|name: Seq<char>| old(self).has(name) implies self@[name] == old(self)@[name] by {
                        let i: int = old(self).slot(name);
                        self.lemma_slot(i);
                    }
                    assert(servers@ =~= Seq::<ServerGroup>::empty().push(instance));
                    assert(self@ =~= registered(old(self)@, network_name@, instance));
                }
            },
        }
    }

    /// Takes out the first instance under `network_name` whose identifier is
    /// `id` and hands it back; where there is none the registry is left as it was.
    pub fn unregister(&mut self, network_name: &String, id: u64) -> (removed: Option<ServerGroup>)
        requires
            old(self).wf(),
        ensures
            final(self).wf(),
            final(self)@ == unregistered(old(self)@, network_name@, id),
            removed == found_in(old(self)@, network_name@, id),
    {
        let slot: usize = match self.find(network_name) {
            Some(slot) => slot,
            None => {
                return None;
            },
        };
        proof {
            self.lemma_slot(slot as int);
        }
        let at: usize = match position(&self.buckets[slot].servers, id) {
            Some(at) => at,
            None => {
                return None;
            },
        };
        let instance = self.buckets[slot].servers.remove(at);
        proof {
            self.lemma_bucket_changed(old(self), slot as int);
        }
        Some(instance)
    }

    /// A snapshot of what runs under `network_name`, oldest first; empty for
    /// a name that has no entry.
    pub fn list(&self, network_name: &String) -> (listing: Vec<ServerGroupSerde>)
        requires
            self.wf(),
        ensures
            listing_view(listing@) == summaries(self.servers_of(network_name@)),
    {
        let mut listing: Vec<ServerGroupSerde> = Vec::new();
        match self.find(network_name) {
            Some(slot) => {
                proof {
                    self.lemma_slot(slot as int);
                }
                let servers = &self.buckets[slot].servers;
                let mut i: usize = 0;
                while i < servers.len()
                    invariant
                        i <= servers.len(),
                        listing_view(listing@) == summaries(servers@.take(i as int)),
                    decreases servers.len() - i,
                {
                    let instance = &servers[i];
                    let entry = ServerGroupSerde {
                        id: instance.id,
                        addresses: copy_addresses(&instance.addresses),
                    };
                    let ghost before = listing@;
                    assert(entry@ == instance.summary());
                    listing.push(entry);
                    assert(listing_view(listing@) =~= listing_view(before).push(entry@));
                    assert(summaries(servers@.take(i + 1)) =~= summaries(servers@.take(i as int)).push(
                        instance.summary(),
                    ));
                    i += 1;
                }
                assert(servers@.take(servers.len() as int) =~= servers@);
            },
            None => {
                assert(listing_view(listing@) =~= summaries(self.servers_of(network_name@)));
            },
        }
        listing
    }
}

/// The index of the first instance in `servers` whose identifier is `id`.
fn position(servers: &Vec<ServerGroup>, id: u64) -> (found: Option<usize>)
    ensures
        match found {
            Some(k) => k < servers.len() && position_of(servers@, id) == Some(k as int),
            None => position_of(servers@, id) is None,
        },
{
    let mut i: usize = 0;
    while i < servers.len()
        invariant
            i <= servers.len(),
            forall|j: int| 0 <= j < i ==> servers[j].id != id,
        decreases servers.len() - i,
    {
        if servers[i].id == id {
            proof {
                lemma_position_of_first(servers@, id, i as int);
            }
            return Some(i);
        }
        i += 1;
    }
    proof {
        lemma_position_of_absent(servers@, id);
    }
    None
}

/// Two instances registered under one name both run under it afterwards,
/// behind whatever ran there before and in the order of their registration;
/// what runs under other names is untouched.
pub proof fn lemma_register_appends(
    model: RegistryModel,
    name: Seq<char>,
    first: ServerGroup,
    second: ServerGroup,
)
    ensures
        servers_in(registered(registered(model, name, first), name, second), name) == servers_in(
            model,
            name,
        ).push(first).push(second),
        summaries(servers_in(registered(registered(model, name, first), name, second), name))
            == summaries(servers_in(model, name)).push(first.summary()).push(second.summary()),
        forall|other: Seq<char>|
            other != name ==> servers_in(registered(registered(model, name, first), name, second), other)
                == servers_in(model, other),
{
    let after = servers_in(registered(registered(model, name, first), name, second), name);
    assert(summaries(after) =~= summaries(servers_in(model, name)).push(first.summary()).push(
        second.summary(),
    ));
}

/// Where no two instances under a name share an identifier, taking one out by
/// its identifier leaves exactly the others, in their order: the one asked for
/// is handed back and no longer runs under the name, and what runs under
/// other names is untouched.
pub proof fn lemma_unregister_removes_exactly_one(model: RegistryModel, name: Seq<char>, id: u64)
    requires
        ids_distinct(servers_in(model, name)),
        exists|k: int| 0 <= k < servers_in(model, name).len() && servers_in(model, name)[k].id == id,
    ensures
        found_in(model, name, id) is Some,
        found_in(model, name, id).unwrap().id == id,
        servers_in(unregistered(model, name, id), name) == servers_in(model, name).filter(
            |g: ServerGroup| g.id != id,
        ),
        servers_in(unregistered(model, name, id), name).len() == servers_in(model, name).len() - 1,
        forall|j: int|
            0 <= j < servers_in(unregistered(model, name, id), name).len() ==> servers_in(
                unregistered(model, name, id),
                name,
            )[j].id != id,
        forall|other: Seq<char>|
            other != name ==> servers_in(unregistered(model, name, id), other) == servers_in(
                model,
                other,
            ),
{
    let before = servers_in(model, name);
    lemma_position_of(before, id);
    let k: int = position_of(before, id).unwrap();
    lemma_remove_is_filter(before, id, k);
}

/// Asking for an identifier that no instance under the name has (or for a
/// name that has no entry) finds nothing and leaves the registry as it was.
pub proof fn lemma_unregister_unknown(model: RegistryModel, name: Seq<char>, id: u64)
    requires
        forall|k: int| 0 <= k < servers_in(model, name).len() ==> servers_in(model, name)[k].id != id,
    ensures
        found_in(model, name, id) is None,
        unregistered(model, name, id) == model,
{
    lemma_position_of(servers_in(model, name), id);
}

/// A name that has no entry has nothing running under it.
pub proof fn lemma_unknown_name_is_empty(model: RegistryModel, name: Seq<char>, id: u64)
    requires
        !model.dom().contains(name),
    ensures
        summaries(servers_in(model, name)) == Seq::<ServerSummary>::empty(),
        found_in(model, name, id) is None,
        unregistered(model, name, id) == model,
{
    assert(summaries(servers_in(model, name)) =~= Seq::<ServerSummary>::empty());
}

/// Registering an instance whose identifier is new to the name keeps the
/// identifiers under that name distinct.
pub proof fn lemma_register_keeps_ids_distinct(model: RegistryModel, name: Seq<char>, instance: ServerGroup)
    requires
        ids_distinct(servers_in(model, name)),
        forall|k: int|
            0 <= k < servers_in(model, name).len() ==> servers_in(model, name)[k].id != instance.id,
    ensures
        ids_distinct(servers_in(registered(model, name, instance), name)),
{
}

/// Every identifier in `servers` was issued by a counter that now stands at `counter`.
pub open spec fn ids_issued(servers: Seq<ServerGroup>, counter: u64) -> bool {
    forall|k: int| 0 <= k < servers.len() ==> servers[k].id <= counter
}

/// An identifier that the counter issues after every registered one is new:
/// registering an instance under it keeps the identifiers under the name
/// distinct, and all of them issued.
pub proof fn lemma_next_id_is_fresh(
    model: RegistryModel,
    name: Seq<char>,
    instance: ServerGroup,
    counter: u64,
)
    requires
        counter < u64::MAX,
        ids_distinct(servers_in(model, name)),
        ids_issued(servers_in(model, name), counter),
        instance.id == next_id(counter),
    ensures
        ids_distinct(servers_in(registered(model, name, instance), name)),
        ids_issued(servers_in(registered(model, name, instance), name), next_id(counter)),
{
}

/// Taking an instance out keeps the identifiers under the name distinct.
pub proof fn lemma_unregister_keeps_ids_distinct(model: RegistryModel, name: Seq<char>, id: u64)
    requires
        ids_distinct(servers_in(model, name)),
    ensures
        ids_distinct(servers_in(unregistered(model, name, id), name)),
{
    lemma_position_of(servers_in(model, name), id);
}

/// Removing the only instance with identifier `id` is the same as keeping
/// the instances with another identifier.
proof fn lemma_remove_is_filter(servers: Seq<ServerGroup>, id: u64, k: int)
    requires
        0 <= k < servers.len(),
        servers[k].id == id,
        forall|j: int| 0 <= j < servers.len() && j != k ==> servers[j].id != id,
    ensures
        servers.remove(k) == servers.filter(|g: ServerGroup| g.id != id),
    decreases servers.len(),
{
    let keep = |g: ServerGroup| g.id != id;
    let front = servers.drop_last();
    reveal(Seq::filter);
    if k == servers.len() - 1 {
        lemma_filter_keeps_all(front, id);
        assert(servers.remove(k) =~= front);
    } else {
        lemma_remove_is_filter(front, id, k);
        assert(servers.remove(k) =~= front.remove(k).push(servers.last()));
    }
}

/// Where no instance has identifier `id`, keeping those with another
/// identifier keeps them all.
proof fn lemma_filter_keeps_all(servers: Seq<ServerGroup>, id: u64)
    requires
        forall|j: int| 0 <= j < servers.len() ==> servers[j].id != id,
    ensures
        servers.filter(|g: ServerGroup| g.id != id) == servers,
    decreases servers.len(),
{
    reveal(Seq::filter);
    if servers.len() > 0 {
        lemma_filter_keeps_all(servers.drop_last(), id);
        assert(servers.drop_last().push(servers.last()) =~= servers);
    }
}

} // verus!
