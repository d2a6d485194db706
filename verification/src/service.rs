//! The bookkeeping of the component runner: the components by id, the ids
//! handed out, and the list of components that the cached waiter waits on,
//! dropped whenever the set of components changes. Waiting on the kernel and
//! dispatching the ready components is left to the caller.
use vstd::prelude::*;
use std::collections::HashMap;
use vstd::std_specs::iter::IteratorSpec;

verus! {

/// The id under which a component was added to the runner.
#[derive(Debug, Clone, Copy, PartialEq, Eq, Hash, Structural)]
pub struct ComponentId(pub usize);

/// The components of a runner, with the list that its cached waiter waits on.
pub struct RunnerData<C> {
    components: HashMap<usize, C>,
    cached_waiter: Option<Vec<ComponentId>>,
    id_gen: usize,
}

impl<C> RunnerData<C> {
    /// The components by id.
    pub closed spec fn components(&self) -> Map<usize, C> {
        self.components@
    }

    /// The components that the cached waiter waits on, if there is one.
    pub closed spec fn cached(&self) -> Option<Seq<ComponentId>> {
        match self.cached_waiter {
            Some(l) => Some(l@),
            None => None,
        }
    }

    /// The last id handed out (0 before the first).
    pub closed spec fn last_id(&self) -> nat {
        self.id_gen as nat
    }

    /// Every id was handed out already, and the cached list holds each
    /// component exactly once.
    pub closed spec fn wf(&self) -> bool {
        &&& forall|k: usize| #[trigger] self.components@.contains_key(k) ==> 0 < k <= self.id_gen
        &&& self.cached_waiter matches Some(l) ==> lists_once(l@, self.components@.dom())
    }

    /// A runner with no component.
    pub fn new() -> (r: Self)
        ensures
            r.wf(),
            r.components() == Map::<usize, C>::empty(),
            r.cached() is None,
            r.last_id() == 0,
    {
        RunnerData { components: HashMap::new(), cached_waiter: None, id_gen: 0 }
    }

    /// Whether an id is left to hand out.
    pub fn can_add(&self) -> (r: bool)
        ensures
            r == (self.last_id() < usize::MAX),
    {
        self.id_gen < usize::MAX
    }

    /// Adds a component under the next id, which no component had before;
    /// the cached waiter is dropped.
    pub fn add_component(&mut self, component: C) -> (r: ComponentId)
        requires
            old(self).wf(),
            old(self).last_id() < usize::MAX,
        ensures
            final(self).wf(),
            r.0 == old(self).last_id() + 1,
            final(self).last_id() == r.0,
            !old(self).components().contains_key(r.0),
            final(self).components() == old(self).components().insert(r.0, component),
            final(self).cached() is None,
    {
        broadcast use vstd::std_specs::hash::group_hash_axioms;
        self.id_gen = self.id_gen + 1;
        let id = ComponentId(self.id_gen);
        self.components.insert(id.0, component);
        self.cached_waiter = None;
        id
    }

    /// Removes the component of `id`, if there is one; the cached waiter is
    /// dropped.
    pub fn remove_component(&mut self, id: ComponentId)
        requires
            old(self).wf(),
        ensures
            final(self).wf(),
            final(self).last_id() == old(self).last_id(),
            final(self).components() == old(self).components().remove(id.0),
            final(self).cached() is None,
    {
        broadcast use vstd::std_specs::hash::group_hash_axioms;
        self.components.remove(&id.0);
        self.cached_waiter = None;
    }

    /// The component of `id`, if there is one.
    pub fn component(&self, id: ComponentId) -> (r: Option<&C>)
        ensures
            r matches Some(c) ==> self.components().contains_key(id.0) && *c == self.components()[id.0],
            r is None ==> !self.components().contains_key(id.0),
    {
        broadcast use vstd::std_specs::hash::group_hash_axioms;
        self.components.get(&id.0)
    }

    /// The components for the waiter to wait on: the cached list when there
    /// is one, else a new list of every component, once each, which is cached.
    pub fn waiter(&mut self) -> (r: Vec<ComponentId>)
        requires
            old(self).wf(),
        ensures
            final(self).wf(),
            final(self).components() == old(self).components(),
            final(self).last_id() == old(self).last_id(),
            final(self).cached() == Some(r@),
            lists_once(r@, old(self).components().dom()),
            old(self).cached() matches Some(l) ==> r@ == l,
    {
        broadcast use vstd::std_specs::hash::group_hash_axioms;
        match &self.cached_waiter {
            Some(l) => {
                return l.clone();
            },
            None => {},
        }
        let keys = self.components.keys();
        let ghost all = keys.remaining();
        proof {
            vstd::std_specs::hash::axiom_spec_keys_iter(&self.components);
        }
        let mut list: Vec<ComponentId> = Vec::new();
        for k in it: self.components.keys()
            invariant
                it.seq() == all,
                list@.len() == it.index(),
                forall|i: int| 0 <= i < it.index() ==> #[trigger] list@[i] == ComponentId(*all[i]),
        {
            list.push(ComponentId(*k));
        }
        proof {
            let dom = self.components@.dom();
            assert(all.unref().to_set() == dom);
            assert(all.no_duplicates());
            assert forall|i: int| 0 <= i < list@.len() implies #[trigger] dom.contains(list@[i].0) by {
                assert(all.unref()[i] == *all[i]);
                assert(all.unref().contains(all.unref()[i]));
                assert(all.unref().to_set().contains(*all[i]));
            }
            assert forall|k: usize| #[trigger] dom.contains(k) implies exists|i: int| 0 <= i < list@.len() && list@[i].0 == k by {
                assert(all.unref().to_set().contains(k));
                let i = choose|i: int| 0 <= i < all.len() && all.unref()[i] == k;
                assert(list@[i].0 == k);
            }
            assert forall|i: int, j: int| 0 <= i < j < list@.len() implies list@[i] != list@[j] by {
                assert(all[i] != all[j]);
            }
        }
        self.cached_waiter = Some(list.clone());
        list
    }
}

/// `l` holds the ids of `ids`, each exactly once.
pub open spec fn lists_once(l: Seq<ComponentId>, ids: Set<usize>) -> bool {
    &&& forall|i: int| 0 <= i < l.len() ==> #[trigger] ids.contains(l[i].0)
    &&& forall|k: usize| #[trigger] ids.contains(k) ==> exists|i: int| 0 <= i < l.len() && l[i].0 == k
    &&& forall|i: int, j: int| 0 <= i < j < l.len() ==> l[i] != l[j]
}

} // verus!
