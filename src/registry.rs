//! The registry of loaded plugins: each instance together with the library that
//! produced it, in the order in which they were loaded.
use vstd::prelude::*;

use crate::discovery::{candidates, count_candidates, has_unreadable, lemma_discovery_picks_marked_entries};

verus! {

/// One loaded plugin: the instance a library's factory produced and the handle that keeps
/// that library mapped.
///
/// The instance's code and data live inside the library, so the library must outlive it.
/// Fields are dropped in the order of declaration, so `instance` stands first: whenever a
/// pair goes away, the instance is gone before its library is released.
pub struct LoadedPlugin<L, P> {
    pub instance: P,
    pub library: L,
}

/// Owns every loaded plugin for as long as it lives. Nothing is ever removed: entries
/// keep their positions, which are the order of loading.
pub struct PlumbaPluginSystem<L, P> {
    plugins: Vec<LoadedPlugin<L, P>>,
}

/// The entries that a sequence of load outcomes adds: the successful ones, in order.
pub open spec fn loaded_of<L, P, E>(outcomes: Seq<Result<(L, P), E>>) -> Seq<LoadedPlugin<L, P>>
    decreases outcomes.len(),
{
    if outcomes.len() == 0 {
        Seq::empty()
    } else {
        let rest = loaded_of(outcomes.drop_last());
        match outcomes.last() {
            Ok((library, instance)) => rest.push(LoadedPlugin { instance, library }),
            Err(_) => rest,
        }
    }
}

/// The failures among a sequence of load outcomes, in order.
pub open spec fn failures_of<L, P, E>(outcomes: Seq<Result<(L, P), E>>) -> Seq<E>
    decreases outcomes.len(),
{
    if outcomes.len() == 0 {
        Seq::empty()
    } else {
        let rest = failures_of(outcomes.drop_last());
        match outcomes.last() {
            Ok(_) => rest,
            Err(e) => rest.push(e),
        }
    }
}

impl<L, P> View for PlumbaPluginSystem<L, P> {
    type V = Seq<LoadedPlugin<L, P>>;

    closed spec fn view(&self) -> Seq<LoadedPlugin<L, P>> {
        self.plugins@
    }
}

impl<L, P> PlumbaPluginSystem<L, P> {
    /// The loaded instances, in loading order.
    pub open spec fn instances(&self) -> Seq<P> {
        self@.map_values(|e: LoadedPlugin<L, P>| e.instance)
    }

    /// An empty registry.
    pub fn new() -> (r: Self)
        ensures
            r@ == Seq::<LoadedPlugin<L, P>>::empty(),
    {
        PlumbaPluginSystem { plugins: Vec::new() }
    }

    /// Takes the outcome of opening one plugin. A success is appended, keeping the library
    /// with its instance; a failure leaves the registry as it was and is handed back.
    pub fn load<E>(&mut self, opened: Result<(L, P), E>) -> (r: Result<(), E>)
        ensures
            match opened {
                Ok((library, instance)) => r is Ok && final(self)@ == old(self)@.push(
                    LoadedPlugin { instance, library },
                ),
                Err(e) => r == Err::<(), E>(e) && final(self)@ == old(self)@,
            },
    {
        match opened {
            Ok((library, instance)) => {
                self.plugins.push(LoadedPlugin { instance, library });
                Ok(())
            },
            Err(e) => Err(e),
        }
    }

    /// Takes the outcomes of opening several plugins, in discovery order. The successes
    /// are appended in that order; a failure skips that plugin only. The failures come
    /// back in order.
    pub fn load_all<E>(&mut self, opened: Vec<Result<(L, P), E>>) -> (r: Vec<E>)
        ensures
            final(self)@ == old(self)@ + loaded_of(opened@),
            r@ == failures_of(opened@),
    {
        let ghost all = opened@;
        let ghost start = self@;
        let total = opened.len();
        let mut rest = opened;
        let mut failures: Vec<E> = Vec::new();
        let mut k: usize = 0;
        while rest.len() > 0
            invariant
                total == all.len(),
                k <= all.len(),
                rest@ == all.subrange(k as int, all.len() as int),
                self@ == start + loaded_of(all.subrange(0, k as int)),
                failures@ == failures_of(all.subrange(0, k as int)),
            decreases rest.len(),
        {
            assert(k < all.len());
            let outcome = rest.remove(0);
            proof {
                assert(outcome == all[k as int]);
                assert(all.subrange(0, k + 1).drop_last() =~= all.subrange(0, k as int));
                assert(all.subrange(0, k + 1).last() == all[k as int]);
                assert(rest@ =~= all.subrange(k + 1, all.len() as int));
            }
            match outcome {
                Ok((library, instance)) => {
                    self.plugins.push(LoadedPlugin { instance, library });
                    proof {
                        assert(self@ =~= start + loaded_of(all.subrange(0, k + 1)));
                    }
                },
                Err(e) => {
                    failures.push(e);
                },
            }
            k = k + 1;
        }
        assert(all.subrange(0, k as int) =~= all);
        failures
    }

    /// How many plugins are loaded.
    pub fn len(&self) -> (r: usize)
        ensures
            r == self@.len(),
    {
        self.plugins.len()
    }

    /// The instances in loading order, as they stand now; later loads do not show in it.
    pub fn iter(&self) -> (r: Vec<&P>)
        ensures
            r@.len() == self@.len(),
            forall|i: int| 0 <= i < r@.len() ==> *#[trigger] r@[i] == self@[i].instance,
    {
        let mut out: Vec<&P> = Vec::new();
        let mut i: usize = 0;
        while i < self.plugins.len()
            invariant
                i <= self@.len(),
                out@.len() == i,
                forall|j: int| 0 <= j < i ==> *#[trigger] out@[j] == self@[j].instance,
            decreases self@.len() - i,
        {
            out.push(&self.plugins[i].instance);
            i = i + 1;
        }
        out
    }

    /// The instance at position `id`, or `None` when `id` is not below the count.
    pub fn get(&self, id: usize) -> (r: Option<&P>)
        ensures
            id < self@.len() ==> r == Some(&self@[id as int].instance),
            id >= self@.len() ==> r is None,
    {
        if id < self.plugins.len() {
            Some(&self.plugins[id].instance)
        } else {
            None
        }
    }

    /// Exclusive access to the instance at position `id`, or `None` when `id` is not below
    /// the count. Whatever is done through it changes that instance only.
    pub fn get_mut(&mut self, id: usize) -> (r: Option<&mut P>)
        ensures
            id >= old(self)@.len() ==> r is None && final(self)@ == old(self)@,
            id < old(self)@.len() ==> r is Some && *r->0 == old(self)@[id as int].instance
                && final(self)@ == old(self)@.update(
                id as int,
                LoadedPlugin { instance: *final(r->0), library: old(self)@[id as int].library },
            ),
    {
        if id < self.plugins.len() {
            Some(&mut self.plugins[id].instance)
        } else {
            None
        }
    }

    /// The instance at position `id`, which must be below the count.
    pub fn get_plugin(&self, id: usize) -> (r: &P)
        requires
            id < self@.len(),
        ensures
            *r == self@[id as int].instance,
    {
        &self.plugins[id].instance
    }

    /// Exclusive access to the instance at position `id`, which must be below the count.
    /// Whatever is done through it changes that instance only.
    pub fn get_mut_plugin(&mut self, id: usize) -> (r: &mut P)
        requires
            id < old(self)@.len(),
        ensures
            *r == old(self)@[id as int].instance,
            final(self)@ == old(self)@.update(
                id as int,
                LoadedPlugin { instance: *final(r), library: old(self)@[id as int].library },
            ),
    {
        &mut self.plugins[id].instance
    }
}

impl<L, P> Default for PlumbaPluginSystem<L, P> {
    fn default() -> (r: Self)
        ensures
            r@ == Seq::<LoadedPlugin<L, P>>::empty(),
    {
        Self::new()
    }
}

/// When every outcome succeeded, each one adds exactly one entry, in the same order.
pub proof fn lemma_loaded_of_all_ok<L, P, E>(outcomes: Seq<Result<(L, P), E>>)
    requires
        forall|i: int| 0 <= i < outcomes.len() ==> #[trigger] outcomes[i] is Ok,
    ensures
        loaded_of(outcomes).len() == outcomes.len(),
        failures_of(outcomes).len() == 0,
        forall|i: int|
            0 <= i < outcomes.len() ==> #[trigger] loaded_of(outcomes)[i] == (LoadedPlugin {
                instance: outcomes[i]->Ok_0.1,
                library: outcomes[i]->Ok_0.0,
            }),
    decreases outcomes.len(),
{
    if outcomes.len() > 0 {
        let init = outcomes.drop_last();
        assert forall|i: int| 0 <= i < init.len() implies #[trigger] init[i] is Ok by {
            assert(init[i] == outcomes[i]);
        }
        lemma_loaded_of_all_ok(init);
        assert(outcomes.last() is Ok);
    }
}

/// Loading a directory whose listing was read completely, where each candidate opens,
/// adds exactly one plugin per entry whose name holds the marker, and adds them in the
/// directory's order: the plugin opened from the `i`-th candidate lands at position
/// `i` after the entries that were there before.
pub proof fn lemma_directory_load_adds_each_candidate<L, P, E>(
    before: Seq<LoadedPlugin<L, P>>,
    entries: Seq<Option<Seq<char>>>,
    outcomes: Seq<Result<(L, P), E>>,
)
    requires
        !has_unreadable(entries),
        outcomes.len() == candidates(entries).len(),
        forall|i: int| 0 <= i < outcomes.len() ==> #[trigger] outcomes[i] is Ok,
    ensures
        (before + loaded_of(outcomes)).len() == before.len() + count_candidates(
            entries,
            entries.len() as int,
        ),
        forall|i: int|
            0 <= i < outcomes.len() ==> #[trigger] (before + loaded_of(outcomes))[before.len()
                + i] == (LoadedPlugin {
                instance: outcomes[i]->Ok_0.1,
                library: outcomes[i]->Ok_0.0,
            }),
{
    lemma_discovery_picks_marked_entries(entries);
    lemma_loaded_of_all_ok(outcomes);
    assert forall|i: int| 0 <= i < outcomes.len() implies #[trigger] (before + loaded_of(
        outcomes,
    ))[before.len() + i] == (LoadedPlugin {
        instance: outcomes[i]->Ok_0.1,
        library: outcomes[i]->Ok_0.0,
    }) by {
        assert(loaded_of(outcomes)[i] == (LoadedPlugin {
            instance: outcomes[i]->Ok_0.1,
            library: outcomes[i]->Ok_0.0,
        }));
    }
}

/// Two plugins loaded one after the other are independent: changing either instance
/// through exclusive access leaves the other entry, instance and library, as it was.
pub proof fn lemma_loaded_plugins_independent<L, P>(
    before: Seq<LoadedPlugin<L, P>>,
    first: LoadedPlugin<L, P>,
    second: LoadedPlugin<L, P>,
    changed: P,
)
    ensures
        ({
            let after = before.push(first).push(second);
            let n = before.len() as int;
            &&& after[n] == first
            &&& after[n + 1] == second
            &&& after.update(n, LoadedPlugin { instance: changed, library: first.library })[n
                + 1] == second
            &&& after.update(n + 1, LoadedPlugin { instance: changed, library: second.library })[n]
                == first
        }),
{
}

} // verus!
