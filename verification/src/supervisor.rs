//! The supervisor: the only place monitor loops are created.
//!
//! On process start, `bootstrap` turns every stored target into one
//! loop seed and marks its loop as running; on a registration request,
//! `register_target` stores the new target and marks its loop. The
//! `Registry` guarantees the system's central invariant: at most one
//! live monitor loop per target id, and only for targets the store
//! knows.

use vstd::prelude::*;
use crate::store::{Store, has_id};
use crate::target::{Target, TargetModel};

verus! {

/// Model of what a monitor loop is seeded with.
pub struct LoopSeedModel {
    pub id: int,
    pub url: Seq<char>,
    pub webhook: Seq<char>,
}

/// What a monitor loop is seeded with: the target's identity and the
/// two addresses it needs. Stale check fields are deliberately left
/// behind — the first probe after startup re-establishes them.
pub struct LoopSeed {
    pub id: i32,
    pub url: String,
    pub webhook: String,
}

impl View for LoopSeed {
    type V = LoopSeedModel;

    open spec fn view(&self) -> LoopSeedModel {
        LoopSeedModel { id: self.id as int, url: self.url@, webhook: self.webhook@ }
    }
}

/// The seed a stored target's monitor loop gets.
pub open spec fn seed_of(t: TargetModel) -> LoopSeedModel {
    LoopSeedModel { id: t.id, url: t.url, webhook: t.webhook }
}

/// The ids of the monitor loops that are running.
pub struct Registry {
    pub ids: Vec<i32>,
}

impl View for Registry {
    type V = Seq<int>;

    open spec fn view(&self) -> Seq<int> {
        self.ids@.map_values(|i: i32| i as int)
    }
}

impl Registry {
    /// No id is registered twice: at most one loop per target.
    pub open spec fn wf(self) -> bool {
        forall|i: int, j: int|
            0 <= i < j < self@.len() ==> #[trigger] self@[i] != #[trigger] self@[j]
    }

    /// A registry with no running loops.
    pub fn new() -> (r: Registry)
        ensures
            r.wf(),
            r@ =~= Seq::<int>::empty(),
    {
        Registry { ids: Vec::new() }
    }

    /// Whether the loop for this id is running.
    pub fn is_running(&self, id: i32) -> (running: bool)
        ensures
            running == self@.contains(id as int),
    {
        let n = self.ids.len();
        let mut j: usize = 0;
        while j < n
            invariant
                n == self.ids.len(),
                j <= n,
                forall|i: int| 0 <= i < j ==> #[trigger] self@[i] != id as int,
            decreases n - j,
        {
            if self.ids[j] == id {
                proof {
                    assert(self@[j as int] == id as int);
                }
                return true;
            }
            j = j + 1;
        }
        false
    }

    /// Mark the loop for this id as started, unless one is already
    /// running: a second loop for a live id is never admitted.
    pub fn mark_started(&mut self, id: i32) -> (started: bool)
        requires
            old(self).wf(),
        ensures
            final(self).wf(),
            started == !old(self)@.contains(id as int),
            started ==> final(self)@ == old(self)@.push(id as int),
            !started ==> final(self)@ == old(self)@,
            final(self)@.contains(id as int),
    {
        if self.is_running(id) {
            return false;
        }
        self.ids.push(id);
        proof {
            assert(self@ =~= old(self)@.push(id as int));
            assert(self@[self@.len() - 1] == id as int);
        }
        true
    }
}

/// Every running loop belongs to a target the store knows.
pub open spec fn loops_match_store(reg: Seq<int>, s: Seq<TargetModel>) -> bool {
    forall|k: int| 0 <= k < reg.len() ==> has_id(s, #[trigger] reg[k])
}

/// Start of process: plan one monitor loop per stored target, each
/// seeded with that target's stored id, url and webhook, and mark all
/// of them as running. Exactly one loop per stored target, no more.
pub fn bootstrap(store: &Store, registry: &mut Registry) -> (seeds: Vec<LoopSeed>)
    requires
        store.wf(),
        old(registry).wf(),
        old(registry)@.len() == 0,
    ensures
        final(registry).wf(),
        seeds@.len() == store@.len(),
        forall|i: int|
            0 <= i < store@.len() ==> #[trigger] seeds@[i]@ == seed_of(store@[i]),
        final(registry)@ =~= store@.map_values(|t: TargetModel| t.id),
        loops_match_store(final(registry)@, store@),
{
    let targets = store.list_all();
    let n = targets.len();
    let mut seeds: Vec<LoopSeed> = Vec::new();
    let mut j: usize = 0;
    while j < n
        invariant
            store.wf(),
            n == targets.len(),
            targets@.map_values(|t: Target| t@) =~= store@,
            j <= n,
            seeds@.len() == j,
            forall|i: int| 0 <= i < j ==> #[trigger] seeds@[i]@ == seed_of(store@[i]),
            registry.wf(),
            registry@ =~= store@.map_values(|t: TargetModel| t.id).take(j as int),
        decreases n - j,
    {
        let t = &targets[j];
        proof {
            assert(t@ == store@[j as int]);
            assert forall|k: int| 0 <= k < registry@.len() implies registry@[k] != t@.id by {
                assert(registry@[k] == store@[k].id);
            }
            if registry@.contains(t@.id) {
                let k = choose|k: int| 0 <= k < registry@.len() && registry@[k] == t@.id;
                assert(registry@[k] != t@.id);
            }
        }
        let started = registry.mark_started(t.id);
        assert(started);
        seeds.push(LoopSeed { id: t.id, url: t.url.clone(), webhook: t.webhook.clone() });
        proof {
            assert(registry@ =~= store@.map_values(|t: TargetModel| t.id).take(j + 1));
        }
        j = j + 1;
    }
    proof {
        let ids = store@.map_values(|t: TargetModel| t.id);
        assert(registry@ =~= ids.take(n as int));
        assert(registry@ =~= ids);
        assert forall|k: int| 0 <= k < registry@.len() implies has_id(store@, #[trigger] registry@[k]) by {
            assert(registry@[k] == store@[k].id);
        }
    }
    seeds
}

/// A registration request: store the new `(url, webhook)` pair — the
/// store assigns its id — and mark its monitor loop as started. The id
/// is fresh, so a loop for it cannot already be running; one loop per
/// live id is preserved. Returns the created record, check fields
/// absent, for the caller to report back.
pub fn register_target(
    store: &mut Store,
    registry: &mut Registry,
    url: String,
    webhook: String,
) -> (t: Target)
    requires
        old(store).wf(),
        old(registry).wf(),
        old(store).next_id < i32::MAX,
        loops_match_store(old(registry)@, old(store)@),
    ensures
        final(store).wf(),
        final(registry).wf(),
        t@.id == old(store).next_id as int,
        t@.url == url@,
        t@.webhook == webhook@,
        t@.last_checked is None,
        t@.status is None,
        final(store)@ =~= old(store)@.push(t@),
        final(registry)@ =~= old(registry)@.push(t@.id),
        loops_match_store(final(registry)@, final(store)@),
        final(store).next_id == old(store).next_id + 1,
{
    let t = store.insert_new(url, webhook);
    proof {
        if old(registry)@.contains(t@.id) {
            let k = choose|k: int|
                0 <= k < old(registry)@.len() && old(registry)@[k] == t@.id;
            assert(has_id(old(store)@, old(registry)@[k]));
        }
    }
    let started = registry.mark_started(t.id);
    assert(started);
    proof {
        assert forall|k: int|
            0 <= k < registry@.len() implies has_id(store@, #[trigger] registry@[k]) by {
            if k < old(registry)@.len() {
                assert(has_id(old(store)@, registry@[k]));
                let i = choose|i: int|
                    0 <= i < old(store)@.len() && old(store)@[i].id == registry@[k];
                assert(store@[i].id == registry@[k]);
            } else {
                assert(registry@[k] == t@.id);
                assert(store@[store@.len() - 1].id == t@.id);
            }
        }
    }
    t
}

} // verus!
