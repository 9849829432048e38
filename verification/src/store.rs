//! An in-memory result store: the durable record of every monitored
//! target and its last check outcome.
//!
//! It offers exactly the interface the rest of the system needs:
//! insert-new (assigning a fresh id), update-by-id (the check fields,
//! set together), and list-all. Each monitor loop writes only its own
//! target's record, so `apply_update` touching no other record is what
//! keeps concurrent loops isolated from one another.

use vstd::prelude::*;
use crate::cycle::{CheckUpdate, cycle_spec};
use crate::date::Date;
use crate::probe::classifies_healthy;
use crate::target::{Target, TargetModel};

verus! {

/// `t` with its check fields replaced, together, by the given outcome.
pub open spec fn with_check(t: TargetModel, date: Date, healthy: bool) -> TargetModel {
    TargetModel { last_checked: Some(date), status: Some(healthy), ..t }
}

/// A store after one check update: the record whose id the update names
/// carries the new check fields; every other record is untouched.
pub open spec fn apply_update(s: Seq<TargetModel>, u: CheckUpdate) -> Seq<TargetModel> {
    s.map(
        |i: int, t: TargetModel|
            if t.id == u.id as int {
                with_check(t, u.date, u.healthy)
            } else {
                t
            },
    )
}

/// Whether some record in `s` has this id.
pub open spec fn has_id(s: Seq<TargetModel>, id: int) -> bool {
    exists|i: int| 0 <= i < s.len() && s[i].id == id
}

/// The record of every monitored target. Ids are assigned here, on
/// insertion, and are never reused.
pub struct Store {
    pub targets: Vec<Target>,
    pub next_id: i32,
}

impl View for Store {
    type V = Seq<TargetModel>;

    open spec fn view(&self) -> Seq<TargetModel> {
        self.targets@.map_values(|t: Target| t@)
    }
}

impl Store {
    /// Ids are unique, positive, and all below the next one to assign.
    pub open spec fn wf(self) -> bool {
        &&& forall|i: int, j: int|
            0 <= i < j < self@.len() ==> #[trigger] self@[i].id != #[trigger] self@[j].id
        &&& forall|i: int| 0 <= i < self@.len() ==> 1 <= #[trigger] self@[i].id < self.next_id
        &&& self.next_id >= 1
    }

    /// An empty store.
    pub fn new() -> (s: Store)
        ensures
            s.wf(),
            s@ =~= Seq::<TargetModel>::empty(),
            s.next_id == 1,
    {
        Store { targets: Vec::new(), next_id: 1 }
    }

    /// Insert a new target: assign it the next id and record it with
    /// both check fields absent. Returns the created record.
    pub fn insert_new(&mut self, url: String, webhook: String) -> (t: Target)
        requires
            old(self).wf(),
            old(self).next_id < i32::MAX,
        ensures
            final(self).wf(),
            t@.id == old(self).next_id as int,
            t@.url == url@,
            t@.webhook == webhook@,
            t@.last_checked is None,
            t@.status is None,
            final(self)@ =~= old(self)@.push(t@),
            !has_id(old(self)@, t@.id),
            final(self).next_id == old(self).next_id + 1,
    {
        let t = Target { id: self.next_id, url, webhook, last_checked: None, status: None };
        let stored = t.duplicate();
        self.targets.push(stored);
        self.next_id = self.next_id + 1;
        proof {
            assert(self@ =~= old(self)@.push(t@));
        }
        t
    }

    /// Write one check outcome: find the record with the update's id
    /// and set its `last_checked` and `status` together. Returns
    /// whether such a record exists; no other record changes either way.
    pub fn update_check(&mut self, u: CheckUpdate) -> (found: bool)
        requires
            old(self).wf(),
        ensures
            final(self).wf(),
            final(self).next_id == old(self).next_id,
            final(self)@ =~= apply_update(old(self)@, u),
            found == has_id(old(self)@, u.id as int),
    {
        let n = self.targets.len();
        let mut j: usize = 0;
        while j < n
            invariant
                n == self.targets.len(),
                j <= n,
                *self == *old(self),
                old(self).wf(),
                forall|i: int| 0 <= i < j ==> #[trigger] self@[i].id != u.id as int,
            decreases n - j,
        {
            if self.targets[j].id == u.id {
                let prev = &self.targets[j];
                let updated = Target {
                    id: prev.id,
                    url: prev.url.clone(),
                    webhook: prev.webhook.clone(),
                    last_checked: Some(u.date),
                    status: Some(u.healthy),
                };
                self.targets[j] = updated;
                proof {
                    let jj = j as int;
                    assert(old(self)@[jj].id == u.id as int);
                    assert(has_id(old(self)@, u.id as int));
                    assert forall|i: int|
                        0 <= i < self@.len() implies self@[i] == apply_update(old(self)@, u)[i] by {
                        if i == jj {
                            assert(self@[i] == updated@);
                        } else {
                            assert(old(self)@[i].id != u.id as int);
                            assert(self@[i] == old(self)@[i]);
                        }
                    }
                    assert(self@ =~= apply_update(old(self)@, u));
                }
                return true;
            }
            j = j + 1;
        }
        proof {
            assert(self@ =~= apply_update(old(self)@, u));
        }
        false
    }

    /// Every record, in insertion order.
    pub fn list_all(&self) -> (ts: &Vec<Target>)
        ensures
            ts@.map_values(|t: Target| t@) =~= self@,
    {
        &self.targets
    }
}

/// Writing one target's check outcome is invisible to every other
/// target: a record whose id the update does not name is exactly what
/// it was before the write.
pub proof fn lemma_update_isolation(s: Seq<TargetModel>, u: CheckUpdate, j: int)
    requires
        0 <= j < s.len(),
        s[j].id != u.id as int,
    ensures
        apply_update(s, u)[j] == s[j],
{
}

/// A store after a whole run of check updates, applied in order. Runs
/// of several concurrent monitor loops reach the store as one such
/// interleaving; which one is left open.
pub open spec fn apply_updates(s: Seq<TargetModel>, us: Seq<CheckUpdate>) -> Seq<TargetModel>
    decreases us.len(),
{
    if us.len() == 0 {
        s
    } else {
        apply_updates(apply_update(s, us[0]), us.drop_first())
    }
}

/// A record none of a run's updates name comes out of the run exactly
/// as it went in.
pub proof fn lemma_run_untouched(s: Seq<TargetModel>, us: Seq<CheckUpdate>, j: int)
    requires
        0 <= j < s.len(),
        forall|k: int| 0 <= k < us.len() ==> (#[trigger] us[k]).id as int != s[j].id,
    ensures
        apply_updates(s, us).len() == s.len(),
        apply_updates(s, us)[j] == s[j],
    decreases us.len(),
{
    if us.len() > 0 {
        let s1 = apply_update(s, us[0]);
        assert(s1[j] == s[j]);
        assert forall|k: int|
            0 <= k < us.drop_first().len() implies (#[trigger] us.drop_first()[k]).id as int
            != s1[j].id by {
            assert(us.drop_first()[k] == us[k + 1]);
        }
        lemma_run_untouched(s1, us.drop_first(), j);
    }
}

/// Concurrent monitor loops are isolated from one another. Take any
/// interleaved run of check updates and any target all of whose own
/// updates record the same outcome `healthy` — probed at least once in
/// the run. Whatever every other loop writes, that target comes out of
/// the run with `status` equal to `Some(healthy)`, its identity and
/// addresses untouched: one loop's always-failing probes cannot leak
/// into another's always-succeeding record.
pub proof fn lemma_run_isolation(
    s: Seq<TargetModel>,
    us: Seq<CheckUpdate>,
    j: int,
    healthy: bool,
)
    requires
        0 <= j < s.len(),
        forall|k: int|
            0 <= k < us.len() && (#[trigger] us[k]).id as int == s[j].id ==> us[k].healthy
                == healthy,
        exists|k: int| 0 <= k < us.len() && (#[trigger] us[k]).id as int == s[j].id,
    ensures
        apply_updates(s, us).len() == s.len(),
        apply_updates(s, us)[j].status == Some(healthy),
        apply_updates(s, us)[j].id == s[j].id,
        apply_updates(s, us)[j].url == s[j].url,
        apply_updates(s, us)[j].webhook == s[j].webhook,
    decreases us.len(),
{
    let s1 = apply_update(s, us[0]);
    let rest = us.drop_first();
    assert(s1[j].id == s[j].id);
    assert(s1[j].url == s[j].url);
    assert(s1[j].webhook == s[j].webhook);
    if exists|k: int| 0 <= k < rest.len() && (#[trigger] rest[k]).id as int == s1[j].id {
        assert forall|k: int|
            0 <= k < rest.len() && (#[trigger] rest[k]).id as int == s1[j].id implies rest[k].healthy
            == healthy by {
            assert(rest[k] == us[k + 1]);
        }
        lemma_run_isolation(s1, rest, j, healthy);
    } else {
        assert forall|k: int|
            0 <= k < rest.len() implies (#[trigger] rest[k]).id as int != s1[j].id by {}
        if us[0].id as int == s[j].id {
            assert(s1[j].status == Some(healthy));
        } else {
            let k = choose|k: int| 0 <= k < us.len() && (#[trigger] us[k]).id as int == s[j].id;
            assert(rest[k - 1] == us[k]);
            assert(false);
        }
        lemma_run_untouched(s1, rest, j);
    }
}

/// After one full cycle of a target's monitor loop, that target's
/// stored record has a non-null `last_checked` — the cycle's date — and
/// a `status` that is exactly the outcome of that probe.
pub proof fn lemma_cycle_is_recorded(
    s: Seq<TargetModel>,
    url: Seq<char>,
    response_code: Option<u16>,
    today: Date,
    j: int,
)
    requires
        0 <= j < s.len(),
        i32::MIN <= s[j].id <= i32::MAX,
    ensures
        ({
            let written = apply_update(s, cycle_spec(s[j].id, url, response_code, today).update);
            &&& written[j].last_checked == Some(today)
            &&& written[j].last_checked is Some
            &&& written[j].status == Some(classifies_healthy(response_code))
            &&& written[j].id == s[j].id
            &&& written[j].url == s[j].url
            &&& written[j].webhook == s[j].webhook
        }),
{
}

/// Writing one target's check outcome lands on every record with that
/// id: it records exactly the update's date and outcome there.
pub proof fn lemma_update_records(s: Seq<TargetModel>, u: CheckUpdate, j: int)
    requires
        0 <= j < s.len(),
        s[j].id == u.id as int,
    ensures
        apply_update(s, u)[j].last_checked == Some(u.date),
        apply_update(s, u)[j].status == Some(u.healthy),
        apply_update(s, u)[j].id == s[j].id,
        apply_update(s, u)[j].url == s[j].url,
        apply_update(s, u)[j].webhook == s[j].webhook,
{
}

} // verus!
