//! Snapshots ("forks") of a game session, kept by id.
use std::collections::HashMap;
use vstd::prelude::*;

verus! {

broadcast use vstd::std_specs::hash::group_hash_axioms;

/// Info about a saved fork/snapshot.
#[derive(Clone, Copy, Debug, PartialEq, Eq, Structural)]
pub struct ForkInfo {
    pub fork_id: u32,
    pub step: u64,
}

/// The error of an operation on a fork id that names no fork.
#[derive(Clone, Copy, Debug, PartialEq, Eq, Structural)]
pub enum ForkError {
    UnknownFork(u32),
}

/// The forks of a session: each id maps to the step its snapshot was taken
/// at and the snapshot. Ids are handed out from 1 upward and never reused.
#[derive(Debug)]
pub struct ForkRegistry<T> {
    forks: HashMap<u32, (u64, T)>,
    next_fork_id: u32,
}

/// The snapshot saved under `id` in `saved`, with its step, if any.
pub open spec fn spec_lookup<T>(saved: Map<u32, (u64, T)>, id: u32) -> Option<(u64, T)> {
    if saved.contains_key(id) {
        Some(saved[id])
    } else {
        None
    }
}

/// Every saved id lies in `1..next`.
pub open spec fn ids_below<T>(saved: Map<u32, (u64, T)>, next: u32) -> bool {
    forall|id: u32| #[trigger] saved.contains_key(id) ==> 1 <= id < next
}

impl<T> ForkRegistry<T> {
    /// The saved forks, by id.
    pub closed spec fn saved(&self) -> Map<u32, (u64, T)> {
        self.forks@
    }

    /// The id the next fork will get.
    pub closed spec fn next_id(&self) -> u32 {
        self.next_fork_id
    }

    /// Ids are below the next one, which is at least 1.
    pub closed spec fn wf(&self) -> bool {
        &&& 1 <= self.next_fork_id
        &&& ids_below(self.forks@, self.next_fork_id)
    }

    /// The snapshot saved under `id`, with its step.
    pub open spec fn lookup(&self, id: u32) -> Option<(u64, T)> {
        spec_lookup(self.saved(), id)
    }

    /// No forks; the first fork gets id 1.
    pub fn new() -> (r: Self)
        ensures
            r.wf(),
            r.saved() == Map::<u32, (u64, T)>::empty(),
            r.next_id() == 1,
    {
        ForkRegistry { forks: HashMap::new(), next_fork_id: 1 }
    }

    /// The id the next fork will get.
    pub fn next_fork_id(&self) -> (n: u32)
        ensures
            n == self.next_id(),
    {
        self.next_fork_id
    }

    /// Save a snapshot taken at `step`. Returns the fork ID.
    pub fn fork(&mut self, step: u64, snapshot: T) -> (id: u32)
        requires
            old(self).wf(),
            old(self).next_id() < u32::MAX,
        ensures
            final(self).wf(),
            id == old(self).next_id(),
            final(self).next_id() == id + 1,
            !old(self).saved().contains_key(id),
            final(self).saved() == old(self).saved().insert(id, (step, snapshot)),
    {
        let id = self.next_fork_id;
        self.next_fork_id = id + 1;
        self.forks.insert(id, (step, snapshot));
        id
    }

    /// The snapshot saved under `id`, if there is one. Getting it leaves it
    /// saved, so it can be restored again.
    pub fn get(&self, id: u32) -> (r: Option<&T>)
        requires
            self.wf(),
        ensures
            match r {
                Some(v) => self.lookup(id) matches Some((_, s)) && s == *v,
                None => self.lookup(id) is None,
            },
    {
        match self.forks.get(&id) {
            Some(entry) => Some(&entry.1),
            None => None,
        }
    }

    /// List all forks, by increasing id.
    pub fn list_forks(&self) -> (v: Vec<ForkInfo>)
        requires
            self.wf(),
        ensures
            forall|i: int|
                #![trigger v@[i]]
                0 <= i < v.len() ==> self.saved().contains_key(v@[i].fork_id) && self.saved()[v@[i].fork_id].0
                    == v@[i].step,
            forall|id: u32|
                #[trigger] self.saved().contains_key(id) ==> exists|i: int|
                    0 <= i < v.len() && #[trigger] v@[i].fork_id == id,
            forall|i: int, j: int| 0 <= i < j < v.len() ==> v@[i].fork_id < v@[j].fork_id,
    {
        let mut v: Vec<ForkInfo> = Vec::new();
        let mut id: u32 = 1;
        while id < self.next_fork_id
            invariant
                self.wf(),
                1 <= id <= self.next_fork_id,
                forall|i: int|
                    #![trigger v@[i]]
                    0 <= i < v.len() ==> self.forks@.contains_key(v@[i].fork_id)
                        && self.forks@[v@[i].fork_id].0 == v@[i].step && v@[i].fork_id < id,
                forall|k: u32|
                    #[trigger] self.forks@.contains_key(k) && k < id ==> exists|i: int|
                        0 <= i < v.len() && #[trigger] v@[i].fork_id == k,
                forall|i: int, j: int| 0 <= i < j < v.len() ==> v@[i].fork_id < v@[j].fork_id,
            decreases self.next_fork_id - id,
        {
            match self.forks.get(&id) {
                Some(entry) => {
                    let ghost before = v@;
                    v.push(ForkInfo { fork_id: id, step: entry.0 });
                    proof {
                        assert forall|i: int| 0 <= i < before.len() implies #[trigger] v@[i] == before[i] by {}
                        assert forall|a: int, b: int| 0 <= a < b < v.len() implies v@[a].fork_id < v@[b].fork_id by {
                            assert(v@[a] == before[a] || a == before.len());
                            if b == before.len() {
                                assert(before[a].fork_id < id);
                            } else {
                                assert(v@[b] == before[b]);
                            }
                        }
                        assert forall|k: u32|
                            #[trigger] self.forks@.contains_key(k) && k < id + 1 implies exists|i: int|
                            0 <= i < v.len() && #[trigger] v@[i].fork_id == k by {
                            if k < id {
                                let i = choose|i: int| 0 <= i < before.len() && #[trigger] before[i].fork_id == k;
                                assert(v@[i] == before[i]);
                            } else {
                                assert(v@[before.len() as int].fork_id == k);
                            }
                        }
                    }
                },
                None => {},
            }
            id += 1;
        }
        v
    }

    /// Delete a fork.
    pub fn kill_fork(&mut self, fork_id: u32) -> (r: Result<(), ForkError>)
        requires
            old(self).wf(),
        ensures
            final(self).wf(),
            final(self).next_id() == old(self).next_id(),
            r is Ok <==> old(self).lookup(fork_id) is Some,
            r matches Err(e) ==> e == ForkError::UnknownFork(fork_id),
            final(self).saved() == old(self).saved().remove(fork_id),
    {
        match self.forks.remove(&fork_id) {
            Some(_) => Ok(()),
            None => {
                assert(self.forks@ =~= old(self).forks@);
                Err(ForkError::UnknownFork(fork_id))
            },
        }
    }
}

// ---------------------------------------------------------------------------
// Laws of the fork registry.
/// A new fork gets an id no saved fork has, and reading it back gives the
/// snapshot just saved; every other id reads as before.
pub proof fn law_fork_then_lookup<T>(saved: Map<u32, (u64, T)>, next: u32, step: u64, snapshot: T, other: u32)
    requires
        ids_below(saved, next),
        other != next,
    ensures
        spec_lookup(saved, next) is None,
        spec_lookup(saved.insert(next, (step, snapshot)), next) == Some((step, snapshot)),
        spec_lookup(saved.insert(next, (step, snapshot)), other) == spec_lookup(saved, other),
{
}

/// Deleting a fork makes its id unknown and leaves every other fork as it was.
pub proof fn law_kill_then_lookup<T>(saved: Map<u32, (u64, T)>, id: u32, other: u32)
    requires
        other != id,
    ensures
        spec_lookup(saved.remove(id), id) is None,
        spec_lookup(saved.remove(id), other) == spec_lookup(saved, other),
{
}

/// The number of forks in a history of registry operations (`true` for a
/// fork, `false` for a deletion).
pub open spec fn forks_made(ops: Seq<bool>) -> nat
    decreases ops.len(),
{
    if ops.len() == 0 {
        0
    } else {
        forks_made(ops.drop_last()) + if ops.last() {
            1nat
        } else {
            0nat
        }
    }
}

/// `after` is `before` changed as `fork` (when `is_fork`) or `kill_fork`
/// changes a registry: a fork saves a snapshot under the next id and raises
/// the next id by one; a deletion leaves the next id alone.
pub open spec fn registry_step<T>(before: ForkRegistry<T>, is_fork: bool, after: ForkRegistry<T>) -> bool {
    if is_fork {
        &&& after.next_id() == before.next_id() + 1
        &&& after.saved().contains_key(before.next_id())
        &&& !before.saved().contains_key(before.next_id())
    } else {
        after.next_id() == before.next_id()
    }
}

/// Fork ids count up from 1: along any history of forks and deletions from
/// a new registry, the next id is one more than the number of forks made so
/// far, so the k-th fork gets id k, and a fork never gets an id that an
/// earlier fork got.
pub proof fn law_fork_ids_count_from_one<T>(rs: Seq<ForkRegistry<T>>, ops: Seq<bool>)
    requires
        rs.len() == ops.len() + 1,
        rs[0].next_id() == 1,
        forall|i: int| 0 <= i < ops.len() ==> #[trigger] registry_step(rs[i], ops[i], rs[i + 1]),
    ensures
        forall|i: int| 0 <= i <= ops.len() ==> #[trigger] rs[i].next_id() == 1 + forks_made(ops.take(i)),
        forall|i: int, j: int|
            0 <= i < j < ops.len() && ops[i] && ops[j] ==> #[trigger] rs[i].next_id() < #[trigger] rs[j].next_id(),
    decreases ops.len(),
{
    if ops.len() > 0 {
        let n = ops.len() - 1;
        law_fork_ids_count_from_one(rs.take(n + 1), ops.take(n));
        assert forall|i: int| 0 <= i <= ops.len() implies #[trigger] rs[i].next_id() == 1 + forks_made(
            ops.take(i),
        ) by {
            if i <= n {
                assert(rs.take(n + 1)[i] == rs[i]);
                assert(ops.take(n).take(i) =~= ops.take(i));
            } else {
                assert(rs.take(n + 1)[n] == rs[n]);
                assert(ops.take(n).take(n) =~= ops.take(n));
                assert(ops.take(i).drop_last() =~= ops.take(n));
                assert(registry_step(rs[n], ops[n], rs[n + 1]));
            }
        }
        assert forall|i: int, j: int|
            0 <= i < j < ops.len() && ops[i] && ops[j] implies #[trigger] rs[i].next_id()
            < #[trigger] rs[j].next_id() by {
            lemma_next_id_grows(rs, ops, i, j);
        }
    }
}

/// Along a history, the next id never goes down, and goes up at a fork.
proof fn lemma_next_id_grows<T>(rs: Seq<ForkRegistry<T>>, ops: Seq<bool>, i: int, j: int)
    requires
        rs.len() == ops.len() + 1,
        forall|k: int| 0 <= k < ops.len() ==> #[trigger] registry_step(rs[k], ops[k], rs[k + 1]),
        0 <= i < j <= ops.len(),
    ensures
        rs[i].next_id() <= rs[j].next_id(),
        ops[i] ==> rs[i].next_id() < rs[j].next_id(),
    decreases j - i,
{
    assert(registry_step(rs[i], ops[i], rs[i + 1]));
    if i + 1 < j {
        lemma_next_id_grows(rs, ops, i + 1, j);
    }
}

} // verus!
