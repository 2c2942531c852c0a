//! The capacity-bounded registry of jobs, keyed by job id.

use std::collections::HashMap;
use vstd::std_specs::hash::spec_keys_iter;
use vstd::std_specs::iter::IteratorSpec;
use vstd::prelude::*;
use vstd::set_lib::lemma_len_subset;

verus! {

broadcast use vstd::std_specs::hash::group_hash_axioms;

/// Why a new job could not be admitted.
#[derive(Clone, Copy, Debug, PartialEq, Eq, Structural)]
pub enum AdmissionError {
    /// As many jobs as the capacity allows are tracked already.
    CapacityExceeded,
    /// Every id below `u32::MAX` is in use.
    IdSpaceExhausted,
}

/// `id` is the lowest id below `u32::MAX` that `ids` does not hold.
pub open spec fn lowest_free(ids: Set<u32>, id: u32) -> bool {
    &&& id < u32::MAX
    &&& !ids.contains(id)
    &&& forall|j: u32| j < id ==> ids.contains(j)
}

/// The outcome of admitting one more job beside the jobs `ids`, with room for `cap` jobs.
pub open spec fn admission(ids: Set<u32>, cap: nat) -> Result<u32, AdmissionError> {
    if ids.len() >= cap {
        Err(AdmissionError::CapacityExceeded)
    } else if exists|id: u32| lowest_free(ids, id) {
        Ok(choose|id: u32| lowest_free(ids, id))
    } else {
        Err(AdmissionError::IdSpaceExhausted)
    }
}

/// At most one id is the lowest free one.
pub proof fn lemma_lowest_free_unique(ids: Set<u32>, a: u32, b: u32)
    requires
        lowest_free(ids, a),
        lowest_free(ids, b),
    ensures
        a == b,
{
    if a < b {
        assert(ids.contains(a));
    } else if b < a {
        assert(ids.contains(b));
    }
}

/// The set of ids below `k`.
pub open spec fn ids_below(k: nat) -> Set<u32> {
    Set::new(|j: u32| (j as nat) < k)
}

proof fn lemma_ids_below_len(k: nat)
    requires
        k <= u32::MAX as nat + 1,
    ensures
        ids_below(k).finite(),
        ids_below(k).len() == k,
    decreases k,
{
    if k == 0 {
        assert(ids_below(0) =~= Set::<u32>::empty());
    } else {
        lemma_ids_below_len((k - 1) as nat);
        let last = (k - 1) as u32;
        assert(ids_below(k) =~= ids_below((k - 1) as nat).insert(last));
    }
}

/// When no id is free at all, every id below `k` is taken.
proof fn lemma_all_taken_below(ids: Set<u32>, k: nat)
    requires
        k <= u32::MAX,
        !exists|id: u32| lowest_free(ids, id),
    ensures
        forall|j: u32| (j as nat) < k ==> ids.contains(j),
    decreases k,
{
    if k > 0 {
        lemma_all_taken_below(ids, (k - 1) as nat);
        let last = (k - 1) as u32;
        if !ids.contains(last) {
            assert(lowest_free(ids, last));
        }
    }
}

/// A finite set of fewer than `u32::MAX` ids leaves a lowest free id.
pub proof fn lemma_free_id_exists(ids: Set<u32>)
    requires
        ids.finite(),
        ids.len() < u32::MAX,
    ensures
        exists|id: u32| lowest_free(ids, id),
{
    if !exists|id: u32| lowest_free(ids, id) {
        let k = (ids.len() + 1) as nat;
        lemma_all_taken_below(ids, k);
        lemma_ids_below_len(k);
        assert(ids_below(k).subset_of(ids));
        lemma_len_subset(ids_below(k), ids);
    }
}

/// Jobs keyed by id, never more than the capacity given at construction.
pub struct Registry<T> {
    jobs: HashMap<u32, T>,
    capacity: usize,
}

impl<T> View for Registry<T> {
    type V = Map<u32, T>;

    closed spec fn view(&self) -> Map<u32, T> {
        self.jobs@
    }
}

impl<T> Registry<T> {
    /// How many jobs the registry admits at once.
    pub closed spec fn limit(&self) -> nat {
        self.capacity as nat
    }

    pub fn new(capacity: usize) -> (r: Registry<T>)
        ensures
            r@ == Map::<u32, T>::empty(),
            r.limit() == capacity,
    {
        Registry { jobs: HashMap::new(), capacity }
    }

    pub fn capacity(&self) -> (r: usize)
        ensures
            r == self.limit(),
    {
        self.capacity
    }

    /// The registry holds finitely many jobs.
    pub proof fn lemma_view_finite(&self)
        ensures
            self@.dom().finite(),
    {
    }

    /// Number of jobs tracked.
    pub fn len(&self) -> (r: usize)
        ensures
            r == self@.len(),
            self@.dom().finite(),
    {
        self.jobs.len()
    }

    pub fn contains(&self, id: u32) -> (r: bool)
        ensures
            r == self@.contains_key(id),
    {
        self.jobs.contains_key(&id)
    }

    /// The id a new job would get: the lowest id not in use, found by a
    /// scan from 0, unless the registry is full or no id is free.
    pub fn allocate_id(&self) -> (r: Result<u32, AdmissionError>)
        ensures
            r == admission(self@.dom(), self.limit()),
    {
        if self.jobs.len() >= self.capacity {
            return Err(AdmissionError::CapacityExceeded);
        }
        let mut id: u32 = 0;
        while id < u32::MAX
            invariant
                self@.dom().len() < self.limit(),
                forall|j: u32| j < id ==> self@.dom().contains(j),
            decreases u32::MAX - id,
        {
            if !self.jobs.contains_key(&id) {
                proof {
                    assert(lowest_free(self@.dom(), id));
                    let c = choose|x: u32| lowest_free(self@.dom(), x);
                    lemma_lowest_free_unique(self@.dom(), id, c);
                }
                return Ok(id);
            }
            id = id + 1;
        }
        Err(AdmissionError::IdSpaceExhausted)
    }

    /// Stores `job` under `id`, unless `id` is in use or the registry is
    /// full; then nothing changes and `job` is handed back.
    pub fn try_insert(&mut self, id: u32, job: T) -> (r: Result<(), T>)
        ensures
            old(self).limit() == final(self).limit(),
            (old(self)@.contains_key(id) || old(self)@.len() >= old(self).limit()) ==> (r == Err::<
                (),
                T,
            >(job) && final(self)@ == old(self)@),
            !(old(self)@.contains_key(id) || old(self)@.len() >= old(self).limit()) ==> (r is Ok
                && final(self)@ == old(self)@.insert(id, job)),
            old(self)@.len() <= old(self).limit() ==> final(self)@.len() <= final(self).limit(),
    {
        if self.jobs.contains_key(&id) || self.jobs.len() >= self.capacity {
            return Err(job);
        }
        let _ = self.jobs.insert(id, job);
        Ok(())
    }

    /// The job stored under `id`, if any.
    pub fn get(&self, id: u32) -> (r: Option<&T>)
        ensures
            match r {
                Some(v) => self@.contains_key(id) && *v == self@[id],
                None => !self@.contains_key(id),
            },
    {
        self.jobs.get(&id)
    }

    /// Takes the job stored under `id` out of the registry.
    pub fn remove(&mut self, id: u32) -> (r: Option<T>)
        ensures
            old(self).limit() == final(self).limit(),
            final(self)@ == old(self)@.remove(id),
            final(self)@.dom().finite(),
            final(self)@.len() <= old(self)@.len(),
            old(self)@.contains_key(id) ==> final(self)@.len() == old(self)@.len() - 1,
            match r {
                Some(v) => old(self)@.contains_key(id) && v == old(self)@[id],
                None => !old(self)@.contains_key(id),
            },
    {
        self.jobs.remove(&id)
    }

    /// The ids in use, each once, in the order the map walks them.
    pub fn ids(&self) -> (r: Vec<u32>)
        ensures
            r@.to_set() == self@.dom(),
            r@.no_duplicates(),
            r@.len() == self@.len(),
    {
        let ghost keys = spec_keys_iter(&self.jobs).remaining().unref();
        let mut out: Vec<u32> = Vec::new();
        for k in iter: self.jobs.keys()
            invariant
                iter.seq().unref() == keys,
                out@ == keys.take(iter.index() as int),
        {
            out.push(*k);
            assert(out@ =~= keys.take(iter.index() + 1));
        }
        assert(out@ =~= keys);
        out
    }
}

/// Admission for a registry holding the jobs `m` with room for `cap` jobs
/// (`cap` at most `u32::MAX`): a start succeeds while fewer than `cap`
/// jobs are tracked, the start beyond `cap` fails with `CapacityExceeded`,
/// and once a tracked job is removed a start succeeds again.
pub proof fn lemma_admission<T>(m: Map<u32, T>, cap: nat, removed: u32)
    requires
        m.dom().finite(),
        m.dom().len() <= cap,
        cap <= u32::MAX,
    ensures
        m.dom().len() < cap ==> admission(m.dom(), cap) is Ok,
        m.dom().len() == cap ==> admission(m.dom(), cap) == Err::<u32, AdmissionError>(
            AdmissionError::CapacityExceeded,
        ),
        m.dom().contains(removed) ==> admission(m.remove(removed).dom(), cap) is Ok,
{
    if m.dom().len() < cap {
        lemma_free_id_exists(m.dom());
    }
    if m.dom().contains(removed) {
        assert(m.remove(removed).dom() =~= m.dom().remove(removed));
        lemma_free_id_exists(m.remove(removed).dom());
    }
}

} // verus!
