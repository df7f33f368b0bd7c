//! Runtime configuration for one test run: which mutation is active, and
//! which mutation sites have been reached.
use std::collections::HashSet;
use vstd::prelude::*;

verus! {

broadcast use vstd::std_specs::hash::group_hash_axioms;

/// The candidate that a site with identifiers `base .. base + candidates.len()`
/// runs when `active` is the active mutation, if any.
pub open spec fn select_spec<T>(active: Option<usize>, base: usize, candidates: Seq<T>) -> Option<T> {
    match active {
        Some(n) => if base <= n && n < base + candidates.len() {
            Some(candidates[n - base])
        } else {
            None
        },
        None => None,
    }
}

/// The active mutation of a run (fixed for the run), and the coverage map.
pub struct MutagenRuntimeConfig {
    pub mutation_id: Option<usize>,
    pub coverage: HashSet<usize>,
}

impl MutagenRuntimeConfig {
    /// A configuration in which no mutation is active and no site is reached yet.
    pub fn without_mutation() -> (r: Self)
        ensures
            r.mutation_id is None,
            r.coverage@ == Set::<usize>::empty(),
    {
        MutagenRuntimeConfig { mutation_id: None, coverage: HashSet::new() }
    }

    /// A configuration in which mutation `id` is active and no site is reached yet.
    pub fn with_mutation_id(id: usize) -> (r: Self)
        ensures
            r.mutation_id == Some(id),
            r.coverage@ == Set::<usize>::empty(),
    {
        MutagenRuntimeConfig { mutation_id: Some(id), coverage: HashSet::new() }
    }

    /// The active mutation, if any.
    pub fn mutation_id(&self) -> (r: Option<usize>)
        ensures
            r == self.mutation_id,
    {
        self.mutation_id
    }

    /// Records that the site with identifier `id` was reached.
    pub fn covered(&mut self, id: usize)
        ensures
            final(self).mutation_id == old(self).mutation_id,
            final(self).coverage@ == old(self).coverage@.insert(id),
    {
        self.coverage.insert(id);
    }

    /// Whether the site with identifier `id` has been reached in this run.
    pub fn is_covered(&self, id: usize) -> (r: bool)
        ensures
            r == self.coverage@.contains(id),
    {
        self.coverage.contains(&id)
    }

    /// The candidate that the site whose block starts at `mutator_id` must run,
    /// or `None` when the active mutation lies outside that block.
    pub fn get_mutation<T: Copy>(&self, mutator_id: usize, mutations: &Vec<T>) -> (r: Option<T>)
        ensures
            r == select_spec(self.mutation_id, mutator_id, mutations@),
    {
        match self.mutation_id {
            Some(n) => {
                if n < mutator_id {
                    None
                } else if n - mutator_id < mutations.len() {
                    Some(mutations[n - mutator_id])
                } else {
                    None
                }
            },
            None => None,
        }
    }
}

/// Coverage only grows: once `covered(id)` has run, `id` is reached, reaching it
/// again changes nothing, and every site reached before stays reached.
pub proof fn lemma_coverage_monotone(coverage: Set<usize>, id: usize, other: usize)
    ensures
        coverage.insert(id).contains(id),
        coverage.insert(id).insert(id) == coverage.insert(id),
        coverage.contains(other) ==> coverage.insert(id).contains(other),
{
    assert(coverage.insert(id).insert(id) =~= coverage.insert(id));
}

} // verus!
