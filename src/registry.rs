//! The registry of mutations found by a transformation pass, and the
//! identifier blocks handed out for them.
use vstd::prelude::*;

verus! {

/// A position in a source file.
#[derive(PartialEq, Eq, Structural, Clone, Copy, Debug)]
pub struct SourceLocation {
    pub line: usize,
    pub column: usize,
}

/// What the transformation pass knows of the place it is rewriting.
pub struct TransformContext {
    pub fn_name: String,
}

/// One registered mutation: where it is, which family it belongs to, and
/// which operator it replaces by which.
pub struct Mutation {
    pub fn_name: String,
    pub mutator: String,
    pub original: String,
    pub mutation: String,
    pub location: SourceLocation,
}

impl Mutation {
    /// Builds a record from its parts.
    pub fn new_located(
        fn_name: String,
        mutator: String,
        original: String,
        mutation: String,
        location: SourceLocation,
    ) -> (r: Mutation)
        ensures
            r.fn_name@ == fn_name@,
            r.mutator@ == mutator@,
            r.original@ == original@,
            r.mutation@ == mutation@,
            r.location == location,
    {
        Mutation { fn_name, mutator, original, mutation, location }
    }
}

/// Every mutation registered so far. The mutation at position `i` has the
/// identifier `i + 1`; identifiers are never reused and entries never change.
pub struct MutationRegistry {
    pub mutations: Vec<Mutation>,
}

/// The identifier of the entry at position `i`.
pub open spec fn id_of(i: int) -> int {
    i + 1
}

impl MutationRegistry {
    /// An empty registry; the first block it hands out starts at 1.
    pub fn new() -> (r: Self)
        ensures
            r.mutations@.len() == 0,
    {
        MutationRegistry { mutations: Vec::new() }
    }

    /// The number of registered mutations, which is also the last identifier used.
    pub fn len(&self) -> (r: usize)
        ensures
            r == self.mutations@.len(),
    {
        self.mutations.len()
    }

    /// Reserves a block of identifiers, one for each entry and in their order,
    /// stores the entries under them, and returns the first identifier.
    pub fn add_mutations(&mut self, entries: Vec<Mutation>) -> (r: usize)
        requires
            old(self).mutations@.len() + entries@.len() < usize::MAX,
        ensures
            r == id_of(old(self).mutations@.len() as int),
            final(self).mutations@ == old(self).mutations@ + entries@,
    {
        let base = self.mutations.len() + 1;
        let mut entries = entries;
        self.mutations.append(&mut entries);
        base
    }

    /// The mutation registered under `id`, if any.
    pub fn get(&self, id: usize) -> (r: Option<&Mutation>)
        ensures
            1 <= id <= self.mutations@.len() ==> r == Some(&self.mutations@[id - 1]),
            !(1 <= id <= self.mutations@.len()) ==> r is None,
    {
        if id >= 1 && id <= self.mutations.len() {
            Some(&self.mutations[id - 1])
        } else {
            None
        }
    }
}

} // verus!
