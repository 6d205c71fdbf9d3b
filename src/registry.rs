//! The catalog of function builders and external inputs, by identifier.
use vstd::prelude::*;
use crate::entries::{entry_map, find_entry, lemma_map_push};
use crate::function::FunctionBuilder;

verus! {

/// Maps identifiers to function builders, and names of external inputs to
/// the host's descriptors of them. A later registration under an identifier
/// replaces an earlier one.
pub struct Registry<D> {
    fns: Vec<(String, FunctionBuilder)>,
    deps: Vec<(String, D)>,
}

impl<D> Registry<D> {
    /// The registered function builders.
    pub closed spec fn functions(&self) -> Map<Seq<char>, FunctionBuilder> {
        entry_map(self.fns@)
    }

    /// The registered input descriptors.
    pub closed spec fn dependencies(&self) -> Map<Seq<char>, D> {
        entry_map(self.deps@)
    }

    /// A registry with nothing registered.
    pub fn new() -> (r: Self)
        ensures
            r.functions() == Map::<Seq<char>, FunctionBuilder>::empty(),
            r.dependencies() == Map::<Seq<char>, D>::empty(),
    {
        let r = Registry { fns: Vec::new(), deps: Vec::new() };
        assert(r.functions() =~= Map::<Seq<char>, FunctionBuilder>::empty());
        assert(r.dependencies() =~= Map::<Seq<char>, D>::empty());
        r
    }

    /// Registers `builder` under `id`, replacing any earlier registration.
    pub fn add_function(&mut self, id: &str, builder: FunctionBuilder)
        ensures
            final(self).functions() == old(self).functions().insert(id@, builder),
            final(self).dependencies() == old(self).dependencies(),
    {
        let entry = (id.to_owned(), builder);
        proof {
            lemma_map_push(self.fns@, entry);
        }
        self.fns.push(entry);
    }

    /// Registers the input descriptor `descriptor` under `id`, replacing any
    /// earlier registration.
    pub fn add_dependency(&mut self, id: &str, descriptor: D)
        ensures
            final(self).dependencies() == old(self).dependencies().insert(id@, descriptor),
            final(self).functions() == old(self).functions(),
    {
        let entry = (id.to_owned(), descriptor);
        proof {
            lemma_map_push(self.deps@, entry);
        }
        self.deps.push(entry);
    }

    /// The builder registered under `id`.
    pub fn lookup_function(&self, id: &str) -> (r: Option<FunctionBuilder>)
        ensures
            r == (if self.functions().contains_key(id@) {
                Some(self.functions()[id@])
            } else {
                None
            }),
    {
        match find_entry(&self.fns, id) {
            Some(i) => Some(self.fns[i].1),
            None => None,
        }
    }

    /// The input descriptor registered under `id`.
    pub fn lookup_dependency(&self, id: &str) -> (r: Option<&D>)
        ensures
            match r {
                Some(d) => self.dependencies().contains_key(id@) && *d == self.dependencies()[id@],
                None => !self.dependencies().contains_key(id@),
            },
    {
        match find_entry(&self.deps, id) {
            Some(i) => Some(&self.deps[i].1),
            None => None,
        }
    }
}

} // verus!
