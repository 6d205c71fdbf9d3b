//! The runtime scope: a compiled expression and the current value of each
//! external input it needs.
use vstd::prelude::*;
use crate::compile::unset_slots;
use crate::entries::{
    entry_lookup, entry_map, find_entry, keys_distinct, lemma_lookup_distinct, lemma_lookup_some,
    lemma_lookup_update, name_set,
};
use crate::registry::Registry;
use crate::expr::{evaluate, node_deps, EvalError, Expr, Node};
use crate::value::{Literal, StaticExpr};

verus! {

/// A compiled expression with one slot per input it queries. A slot holds the
/// input's current value, or nothing while the host has not supplied it.
pub struct ScopeData {
    pub(crate) expr: Expr,
    pub(crate) dependencies: Vec<(String, Option<i64>)>,
}

impl ScopeData {
    /// The compiled expression.
    pub closed spec fn expression(&self) -> Node {
        self.expr@
    }

    /// The slots, by input name.
    pub closed spec fn slots(&self) -> Map<Seq<char>, Option<i64>> {
        entry_map(self.dependencies@)
    }

    /// One slot per input that the expression queries, and no other.
    pub closed spec fn wf(&self) -> bool {
        &&& keys_distinct(self.dependencies@)
        &&& self.slots().dom() == node_deps(self.expression())
    }

    /// Every slot holds a value.
    pub open spec fn ready(&self) -> bool {
        forall|k: Seq<char>| self.slots().contains_key(k) ==> (#[trigger] self.slots()[k]) is Some
    }

    /// What a run yields: nothing while a slot is unset, else the value of the
    /// expression on the slot values.
    pub open spec fn outcome(&self) -> Option<Result<Literal, EvalError>> {
        if self.ready() {
            Some(evaluate(self.expression(), self.slots()))
        } else {
            None
        }
    }

    /// A scope for `expr` with a slot for each input it queries, none of them set.
    pub fn new(expr: Expr) -> (r: ScopeData)
        ensures
            r.wf(),
            r.expression() == expr@,
            r.slots() == unset_slots(node_deps(expr@)),
    {
        let names = expr.deps();
        let mut dependencies: Vec<(String, Option<i64>)> = Vec::new();
        let mut i: usize = 0;
        while i < names.len()
            invariant
                i <= names.len(),
                dependencies@.len() == i,
                forall|j: int| 0 <= j < i ==> dependencies@[j] == (names@[j], None::<i64>),
            decreases names.len() - i,
        {
            dependencies.push((names[i].clone(), None));
            i = i + 1;
        }
        let r = ScopeData { expr, dependencies };
        proof {
            let s = r.dependencies@;
            assert(keys_distinct(s));
            assert forall|k: Seq<char>| #![auto] entry_lookup(s, k) == if name_set(names@).contains(k) {
                Some(None::<i64>)
            } else {
                None
            } by {
                lemma_lookup_some(s, k);
                if name_set(names@).contains(k) {
                    let j = choose|j: int| 0 <= j < names@.len() && names@[j]@ == k;
                    lemma_lookup_distinct(s, j);
                } else {
                    if entry_lookup(s, k) is Some {
                        let j = choose|j: int| 0 <= j < s.len() && s[j].0@ == k;
                        assert(names@[j]@ == k);
                    }
                }
            }
            assert(r.slots() =~= unset_slots(node_deps(expr@)));
            assert(r.slots().dom() =~= node_deps(expr@));
        }
        r
    }

    /// The current value of the input `id`: `None` when the scope has no such
    /// slot, `Some(None)` while the slot is unset.
    pub fn value_of(&self, id: &str) -> (r: Option<Option<i64>>)
        ensures
            r == (if self.slots().contains_key(id@) {
                Some(self.slots()[id@])
            } else {
                None
            }),
    {
        match find_entry(&self.dependencies, id) {
            Some(i) => Some(self.dependencies[i].1),
            None => None,
        }
    }
}

impl ScopeData {
    /// Whether the scope has a slot for the input `id`.
    pub fn has_dependency(&self, id: &str) -> (r: bool)
        ensures
            r == self.slots().contains_key(id@),
    {
        find_entry(&self.dependencies, id).is_some()
    }

    /// Sets the slot of the input `id` to `value`.
    pub fn set_dependency(&mut self, id: &str, value: i64)
        requires
            old(self).wf(),
            old(self).slots().contains_key(id@),
        ensures
            final(self).wf(),
            final(self).expression() == old(self).expression(),
            final(self).slots() == old(self).slots().insert(id@, Some(value)),
    {
        let ghost s = self.dependencies@;
        let i = match find_entry(&self.dependencies, id) {
            Some(i) => i,
            None => {
                return;
            },
        };
        let name = self.dependencies[i].0.clone();
        self.dependencies.set(i, (name, Some(value)));
        proof {
            assert(self.dependencies@ == s.update(i as int, (s[i as int].0, Some(value))));
            assert forall|k: Seq<char>| #![auto] entry_lookup(self.dependencies@, k) == if k == id@ {
                Some(Some(value))
            } else {
                entry_lookup(s, k)
            } by {
                lemma_lookup_update(s, i as int, Some(value), k);
            }
            assert(keys_distinct(self.dependencies@));
            assert(self.slots() =~= entry_map(s).insert(id@, Some(value)));
            assert(self.slots().dom() =~= entry_map(s).dom());
        }
    }

    /// Evaluates the expression once every slot holds a value; nothing before.
    pub fn run(&self) -> (r: Option<Result<StaticExpr, EvalError>>)
        requires
            self.wf(),
        ensures
            match r {
                None => self.outcome() is None,
                Some(Ok(v)) => self.outcome() == Some(Ok::<Literal, EvalError>(v@)),
                Some(Err(e)) => self.outcome() == Some(Err::<Literal, EvalError>(e)),
            },
    {
        let ghost s = self.dependencies@;
        let mut i: usize = 0;
        while i < self.dependencies.len()
            invariant
                i <= self.dependencies.len(),
                s == self.dependencies@,
                self.wf(),
                forall|j: int| 0 <= j < i ==> s[j].1 is Some,
            decreases self.dependencies.len() - i,
        {
            if self.dependencies[i].1.is_none() {
                proof {
                    lemma_lookup_distinct(s, i as int);
                    assert(self.slots().contains_key(s[i as int].0@));
                    assert(self.slots()[s[i as int].0@] is None);
                    assert(!self.ready());
                }
                return None;
            }
            i = i + 1;
        }
        proof {
            assert forall|k: Seq<char>| self.slots().contains_key(k) implies (#[trigger] self.slots()[k]) is Some by {
                lemma_lookup_some(s, k);
                let j = choose|j: int| 0 <= j < s.len() && s[j].0@ == k;
                lemma_lookup_distinct(s, j);
            }
        }
        Some(self.expr.run(self))
    }

    /// `v` pairs each input of the scope, and no other name, with its
    /// descriptor in `registry`.
    pub open spec fn described_by<D>(&self, registry: &Registry<D>, v: Seq<(String, &D)>) -> bool {
        &&& forall|k: Seq<char>|
            self.slots().contains_key(k) <==> exists|j: int| 0 <= j < v.len() && (#[trigger] v[j]).0@ == k
        &&& forall|j: int|
            0 <= j < v.len() ==> registry.dependencies().contains_key((#[trigger] v[j]).0@) && *v[j].1
                == registry.dependencies()[v[j].0@]
    }

    /// The host's descriptor of each input that the scope queries, or the
    /// name of an input that `registry` does not describe.
    pub fn dependency_descriptors<'a, D>(&self, registry: &'a Registry<D>) -> (r: Result<
        Vec<(String, &'a D)>,
        String,
    >)
        requires
            self.wf(),
        ensures
            match r {
                Ok(v) => self.described_by(registry, v@),
                Err(name) => self.slots().contains_key(name@) && !registry.dependencies().contains_key(
                    name@,
                ),
            },
    {
        let ghost s = self.dependencies@;
        let mut out: Vec<(String, &'a D)> = Vec::new();
        let mut i: usize = 0;
        while i < self.dependencies.len()
            invariant
                i <= self.dependencies.len(),
                s == self.dependencies@,
                self.wf(),
                out@.len() == i,
                forall|j: int| 0 <= j < i ==> (#[trigger] out@[j]).0@ == s[j].0@,
                forall|j: int|
                    0 <= j < i ==> registry.dependencies().contains_key((#[trigger] out@[j]).0@)
                        && *out@[j].1 == registry.dependencies()[out@[j].0@],
            decreases self.dependencies.len() - i,
        {
            let name = &self.dependencies[i].0;
            match registry.lookup_dependency(name.as_str()) {
                Some(d) => {
                    out.push((name.clone(), d));
                },
                None => {
                    proof {
                        lemma_lookup_distinct(s, i as int);
                    }
                    return Err(name.clone());
                },
            }
            i = i + 1;
        }
        proof {
            assert forall|k: Seq<char>| self.slots().contains_key(k) <==> exists|j: int|
                0 <= j < out@.len() && (#[trigger] out@[j]).0@ == k by {
                lemma_lookup_some(s, k);
                if self.slots().contains_key(k) {
                    let j = choose|j: int| 0 <= j < s.len() && s[j].0@ == k;
                    assert(out@[j].0@ == k);
                }
                if exists|j: int| 0 <= j < out@.len() && (#[trigger] out@[j]).0@ == k {
                    let j = choose|j: int| 0 <= j < out@.len() && (#[trigger] out@[j]).0@ == k;
                    assert(s[j].0@ == k);
                }
            }
        }
        Ok(out)
    }
}

/// A scope with an unset slot yields nothing; once every slot is set it
/// yields a result, and scopes with the same expression and the same slot
/// values yield the same result.
pub proof fn law_gated_evaluation(a: &ScopeData, b: &ScopeData)
    requires
        a.wf(),
        b.wf(),
    ensures
        (exists|k: Seq<char>| a.slots().contains_key(k) && (#[trigger] a.slots()[k]) is None)
            ==> a.outcome() is None,
        (forall|k: Seq<char>| a.slots().contains_key(k) ==> (#[trigger] a.slots()[k]) is Some)
            ==> a.outcome() is Some,
        a.expression() == b.expression() && a.slots() == b.slots() ==> a.outcome() == b.outcome(),
{
}

} // verus!
