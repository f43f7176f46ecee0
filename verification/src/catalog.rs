//! A name-keyed registry of table providers.
//!
//! The orchestrator registers each materialized table under a fixed name in a
//! session-wide registry: a thread-safe, name-keyed namespace with insert and
//! lookup, injected as an explicit collaborator. Entries are added once and
//! never removed here; a second registration under an existing name is a
//! conflict, not an overwrite.

use vstd::prelude::*;

use crate::args::TpchError;
use crate::provider::TpchTableProvider;

verus! {

/// A name-keyed registry of providers, in registration order.
pub struct Catalog {
    /// The registered entries, oldest first. Names are unique.
    pub entries: Vec<(String, TpchTableProvider)>,
}

impl Catalog {
    /// The registered names, in registration order.
    pub open spec fn names(&self) -> Seq<Seq<char>> {
        self.entries@.map_values(|e: (String, TpchTableProvider)| e.0@)
    }

    /// Whether some entry is registered under the given name.
    pub open spec fn has_name(&self, n: Seq<char>) -> bool {
        exists|i: int| 0 <= i < self.entries@.len() && self.entries@[i].0@ == n
    }

    /// No two entries share a name.
    pub open spec fn wf(&self) -> bool {
        forall|i: int, j: int|
            0 <= i < j < self.entries@.len() ==> self.entries@[i].0@ != self.entries@[j].0@
    }

    /// An empty catalog.
    pub fn new() -> (r: Catalog)
        ensures
            r.entries@.len() == 0,
            r.wf(),
    {
        Catalog { entries: Vec::new() }
    }

    /// The number of registered entries.
    pub fn len(&self) -> (r: usize)
        ensures
            r == self.entries@.len(),
    {
        self.entries.len()
    }

    /// Whether a table is registered under the given name.
    pub fn table_exist(&self, name: &String) -> (b: bool)
        ensures
            b == self.has_name(name@),
    {
        let mut i: usize = 0;
        while i < self.entries.len()
            invariant
                i <= self.entries@.len(),
                forall|k: int| 0 <= k < i ==> self.entries@[k].0@ != name@,
            decreases self.entries@.len() - i,
        {
            let e = &self.entries[i];
            if e.0.eq(name) {
                return true;
            }
            i += 1;
        }
        false
    }

    /// The provider registered under the given name, if any.
    pub fn lookup(&self, name: &String) -> (r: Option<&TpchTableProvider>)
        ensures
            r is Some <==> self.has_name(name@),
            r matches Some(p) ==> exists|i: int|
                0 <= i < self.entries@.len() && self.entries@[i].0@ == name@ && *p == self.entries@[
                    i
                ].1,
    {
        let mut i: usize = 0;
        while i < self.entries.len()
            invariant
                i <= self.entries@.len(),
                forall|k: int| 0 <= k < i ==> self.entries@[k].0@ != name@,
            decreases self.entries@.len() - i,
        {
            let e = &self.entries[i];
            if e.0.eq(name) {
                return Some(&e.1);
            }
            i += 1;
        }
        None
    }

    /// A name is registered exactly when it occurs in the name list.
    pub proof fn lemma_has_name_is_membership(self, n: Seq<char>)
        ensures
            self.has_name(n) <==> self.names().contains(n),
    {
        if self.has_name(n) {
            let i = choose|i: int|
                0 <= i < self.entries@.len() && self.entries@[i].0@ == n;
            assert(self.names()[i] == n);
        }
        if self.names().contains(n) {
            let i = choose|i: int| 0 <= i < self.names().len() && self.names()[i] == n;
            assert(self.entries@[i].0@ == n);
        }
    }

    /// Registers a provider under a name. Fails, leaving the catalog
    /// unchanged, exactly when the name is already taken: an accepted
    /// registration appends the entry, and uniqueness of names is preserved.
    pub fn register(&mut self, name: String, table: TpchTableProvider) -> (r: Result<
        (),
        TpchError,
    >)
        ensures
            r is Ok <==> !old(self).has_name(name@),
            r is Ok ==> final(self).entries@ == old(self).entries@.push((name, table)),
            r is Err ==> final(self).entries@ == old(self).entries@,
            old(self).wf() ==> final(self).wf(),
    {
        if self.table_exist(&name) {
            Err(TpchError::Collaborator("a table with this name is already registered".to_owned()))
        } else {
            let ghost pre = self.entries@;
            self.entries.push((name, table));
            proof {
                if old(self).wf() {
                    assert forall|i: int, j: int|
                        0 <= i < j < self.entries@.len() implies self.entries@[i].0@
                        != self.entries@[j].0@ by {
                        if j < pre.len() {
                        } else {
                            assert(self.entries@[j].0@ == name@);
                            assert(!old(self).has_name(name@));
                        }
                    }
                }
            }
            Ok(())
        }
    }
}

} // verus!
