//! The ROM registry: the session-wide mapping from virtual file name to
//! patch header. It is populated once, before the engine starts serving,
//! and only read afterwards.

use vstd::prelude::*;

verus! {

use crate::attr::PatchHeader;
use crate::bytes::bytes_eq;

/// One registry entry: a virtual file name and its patch header.
#[derive(Debug)]
pub struct RegistryEntry {
    pub name: Vec<u8>,
    pub header: PatchHeader,
}

/// The header registered under `name`, if any: the first entry whose name
/// matches. A well-formed registry has unique names, so at most one does.
pub open spec fn spec_lookup(entries: Seq<RegistryEntry>, name: Seq<u8>) -> Option<PatchHeader>
    decreases entries.len(),
{
    if entries.len() == 0 {
        None
    } else if entries[0].name@ == name {
        Some(entries[0].header)
    } else {
        spec_lookup(entries.skip(1), name)
    }
}

/// A lookup misses exactly when no entry bears the name.
pub proof fn lemma_lookup_none(entries: Seq<RegistryEntry>, name: Seq<u8>)
    ensures
        (spec_lookup(entries, name) is None) <==> (forall|i: int|
            0 <= i < entries.len() ==> entries[i].name@ != name),
    decreases entries.len(),
{
    if entries.len() > 0 {
        lemma_lookup_none(entries.skip(1), name);
        if entries[0].name@ != name && spec_lookup(entries.skip(1), name) is None {
            assert forall|i: int| 0 <= i < entries.len() implies entries[i].name@ != name by {
                if i > 0 {
                    assert(entries.skip(1)[i - 1].name@ != name);
                }
            }
        }
        if spec_lookup(entries.skip(1), name) is Some {
            let j = choose|j: int|
                0 <= j < entries.skip(1).len() && entries.skip(1)[j].name@ == name;
            assert(entries[j + 1].name@ == name);
        }
    }
}

/// Names are pairwise distinct.
pub open spec fn names_unique(entries: Seq<RegistryEntry>) -> bool {
    forall|i: int, j: int|
        0 <= i < j < entries.len() ==> entries[i].name@ != entries[j].name@
}

/// The registry of virtual ROMs.
pub struct Registry {
    entries: Vec<RegistryEntry>,
}

impl Registry {
    /// The registered entries, in insertion order.
    pub closed spec fn entries(&self) -> Seq<RegistryEntry> {
        self.entries@
    }

    /// Well-formed: names are pairwise distinct.
    pub open spec fn wf(&self) -> bool {
        names_unique(self.entries())
    }

    /// The header registered under `name`, if any.
    pub open spec fn spec_get(&self, name: Seq<u8>) -> Option<PatchHeader> {
        spec_lookup(self.entries(), name)
    }

    /// An empty registry.
    pub fn new() -> (r: Registry)
        ensures
            r.wf(),
            r.entries() == Seq::<RegistryEntry>::empty(),
    {
        Registry { entries: Vec::new() }
    }

    /// The number of registered ROMs.
    pub fn len(&self) -> (n: usize)
        ensures
            n == self.entries().len(),
    {
        self.entries.len()
    }

    /// Registers `name` with its header. Names are unique: a name already
    /// present is refused and the registry is left unchanged.
    pub fn add(&mut self, name: Vec<u8>, header: PatchHeader) -> (added: bool)
        requires
            old(self).wf(),
        ensures
            final(self).wf(),
            added == (old(self).spec_get(name@) is None),
            added ==> final(self).entries() == old(self).entries().push(
                RegistryEntry { name, header },
            ),
            !added ==> *final(self) == *old(self),
    {
        let found = self.lookup(name.as_slice());
        if found.is_some() {
            return false;
        }
        proof {
            lemma_lookup_none(self.entries(), name@);
        }
        let ghost pre = self.entries();
        self.entries.push(RegistryEntry { name, header });
        proof {
            assert forall|i: int, j: int|
                0 <= i < j < self.entries().len() implies self.entries()[i].name@
                != self.entries()[j].name@ by {
                if j < pre.len() {
                    assert(pre[i].name@ != pre[j].name@);
                } else {
                    assert(self.entries()[j].name@ == name@);
                    assert(pre[i].name@ != name@);
                }
            }
        }
        true
    }

    /// The entry at position `i`, in insertion order.
    pub fn entry_at(&self, i: usize) -> (e: &RegistryEntry)
        requires
            i < self.entries().len(),
        ensures
            *e == self.entries()[i as int],
    {
        &self.entries[i]
    }

    /// Looks `name` up in the registry.
    pub fn lookup(&self, name: &[u8]) -> (r: Option<&PatchHeader>)
        ensures
            match r {
                Some(h) => self.spec_get(name@) == Some(*h),
                None => self.spec_get(name@) is None,
            },
    {
        let n = self.entries.len();
        let mut i: usize = 0;
        assert(self.entries().skip(0) =~= self.entries());
        while i < n
            invariant
                n == self.entries().len(),
                i <= n,
                spec_lookup(self.entries(), name@) == spec_lookup(
                    self.entries().skip(i as int),
                    name@,
                ),
            decreases n - i,
        {
            if bytes_eq(self.entries[i].name.as_slice(), name) {
                assert(self.entries().skip(i as int)[0] == self.entries()[i as int]);
                return Some(&self.entries[i].header);
            }
            assert(self.entries().skip(i as int).skip(1) =~= self.entries().skip(i as int + 1));
            assert(self.entries().skip(i as int)[0] == self.entries()[i as int]);
            i += 1;
        }
        assert(self.entries().skip(n as int) =~= Seq::<RegistryEntry>::empty());
        None
    }
}

} // verus!
