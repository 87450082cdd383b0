//! Atoms: interned names.
//!
//! An atom is a small value type wrapping the numeric identifier the server
//! assigned to a name, plus a back-reference to the display the identifier
//! belongs to.  Atoms are not owned and are never freed individually.
//!
//! `XAtomRegistry` is a verified model of the server-side intern table the
//! codec relies on: names map to identifiers one-to-one for the lifetime of
//! a connection, identifiers start at 1, and 0 means "no atom".

use crate::buf::{compare_bytes, copy_bytes};
use crate::display::XDisplay;
use vstd::prelude::*;

verus! {

/// A numeric atom identifier paired with the display it belongs to.
#[derive(Debug, Copy, Clone)]
pub struct XAtom<'a> {
    /// The numeric identifier; never 0 for a real atom.
    pub handle: u64,
    /// The display the identifier was interned on.
    pub display: &'a XDisplay,
}

impl<'a> XAtom<'a> {
    /// Wraps an existing numeric atom identifier.
    pub fn new(handle: u64, display: &'a XDisplay) -> (r: Self)
        ensures
            r.handle == handle,
            r.display == display,
    {
        XAtom { handle, display }
    }

    /// Retrieves the underlying numeric atom identifier.
    pub fn handle(&self) -> (r: u64)
        ensures
            r == self.handle,
    {
        self.handle
    }
}

/// A model of the server's intern table: position `i` of the table holds
/// the name of the atom with identifier `i + 1`.
pub struct XAtomRegistry {
    names: Vec<Vec<u8>>,
}

impl XAtomRegistry {
    /// The names interned so far, in order of interning; the atom with
    /// identifier `i + 1` has the name at position `i`.
    pub closed spec fn names(&self) -> Seq<Seq<u8>> {
        Seq::new(self.names@.len(), |i: int| self.names@[i]@)
    }

    /// No name is interned twice, no name holds an embedded nul byte, and
    /// the table is small enough that every identifier fits.
    pub closed spec fn wf(&self) -> bool {
        &&& forall|i: int, j: int|
            0 <= i < j < self.names().len() ==> self.names()[i] != self.names()[j]
        &&& forall|i: int, k: int|
            0 <= i < self.names().len() && 0 <= k < self.names()[i].len()
                ==> self.names()[i][k] != 0
        &&& self.names().len() < u64::MAX
    }

    /// An empty intern table.
    pub fn new() -> (r: Self)
        ensures
            r.wf(),
            r.names() =~= Seq::<Seq<u8>>::empty(),
    {
        XAtomRegistry { names: Vec::new() }
    }

    /// How many atoms exist.
    pub fn len(&self) -> (r: usize)
        ensures
            r == self.names().len(),
    {
        self.names.len()
    }

    /// The identifier of the interned name, if the name is interned.
    pub closed spec fn spec_find(&self, name: Seq<u8>) -> Option<u64> {
        if exists|i: int| 0 <= i < self.names().len() && self.names()[i] == name {
            let i = choose|i: int| 0 <= i < self.names().len() && self.names()[i] == name;
            Some((i + 1) as u64)
        } else {
            None
        }
    }

    /// Looks a name up, returning its identifier when it is interned.
    pub fn find(&self, name: &Vec<u8>) -> (r: Option<u64>)
        requires
            self.wf(),
        ensures
            r == self.spec_find(name@),
            r matches Some(id) ==> 1 <= id <= self.names().len()
                && self.names()[id - 1] == name@,
            r is None ==> forall|i: int|
                0 <= i < self.names().len() ==> self.names()[i] != name@,
    {
        let n = self.names.len();
        let mut i: usize = 0;
        while i < n
            invariant
                n == self.names().len(),
                0 <= i <= n,
                self.wf(),
                forall|j: int| 0 <= j < i ==> self.names()[j] != name@,
            decreases n - i,
        {
            if compare_bytes(&self.names[i], name) {
                assert(self.names()[i as int] == name@);
                return Some((i as u64) + 1);
            }
            assert(self.names()[i as int] != name@);
            i = i + 1;
        }
        assert(forall|j: int| 0 <= j < self.names().len() ==> self.names()[j] != name@);
        None
    }

    /// Interns a name.  When the name is already interned its existing
    /// identifier is returned; when it is not and `create` is set, the name
    /// is appended and the fresh identifier returned; otherwise nothing is
    /// returned and the table is unchanged.  Identifiers are never 0.
    ///
    /// Names with embedded nul bytes are ruled out up front: the wire
    /// format carries names nul-terminated, so such a name is a coding
    /// mistake, not a runtime condition.
    pub fn intern(&mut self, name: &Vec<u8>, create: bool) -> (r: Option<u64>)
        requires
            old(self).wf(),
            old(self).names().len() + 1 < u64::MAX,
            forall|k: int| 0 <= k < name@.len() ==> name@[k] != 0,
        ensures
            final(self).wf(),
            old(self).spec_find(name@) matches Some(id) ==> {
                &&& r == Some(id)
                &&& final(self).names() == old(self).names()
            },
            old(self).spec_find(name@) is None && !create ==> {
                &&& r is None
                &&& final(self).names() == old(self).names()
            },
            old(self).spec_find(name@) is None && create ==> {
                &&& r == Some((old(self).names().len() + 1) as u64)
                &&& final(self).names() =~= old(self).names().push(name@)
            },
            r matches Some(id) ==> 1 <= id <= final(self).names().len()
                && final(self).names()[id - 1] == name@,
    {
        let found = self.find(name);
        match found {
            Some(id) => Some(id),
            None => {
                if create {
                    let id = (self.names.len() as u64) + 1;
                    let copy = copy_bytes(name);
                    self.names.push(copy);
                    assert(self.names() =~= old(self).names().push(name@));
                    assert(self.names()[id - 1] == name@);
                    assert forall|i: int, j: int|
                        0 <= i < j < self.names().len() implies self.names()[i]
                        != self.names()[j] by {
                        if j == self.names().len() - 1 {
                            assert(old(self).names()[i] != name@);
                        }
                    }
                    Some(id)
                } else {
                    None
                }
            },
        }
    }

    /// Resolves an identifier back to the interned name, when there is one.
    pub fn resolve(&self, id: u64) -> (r: Option<Vec<u8>>)
        requires
            self.wf(),
        ensures
            1 <= id <= self.names().len() ==> (r matches Some(name)
                && name@ == self.names()[id - 1]),
            !(1 <= id <= self.names().len()) ==> r is None,
    {
        if id >= 1 && id <= self.names.len() as u64 {
            let idx = (id - 1) as usize;
            Some(copy_bytes(&self.names[idx]))
        } else {
            None
        }
    }
}

/// The intern table is a bijection between interned names and their
/// identifiers: interning a name and resolving the returned identifier
/// gives the original name back, and distinct identifiers always resolve
/// to distinct names.
pub proof fn lemma_atom_round_trip(registry: XAtomRegistry, name: Seq<u8>)
    requires
        registry.wf(),
    ensures
        registry.spec_find(name) matches Some(id)
            ==> 1 <= id <= registry.names().len() && registry.names()[id - 1] == name,
        forall|i: int, j: int|
            0 <= i < j < registry.names().len()
                ==> registry.names()[i] != registry.names()[j],
{
}

} // verus!
