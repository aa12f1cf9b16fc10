//! The guest VM handle as this library sees it: an interned-symbol table and
//! a table of defined classes, each class knowing its superclass.
use vstd::prelude::*;

use crate::text::{bytes_eq, copy_bytes};

verus! {

/// An interned symbol: an index into the VM's symbol table.
pub type Sym = usize;

/// An opaque reference to a class defined in the guest VM.
#[derive(Clone, Copy, Debug, PartialEq, Eq, Structural)]
pub struct ClassHandle {
    pub index: usize,
}

/// A class as the guest VM holds it.
pub struct GuestClass {
    pub name: Vec<u8>,
    pub superclass: Option<ClassHandle>,
}

/// The guest VM state that the host side touches.
pub struct Vm {
    symbols: Vec<Vec<u8>>,
    classes: Vec<GuestClass>,
}

impl Vm {
    /// The interned names, indexed by symbol.
    pub closed spec fn symbol_table(&self) -> Seq<Seq<u8>> {
        self.symbols@.map_values(|v: Vec<u8>| v@)
    }

    /// The defined classes, indexed by handle: name and superclass.
    pub closed spec fn class_table(&self) -> Seq<(Seq<u8>, Option<ClassHandle>)> {
        self.classes@.map_values(|c: GuestClass| (c.name@, c.superclass))
    }

    /// No name is interned twice.
    pub open spec fn wf(&self) -> bool {
        forall|i: int, j: int|
            0 <= i < self.symbol_table().len() && 0 <= j < self.symbol_table().len() && i != j
                ==> self.symbol_table()[i] != self.symbol_table()[j]
    }

    /// Whether `h` names a class of this VM.
    pub open spec fn has_class(&self, h: ClassHandle) -> bool {
        h.index < self.class_table().len()
    }

    /// The superclass recorded for `h`.
    pub open spec fn spec_superclass(&self, h: ClassHandle) -> Option<ClassHandle> {
        self.class_table()[h.index as int].1
    }

    /// The name recorded for `h`.
    pub open spec fn spec_class_name(&self, h: ClassHandle) -> Seq<u8> {
        self.class_table()[h.index as int].0
    }

    /// A fresh VM with no symbols and no classes.
    pub fn new() -> (r: Vm)
        ensures
            r.wf(),
            r.symbol_table() == Seq::<Seq<u8>>::empty(),
            r.class_table() == Seq::<(Seq<u8>, Option<ClassHandle>)>::empty(),
    {
        let r = Vm { symbols: Vec::new(), classes: Vec::new() };
        assert(r.symbol_table() =~= Seq::<Seq<u8>>::empty());
        assert(r.class_table() =~= Seq::<(Seq<u8>, Option<ClassHandle>)>::empty());
        r
    }

    /// The VM's intern primitive: the symbol of `name`, added to the table
    /// when it is not there yet.
    pub fn intern(&mut self, name: &[u8]) -> (s: Sym)
        requires
            old(self).wf(),
        ensures
            final(self).wf(),
            s < final(self).symbol_table().len(),
            final(self).symbol_table()[s as int] == name@,
            old(self).symbol_table().contains(name@) ==> final(self).symbol_table() == old(
                self,
            ).symbol_table(),
            !old(self).symbol_table().contains(name@) ==> final(self).symbol_table() == old(
                self,
            ).symbol_table().push(name@) && s == old(self).symbol_table().len(),
            old(self).symbol_table().is_prefix_of(final(self).symbol_table()),
            final(self).class_table() == old(self).class_table(),
    {
        let mut i: usize = 0;
        while i < self.symbols.len()
            invariant
                *self == *old(self),
                self.wf(),
                i <= self.symbol_table().len(),
                self.symbols@.len() == self.symbol_table().len(),
                forall|j: int| 0 <= j < i ==> self.symbol_table()[j] != name@,
            decreases self.symbols@.len() - i,
        {
            if bytes_eq(self.symbols[i].as_slice(), name) {
                assert(self.symbol_table().is_prefix_of(self.symbol_table()));
                assert(self.symbol_table()[i as int] == name@);
                assert(self.symbol_table().contains(name@));
                return i;
            }
            i = i + 1;
        }
        let ghost before = self.symbol_table();
        let copy = copy_bytes(name);
        self.symbols.push(copy);
        assert(self.symbol_table() =~= before.push(name@));
        assert(self.class_table() =~= old(self).class_table());
        i
    }

    /// The name interned as `s`, if any.
    pub fn symbol_name(&self, s: Sym) -> (r: Option<&[u8]>)
        ensures
            s < self.symbol_table().len() ==> (r matches Some(n) && n@ == self.symbol_table()[s as int]),
            s >= self.symbol_table().len() ==> r is None,
    {
        if s < self.symbols.len() {
            Some(self.symbols[s].as_slice())
        } else {
            None
        }
    }

    /// Defines a new class named `name` under `superclass`.
    pub fn define_class(&mut self, name: &[u8], superclass: Option<ClassHandle>) -> (h: ClassHandle)
        requires
            old(self).wf(),
        ensures
            final(self).wf(),
            h.index == old(self).class_table().len(),
            final(self).class_table() == old(self).class_table().push((name@, superclass)),
            final(self).symbol_table() == old(self).symbol_table(),
    {
        let h = ClassHandle { index: self.classes.len() };
        let ghost before = self.class_table();
        let copy = copy_bytes(name);
        self.classes.push(GuestClass { name: copy, superclass });
        assert(self.class_table() =~= before.push((name@, superclass)));
        assert(self.symbol_table() =~= old(self).symbol_table());
        h
    }

    /// Number of defined classes.
    pub fn class_count(&self) -> (r: usize)
        ensures
            r == self.class_table().len(),
    {
        self.classes.len()
    }

    /// The superclass of `h`; `None` for a root class or an unknown handle.
    pub fn superclass(&self, h: ClassHandle) -> (r: Option<ClassHandle>)
        ensures
            r == (if self.has_class(h) { self.spec_superclass(h) } else { None }),
    {
        if h.index < self.classes.len() {
            self.classes[h.index].superclass
        } else {
            None
        }
    }

    /// The name of `h`, if it is a class of this VM.
    pub fn class_name(&self, h: ClassHandle) -> (r: Option<&[u8]>)
        ensures
            self.has_class(h) ==> (r matches Some(n) && n@ == self.spec_class_name(h)),
            !self.has_class(h) ==> r is None,
    {
        if h.index < self.classes.len() {
            Some(self.classes[h.index].name.as_slice())
        } else {
            None
        }
    }
}

} // verus!
