//! A model of the foreign address space that handles point into.
//!
//! The handles in [`crate::reference_wrapper`] carry a bare address and never
//! own, allocate or free the memory behind it; that memory belongs to the
//! foreign side of the boundary. `ForeignMemory` stands for that side: an
//! address space holding values of a single pointee type, in which an address
//! is valid exactly when a cell has been allocated at it. Accesses through a
//! handle are resolved against a `ForeignMemory` passed in explicitly, which
//! is what lets the aliasing behaviour of the handles be stated and checked.

use vstd::prelude::*;

verus! {

/// The foreign side's storage for values of type `T`.
///
/// Addresses are handed out by [`ForeignMemory::allocate`] in increasing order,
/// starting at zero; an address is valid while it is below [`ForeignMemory::len`].
/// Nothing is ever freed: the component the handles model performs no
/// memory management at all, so the model does not either.
pub struct ForeignMemory<T> {
    cells: Vec<T>,
}

impl<T> View for ForeignMemory<T> {
    type V = Seq<T>;

    closed spec fn view(&self) -> Seq<T> {
        self.cells@
    }
}

impl<T> ForeignMemory<T> {
    /// An address space with nothing allocated yet.
    pub fn new() -> (r: Self)
        ensures
            r@ == Seq::<T>::empty(),
    {
        ForeignMemory { cells: Vec::new() }
    }

    /// Places `value` at a fresh address and returns that address.
    ///
    /// This stands for the trusted caller on the foreign side making an
    /// object available; every address a handle is constructed over is
    /// expected to have come from here.
    pub fn allocate(&mut self, value: T) -> (addr: usize)
        ensures
            addr == old(self)@.len(),
            final(self)@ == old(self)@.push(value),
    {
        let addr: usize = self.cells.len();
        self.cells.push(value);
        addr
    }

    /// How many cells have been allocated; addresses below this are valid.
    pub fn len(&self) -> (r: usize)
        ensures
            r == self@.len(),
    {
        self.cells.len()
    }

    /// A shared borrow of the cell at `addr`.
    pub fn borrow_at(&self, addr: usize) -> (r: &T)
        requires
            addr < self@.len(),
        ensures
            *r == self@[addr as int],
    {
        &self.cells[addr]
    }

    /// A mutable borrow of the cell at `addr`.
    pub fn borrow_mut_at(&mut self, addr: usize) -> (r: &mut T)
        requires
            addr < old(self)@.len(),
        ensures
            *r == old(self)@[addr as int],
            final(self)@ == old(self)@.update(addr as int, *final(r)),
    {
        &mut self.cells[addr]
    }
}

} // verus!
