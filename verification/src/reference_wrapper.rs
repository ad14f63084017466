//! The handle type itself: an address tagged, at the type level, with the
//! kind of access it grants.

use std::marker::PhantomData;
use vstd::prelude::*;
use crate::memory::ForeignMemory;

verus! {

/// The compile-time classification of a handle's access intent.
///
/// It is a closed family: exactly [`Const`] and [`Mut`] implement it. The
/// tag carries no data and exists only so that the type system can tell the
/// two handle flavours apart and gate the mutating operation.
pub trait CppRefMutability {}

/// The tag of a handle that grants read access only.
pub struct Const;

impl CppRefMutability for Const {}

/// The tag of a handle that grants write access as well as read access.
pub struct Mut;

impl CppRefMutability for Mut {}

/// A C++-style reference: a bare address of a `T`, tagged with a mutability
/// marker `M` and with a lifetime standing for the validity window its
/// caller promised.
///
/// Unlike a host-language reference, any number of these may denote the same
/// address at once, whatever their tags; the handle owns nothing and never
/// touches the address it carries. Accesses through it are resolved against
/// a [`ForeignMemory`] for the pointee type, and are legal only while the
/// address is valid there — the obligation the trusted caller takes on when
/// it constructs the handle.
pub struct CppRef<'a, M: CppRefMutability, T>(usize, PhantomData<&'a T>, PhantomData<M>);

impl<'a, M: CppRefMutability, T> CppRef<'a, M, T> {
    /// The address this handle denotes.
    pub closed spec fn addr(&self) -> usize {
        self.0
    }

    /// Wraps `addr` in a new handle with whatever tag the caller names.
    ///
    /// Nothing is validated: the caller vouches that the address stays
    /// valid for every access made through this handle and its copies.
    pub fn new(addr: usize) -> (r: Self)
        ensures
            r.addr() == addr,
    {
        CppRef(addr, PhantomData, PhantomData)
    }

    /// The address as a value, for callers outside the proof.
    pub fn address(&self) -> (r: usize)
        ensures
            r == self.addr(),
    {
        self.0
    }

    /// Read access: a shared view of the pointee, available on both flavours
    /// of handle.
    pub fn as_ref<'m>(&self, mem: &'m ForeignMemory<T>) -> (r: &'m T)
        requires
            self.addr() < mem@.len(),
        ensures
            *r == mem@[self.addr() as int],
    {
        mem.borrow_at(self.0)
    }
}

impl<'a, T> CppRef<'a, Mut, T> {
    /// Write access: a mutable view of the pointee, available only on a
    /// [`Mut`]-tagged handle — on a [`Const`] handle this call does not
    /// type-check, which is the one guarantee the type system enforces.
    ///
    /// What the caller leaves in the view is what every aliasing handle
    /// observes afterwards.
    pub fn as_mut<'m>(&self, mem: &'m mut ForeignMemory<T>) -> (r: &'m mut T)
        requires
            self.addr() < old(mem)@.len(),
        ensures
            *r == old(mem)@[self.addr() as int],
            final(mem)@ == old(mem)@.update(self.addr() as int, *final(r)),
    {
        mem.borrow_mut_at(self.0)
    }
}

/// Duplication is by hand, not derived: only the handle — address and tags —
/// is copied, so the pointee type need not support duplication itself.
impl<'a, M: CppRefMutability, T> Clone for CppRef<'a, M, T> {
    /// The copy denotes the identical address under the identical tag, and
    /// taking it leaves the original untouched.
    fn clone(&self) -> (r: Self)
        ensures
            r.addr() == self.addr(),
    {
        CppRef(self.0, PhantomData, PhantomData)
    }
}

impl<'a, M: CppRefMutability, T> Copy for CppRef<'a, M, T> {}

/// Two handles alias when they denote the same address, whatever their tags
/// and lifetimes. A handle aliases itself, and [`CppRef::clone`] guarantees
/// that every copy — hence, by induction, every chain of copies — aliases
/// the handle it was taken from.
pub open spec fn aliases<'a, 'b, M1: CppRefMutability, M2: CppRefMutability, T>(
    h1: CppRef<'a, M1, T>,
    h2: CppRef<'b, M2, T>,
) -> bool {
    h1.addr() == h2.addr()
}

/// However a handle over an address was obtained — constructed there
/// directly, or copied any number of times from one that was — all handles
/// that alias observe the same underlying value when they read.
pub proof fn lemma_aliases_read_alike<'a, 'b, M1: CppRefMutability, M2: CppRefMutability, T>(
    h1: CppRef<'a, M1, T>,
    h2: CppRef<'b, M2, T>,
    mem: ForeignMemory<T>,
)
    requires
        aliases(h1, h2),
        h1.addr() < mem@.len(),
    ensures
        mem@[h1.addr() as int] == mem@[h2.addr() as int],
{
}

/// A value written through a [`Mut`] handle is what every aliasing handle —
/// the writer's copies included — reads afterwards: copies are true aliases
/// of one location, not independent values.
pub proof fn lemma_write_visible_to_aliases<'a, 'b, M: CppRefMutability, T>(
    writer: CppRef<'a, Mut, T>,
    reader: CppRef<'b, M, T>,
    mem: Seq<T>,
    value: T,
)
    requires
        aliases(writer, reader),
        writer.addr() < mem.len(),
    ensures
        mem.update(writer.addr() as int, value)[reader.addr() as int] == value,
{
}

} // verus!
