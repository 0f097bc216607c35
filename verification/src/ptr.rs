//! Boundary pointers: typed addresses of values that live inside the sandbox.

use core::marker::PhantomData;
use vstd::prelude::*;
use vstd::layout::align_of;
use vstd::layout::align_nonzero;
use crate::region::Region;

verus! {

/// Marks a type that code outside the sandbox may read through a boundary pointer.
///
/// Sandboxed code can leave any bytes in its memory, so an implementor must be valid for
/// every bit pattern: no padding that is read, no niche, no invariant between its fields.
/// The integer types qualify, and so do arrays and slices of a type that qualifies.
pub trait SandboxSafe {

}

impl SandboxSafe for u8 {

}

impl SandboxSafe for u16 {

}

impl SandboxSafe for u32 {

}

impl SandboxSafe for u64 {

}

impl SandboxSafe for u128 {

}

impl SandboxSafe for usize {

}

impl SandboxSafe for i8 {

}

impl SandboxSafe for i16 {

}

impl SandboxSafe for i32 {

}

impl SandboxSafe for i64 {

}

impl SandboxSafe for i128 {

}

impl SandboxSafe for isize {

}

impl<T: SandboxSafe, const N: usize> SandboxSafe for [T; N] {

}

impl<T: SandboxSafe> SandboxSafe for [T] {

}

/// Why an address cannot become a boundary pointer.
#[derive(Clone, Copy, Debug, PartialEq, Eq)]
pub enum PointerFault {
    /// The address is null.
    Null,
    /// The address is not a multiple of the pointee's alignment.
    Misaligned,
}

/// What a boundary pointer denotes: an address and the number of values laid out from it.
pub struct Span {
    pub addr: usize,
    pub len: usize,
}

/// Whether `addr` is a multiple of the alignment of `T`.
pub open spec fn aligned_for<T>(addr: usize) -> bool {
    addr as int % align_of::<T>() as int == 0
}

/// Whether `addr` may point to a `T`: it is not null and is aligned for `T`.
pub open spec fn valid_sandbox_addr<T>(addr: usize) -> bool {
    addr != 0 && aligned_for::<T>(addr)
}

/// Checks that `addr` may point to a `T`, and says what is wrong with it if it may not.
pub fn validate_sandbox_ptr<T>(addr: usize) -> (r: Result<(), PointerFault>)
    ensures
        r is Ok <==> valid_sandbox_addr::<T>(addr),
        r == Err::<(), PointerFault>(PointerFault::Null) <==> addr == 0,
        r == Err::<(), PointerFault>(PointerFault::Misaligned) <==> addr != 0 && !aligned_for::<T>(
            addr,
        ),
{
    broadcast use align_nonzero;

    if addr == 0 {
        return Err(PointerFault::Null);
    }
    let align: usize = core::mem::align_of::<T>();
    if addr % align != 0 {
        return Err(PointerFault::Misaligned);
    }
    Ok(())
}

/// A read-only pointer to a value, or a run of values, inside the sandbox.
pub struct SandboxPtr<T: ?Sized> {
    addr: usize,
    len: usize,
    marker: PhantomData<T>,
}

impl<T: ?Sized> View for SandboxPtr<T> {
    type V = Span;

    closed spec fn view(&self) -> Span {
        Span { addr: self.addr, len: self.len }
    }
}

impl<T: ?Sized> Clone for SandboxPtr<T> {
    fn clone(&self) -> (r: Self)
        ensures
            r@ == self@,
    {
        SandboxPtr { addr: self.addr, len: self.len, marker: PhantomData }
    }
}

impl<T: ?Sized> Copy for SandboxPtr<T> {

}

impl<T: ?Sized> SandboxPtr<T> {
    /// A pointer to the `T` at `addr`.
    pub fn new(addr: usize) -> (r: Self) where T: Sized
        requires
            valid_sandbox_addr::<T>(addr),
        ensures
            r@ == (Span { addr, len: 1 }),
    {
        SandboxPtr { addr, len: 1, marker: PhantomData }
    }

    /// A pointer to the `T` at `addr`, whatever `addr` is.
    ///
    /// Nothing is checked: the caller answers for the address when the pointer is followed.
    pub fn new_unchecked(addr: usize) -> (r: Self)
        ensures
            r@ == (Span { addr, len: 1 }),
    {
        SandboxPtr { addr, len: 1, marker: PhantomData }
    }

    /// The address that the pointer holds.
    pub fn get(&self) -> (addr: usize)
        ensures
            addr == self@.addr,
    {
        self.addr
    }

    /// Number of values that the pointer spans: one, or the length of the slice.
    pub fn len(&self) -> (len: usize)
        ensures
            len == self@.len,
    {
        self.len
    }

    /// A pointer to the slice of `len` values that starts where this pointer points.
    ///
    /// A slice that holds anything must lie inside `region`.
    pub fn as_slice(&self, len: usize, region: &Region) -> (r: SandboxPtr<[T]>) where
        T: Sized + SandboxSafe,

        requires
            region.holds_slice::<T>(self@.addr, len),
        ensures
            r@ == (Span { addr: self@.addr, len }),
    {
        SandboxPtr { addr: self.addr, len, marker: PhantomData }
    }
}

/// A pointer through which a value, or a run of values, inside the sandbox can be changed.
pub struct SandboxPtrMut<T: ?Sized> {
    addr: usize,
    len: usize,
    marker: PhantomData<T>,
}

impl<T: ?Sized> View for SandboxPtrMut<T> {
    type V = Span;

    closed spec fn view(&self) -> Span {
        Span { addr: self.addr, len: self.len }
    }
}

impl<T: ?Sized> Clone for SandboxPtrMut<T> {
    fn clone(&self) -> (r: Self)
        ensures
            r@ == self@,
    {
        SandboxPtrMut { addr: self.addr, len: self.len, marker: PhantomData }
    }
}

impl<T: ?Sized> Copy for SandboxPtrMut<T> {

}

impl<T: ?Sized> SandboxPtrMut<T> {
    /// A pointer to the `T` at `addr`.
    pub fn new(addr: usize) -> (r: Self) where T: Sized
        requires
            valid_sandbox_addr::<T>(addr),
        ensures
            r@ == (Span { addr, len: 1 }),
    {
        SandboxPtrMut { addr, len: 1, marker: PhantomData }
    }

    /// A pointer to the `T` at `addr`, whatever `addr` is.
    ///
    /// Nothing is checked: the caller answers for the address when the pointer is followed.
    pub fn new_unchecked(addr: usize) -> (r: Self)
        ensures
            r@ == (Span { addr, len: 1 }),
    {
        SandboxPtrMut { addr, len: 1, marker: PhantomData }
    }

    /// The address that the pointer holds.
    pub fn get(&self) -> (addr: usize)
        ensures
            addr == self@.addr,
    {
        self.addr
    }

    /// Number of values that the pointer spans: one, or the length of the slice.
    pub fn len(&self) -> (len: usize)
        ensures
            len == self@.len,
    {
        self.len
    }

    /// A pointer to the slice of `len` values that starts where this pointer points.
    ///
    /// A slice that holds anything must lie inside `region`.
    pub fn as_slice(&self, len: usize, region: &Region) -> (r: SandboxPtrMut<[T]>) where
        T: Sized + SandboxSafe,

        requires
            region.holds_slice::<T>(self@.addr, len),
        ensures
            r@ == (Span { addr: self@.addr, len }),
    {
        SandboxPtrMut { addr: self.addr, len, marker: PhantomData }
    }
}

} // verus!
