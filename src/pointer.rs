use vstd::prelude::*;

use crate::backend::NULL_ADDR;

verus! {

/// Ownership token for unified memory, as handed out by `UnifiedBox` and
/// `UnifiedBuffer`: the address of the allocation and the elements it held
/// when the token was taken. The handle constructors adopt it back.
#[derive(Debug)]
pub struct UnifiedPointer<T> {
    addr: usize,
    elements: Vec<T>,
}

/// Ownership token for page-locked memory, as handed out by `LockedBox`.
#[derive(Debug)]
pub struct LockedPointer<T> {
    addr: usize,
    elements: Vec<T>,
}

impl<T> View for UnifiedPointer<T> {
    type V = Seq<T>;

    closed spec fn view(&self) -> Seq<T> {
        self.elements@
    }
}

impl<T> View for LockedPointer<T> {
    type V = Seq<T>;

    closed spec fn view(&self) -> Seq<T> {
        self.elements@
    }
}

impl<T> UnifiedPointer<T> {
    pub closed spec fn addr(&self) -> usize {
        self.addr
    }

    /// A token with the null address and no elements.
    pub fn null() -> (r: Self)
        ensures
            r.addr() == NULL_ADDR,
            r@.len() == 0,
    {
        UnifiedPointer { addr: NULL_ADDR, elements: Vec::new() }
    }

    pub(crate) fn from_parts(addr: usize, elements: Vec<T>) -> (r: Self)
        ensures
            r.addr() == addr,
            r@ == elements@,
    {
        UnifiedPointer { addr, elements }
    }

    pub(crate) fn into_parts(self) -> (r: (usize, Vec<T>))
        ensures
            r.0 == self.addr(),
            r.1@ == self@,
    {
        (self.addr, self.elements)
    }

    /// Whether the token holds the null address.
    pub fn is_null(&self) -> (r: bool)
        ensures
            r == (self.addr() == NULL_ADDR),
    {
        self.addr == NULL_ADDR
    }

    /// The address of the allocation.
    pub fn as_addr(&self) -> (r: usize)
        ensures
            r == self.addr(),
    {
        self.addr
    }

    /// The elements the token carries.
    pub fn as_slice(&self) -> (r: &[T])
        ensures
            r@ == self@,
    {
        self.elements.as_slice()
    }
}

impl<T> LockedPointer<T> {
    pub closed spec fn addr(&self) -> usize {
        self.addr
    }

    /// A token with the null address and no elements.
    pub fn null() -> (r: Self)
        ensures
            r.addr() == NULL_ADDR,
            r@.len() == 0,
    {
        LockedPointer { addr: NULL_ADDR, elements: Vec::new() }
    }

    pub(crate) fn from_parts(addr: usize, elements: Vec<T>) -> (r: Self)
        ensures
            r.addr() == addr,
            r@ == elements@,
    {
        LockedPointer { addr, elements }
    }

    pub(crate) fn into_parts(self) -> (r: (usize, Vec<T>))
        ensures
            r.0 == self.addr(),
            r.1@ == self@,
    {
        (self.addr, self.elements)
    }

    /// Whether the token holds the null address.
    pub fn is_null(&self) -> (r: bool)
        ensures
            r == (self.addr() == NULL_ADDR),
    {
        self.addr == NULL_ADDR
    }

    /// The address of the allocation.
    pub fn as_addr(&self) -> (r: usize)
        ensures
            r == self.addr(),
    {
        self.addr
    }

    /// The elements the token carries.
    pub fn as_slice(&self) -> (r: &[T])
        ensures
            r@ == self@,
    {
        self.elements.as_slice()
    }
}

} // verus!
