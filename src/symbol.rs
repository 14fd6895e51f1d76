//! Symbols taken from a library, each kind held under one of the three
//! ownership strategies.
use vstd::prelude::*;
use crate::library::Lib;

verus! {

/// A value taken from a library: a function or a reference to data.
pub trait Symbol<T> {
    /// The value that the symbol holds.
    spec fn value_spec(&self) -> T;

    /// The value itself. The caller must not keep it beyond the guarantee
    /// that backs the symbol.
    fn get(&self) -> (r: T)
        ensures
            r == self.value_spec(),
    ;
}

/// A reference to data of a library, valid while the library is borrowed.
pub struct Data<'a, T> {
    value: &'a T,
    lib: &'a Lib,
}

impl<'a, T> Data<'a, T> {
    /// The reference that the symbol holds.
    pub closed spec fn value_of(&self) -> &'a T {
        self.value
    }

    /// The library that the data belongs to.
    pub closed spec fn library_spec(&self) -> usize {
        self.lib@
    }

    pub fn new(value: &'a T, lib: &'a Lib) -> (r: Self)
        ensures
            r.value_of() == value,
            r.library_spec() == lib@,
    {
        Data { value, lib }
    }

    pub fn library(&self) -> (r: &'a Lib)
        ensures
            r@ == self.library_spec(),
    {
        self.lib
    }
}

impl<'a, T> Symbol<&'a T> for Data<'a, T> {
    open spec fn value_spec(&self) -> &'a T {
        self.value_of()
    }

    fn get(&self) -> (r: &'a T) {
        self.value
    }
}

/// A function of a library, valid while the library is borrowed.
pub struct Func<'a, T> {
    value: T,
    lib: &'a Lib,
}

impl<'a, T> Func<'a, T> {
    /// The function that the symbol holds.
    pub closed spec fn value_of(&self) -> T {
        self.value
    }

    /// The library that the function belongs to.
    pub closed spec fn library_spec(&self) -> usize {
        self.lib@
    }

    pub fn new(value: T, lib: &'a Lib) -> (r: Self)
        ensures
            r.value_of() == value,
            r.library_spec() == lib@,
    {
        Func { value, lib }
    }

    pub fn library(&self) -> (r: &'a Lib)
        ensures
            r@ == self.library_spec(),
    {
        self.lib
    }
}

impl<'a, T: Copy> Symbol<T> for Func<'a, T> {
    open spec fn value_spec(&self) -> T {
        self.value_of()
    }

    fn get(&self) -> (r: T) {
        self.value
    }
}

} // verus!
