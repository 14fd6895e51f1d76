//! The shared variant: each symbol holds a share of its library, so the
//! library stays open while any symbol or handle of it is alive.
use vstd::prelude::*;
use std::rc::Rc;
use std::sync::Arc;
use crate::error::SharedlibResult;
use crate::library::LibUnsafe;
use crate::loader::is_find_error;
use crate::loader::is_open_error;
use crate::loader::message_view;
use crate::symbol::Symbol;

verus! {

/// A shared owner of an open library: made from it, cloned into further
/// shares, and read back. Counted with or without atomic operations.
pub trait SharedLibrary: Sized {
    /// The loader's handle of the library that is shared.
    spec fn handle_spec(&self) -> usize;

    fn from_library(lib: LibUnsafe) -> (r: Self)
        ensures
            r.handle_spec() == lib@,
    ;

    /// A further share of the same library.
    fn share(&self) -> (r: Self)
        ensures
            r.handle_spec() == self.handle_spec(),
    ;

    fn library(&self) -> (r: &LibUnsafe)
        ensures
            r@ == self.handle_spec(),
    ;
}

impl SharedLibrary for Rc<LibUnsafe> {
    open spec fn handle_spec(&self) -> usize {
        (**self)@
    }

    fn from_library(lib: LibUnsafe) -> (r: Self) {
        Rc::new(lib)
    }

    fn share(&self) -> (r: Self) {
        Rc::clone(self)
    }

    fn library(&self) -> (r: &LibUnsafe) {
        &**self
    }
}

impl SharedLibrary for Arc<LibUnsafe> {
    open spec fn handle_spec(&self) -> usize {
        (**self)@
    }

    fn from_library(lib: LibUnsafe) -> (r: Self) {
        Arc::new(lib)
    }

    fn share(&self) -> (r: Self) {
        Arc::clone(self)
    }

    fn library(&self) -> (r: &LibUnsafe) {
        &**self
    }
}

/// An open library held through a share `TLib`; every symbol taken from it
/// holds a further share, so the library is closed only when the last
/// handle and the last symbol are gone.
#[derive(Debug)]
pub struct LibTracked<TLib> {
    inner: TLib,
}

impl<TLib: SharedLibrary> View for LibTracked<TLib> {
    type V = usize;

    /// The loader's handle for the library.
    closed spec fn view(&self) -> usize {
        self.inner.handle_spec()
    }
}

impl<TLib: SharedLibrary> LibTracked<TLib> {
    /// The library that `dlopen` opened for `path`, given what it returned,
    /// held in a first share.
    pub fn new(path: &str, handle: usize, os_message: Option<String>) -> (r: SharedlibResult<Self>)
        ensures
            r is Ok <==> handle != 0,
            r matches Ok(l) ==> l@ == handle,
            r matches Err(e) ==> is_open_error(e, path@, message_view(os_message)),
    {
        let lib = LibUnsafe::new(path, handle, os_message)?;
        Ok(LibTracked { inner: TLib::from_library(lib) })
    }

    /// A further handle on the same library.
    pub fn share(&self) -> (r: Self)
        ensures
            r@ == self@,
    {
        LibTracked { inner: self.inner.share() }
    }

    pub fn inner(&self) -> (r: &LibUnsafe)
        ensures
            r@ == self@,
    {
        self.inner.library()
    }

    /// Takes data from the library, given what `dlsym` returned for
    /// `symbol`; the result holds a share of the library.
    pub fn find_data<T: Copy, F: Fn(usize) -> T>(
        &self,
        symbol: &str,
        address: usize,
        os_message: Option<String>,
        convert: F,
    ) -> (r: SharedlibResult<DataTracked<T, TLib>>)
        requires
            address != 0 ==> convert.requires((address,)),
        ensures
            r is Ok <==> address != 0,
            r matches Ok(d) ==> convert.ensures((address,), d.value_of()) && d.library_spec()
                == self@,
            r matches Err(e) ==> is_find_error(e, symbol@, message_view(os_message)),
    {
        let value = self.inner.library().find_data(symbol, address, os_message, convert)?;
        Ok(DataTracked::new(value, self.inner.share()))
    }

    /// Takes a function from the library, given what `dlsym` returned for
    /// `symbol`; the result holds a share of the library.
    pub fn find_func<T: Copy, F: Fn(usize) -> T>(
        &self,
        symbol: &str,
        address: usize,
        os_message: Option<String>,
        convert: F,
    ) -> (r: SharedlibResult<FuncTracked<T, TLib>>)
        requires
            address != 0 ==> convert.requires((address,)),
        ensures
            r is Ok <==> address != 0,
            r matches Ok(f) ==> convert.ensures((address,), f.value_of()) && f.library_spec()
                == self@,
            r matches Err(e) ==> is_find_error(e, symbol@, message_view(os_message)),
    {
        let value = self.inner.library().find_func(symbol, address, os_message, convert)?;
        Ok(FuncTracked::new(value, self.inner.share()))
    }
}

impl<TLib: SharedLibrary> Clone for LibTracked<TLib> {
    fn clone(&self) -> (r: Self) {
        self.share()
    }
}

/// Data of a library together with a share of that library. The caller's
/// view `T` of the data is most often a pointer to it.
#[derive(Debug)]
pub struct DataTracked<T, TLib> {
    value: T,
    lib: TLib,
}

impl<T, TLib: SharedLibrary> DataTracked<T, TLib> {
    /// The caller's view of the data.
    pub closed spec fn value_of(&self) -> T {
        self.value
    }

    /// The library whose share the symbol holds.
    pub closed spec fn library_spec(&self) -> usize {
        self.lib.handle_spec()
    }

    pub fn new(value: T, lib: TLib) -> (r: Self)
        ensures
            r.value_of() == value,
            r.library_spec() == lib.handle_spec(),
    {
        DataTracked { value, lib }
    }

    pub fn library(&self) -> (r: &LibUnsafe)
        ensures
            r@ == self.library_spec(),
    {
        self.lib.library()
    }
}

impl<T: Copy, TLib: SharedLibrary> Symbol<T> for DataTracked<T, TLib> {
    open spec fn value_spec(&self) -> T {
        self.value_of()
    }

    fn get(&self) -> (r: T) {
        self.value
    }
}

/// A function of a library together with a share of that library.
#[derive(Debug)]
pub struct FuncTracked<T, TLib> {
    value: T,
    lib: TLib,
}

impl<T, TLib: SharedLibrary> FuncTracked<T, TLib> {
    /// The function that the symbol holds.
    pub closed spec fn value_of(&self) -> T {
        self.value
    }

    /// The library whose share the symbol holds.
    pub closed spec fn library_spec(&self) -> usize {
        self.lib.handle_spec()
    }

    pub fn new(value: T, lib: TLib) -> (r: Self)
        ensures
            r.value_of() == value,
            r.library_spec() == lib.handle_spec(),
    {
        FuncTracked { value, lib }
    }

    pub fn library(&self) -> (r: &LibUnsafe)
        ensures
            r@ == self.library_spec(),
    {
        self.lib.library()
    }
}

impl<T: Copy, TLib: SharedLibrary> Symbol<T> for FuncTracked<T, TLib> {
    open spec fn value_spec(&self) -> T {
        self.value_of()
    }

    fn get(&self) -> (r: T) {
        self.value
    }
}

/// A library shared within one thread.
pub type LibRc = LibTracked<Rc<LibUnsafe>>;

/// A library shared across threads.
pub type LibArc = LibTracked<Arc<LibUnsafe>>;

/// Data of a library shared within one thread.
pub type DataRc<T> = DataTracked<T, Rc<LibUnsafe>>;

/// Data of a library shared across threads.
pub type DataArc<T> = DataTracked<T, Arc<LibUnsafe>>;

/// A function of a library shared within one thread.
pub type FuncRc<T> = FuncTracked<T, Rc<LibUnsafe>>;

/// A function of a library shared across threads.
pub type FuncArc<T> = FuncTracked<T, Arc<LibUnsafe>>;

} // verus!
