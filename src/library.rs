//! The three kinds of library handle: unchecked, scope-bound and shared.
use vstd::prelude::*;
use crate::error::SharedlibResult;
use crate::loader::find_outcome;
use crate::loader::is_find_error;
use crate::loader::is_open_error;
use crate::loader::message_view;
use crate::loader::open_outcome;
use crate::symbol::Data;
use crate::symbol::Func;

verus! {

/// An open library, known by the loader's handle for it. Symbols taken from
/// it carry no tie to it: keeping them valid is the caller's task.
#[derive(Debug)]
pub struct LibUnsafe {
    handle: usize,
}

impl View for LibUnsafe {
    type V = usize;

    /// The loader's handle for the library.
    closed spec fn view(&self) -> usize {
        self.handle
    }
}

impl LibUnsafe {
    /// A loader never hands out a null handle for an open library.
    #[verifier::type_invariant]
    spec fn inv(&self) -> bool {
        self.handle != 0
    }

    /// The library that `dlopen` opened for `path`, given what it returned.
    pub fn new(path: &str, handle: usize, os_message: Option<String>) -> (r: SharedlibResult<Self>)
        ensures
            r is Ok <==> handle != 0,
            r matches Ok(l) ==> l@ == handle,
            r matches Err(e) ==> is_open_error(e, path@, message_view(os_message)),
    {
        let h = open_outcome(path, handle, os_message)?;
        Ok(LibUnsafe { handle: h })
    }

    pub fn handle(&self) -> (r: usize)
        ensures
            r == self@,
            r != 0,
    {
        proof {
            use_type_invariant(self);
        }
        self.handle
    }

    /// Takes data from the library, given what `dlsym` returned for
    /// `symbol`. On success `convert` makes the caller's view of the data
    /// from its address; it is called on a non-null address only.
    pub fn find_data<T, F: Fn(usize) -> T>(
        &self,
        symbol: &str,
        address: usize,
        os_message: Option<String>,
        convert: F,
    ) -> (r: SharedlibResult<T>)
        requires
            address != 0 ==> convert.requires((address,)),
        ensures
            r is Ok <==> address != 0,
            r matches Ok(v) ==> convert.ensures((address,), v),
            r matches Err(e) ==> is_find_error(e, symbol@, message_view(os_message)),
    {
        let a = find_outcome(symbol, address, os_message)?;
        Ok(convert(a))
    }

    /// Takes a function from the library, given what `dlsym` returned for
    /// `symbol`. On success `convert` makes the callable value from the
    /// function's address (the address itself, not what is stored there);
    /// it is called on a non-null address only.
    pub fn find_func<T: Copy, F: Fn(usize) -> T>(
        &self,
        symbol: &str,
        address: usize,
        os_message: Option<String>,
        convert: F,
    ) -> (r: SharedlibResult<T>)
        requires
            address != 0 ==> convert.requires((address,)),
        ensures
            r is Ok <==> address != 0,
            r matches Ok(v) ==> convert.ensures((address,), v),
            r matches Err(e) ==> is_find_error(e, symbol@, message_view(os_message)),
    {
        let a = find_outcome(symbol, address, os_message)?;
        Ok(convert(a))
    }
}

/// An open library whose symbols stay valid only while it is borrowed.
#[derive(Debug)]
pub struct Lib {
    inner: LibUnsafe,
}

impl View for Lib {
    type V = usize;

    /// The loader's handle for the library.
    closed spec fn view(&self) -> usize {
        self.inner@
    }
}

impl Lib {
    /// The library that `dlopen` opened for `path`, given what it returned.
    pub fn new(path: &str, handle: usize, os_message: Option<String>) -> (r: SharedlibResult<Self>)
        ensures
            r is Ok <==> handle != 0,
            r matches Ok(l) ==> l@ == handle,
            r matches Err(e) ==> is_open_error(e, path@, message_view(os_message)),
    {
        let inner = LibUnsafe::new(path, handle, os_message)?;
        Ok(Lib { inner })
    }

    pub fn inner(&self) -> (r: &LibUnsafe)
        ensures
            r@ == self@,
    {
        &self.inner
    }

    /// Takes data from the library, given what `dlsym` returned for
    /// `symbol`; the result borrows the library.
    pub fn find_data<'a, T, F: Fn(usize) -> &'a T>(
        &'a self,
        symbol: &str,
        address: usize,
        os_message: Option<String>,
        convert: F,
    ) -> (r: SharedlibResult<Data<'a, T>>)
        requires
            address != 0 ==> convert.requires((address,)),
        ensures
            r is Ok <==> address != 0,
            r matches Ok(d) ==> convert.ensures((address,), d.value_of()) && d.library_spec()
                == self@,
            r matches Err(e) ==> is_find_error(e, symbol@, message_view(os_message)),
    {
        let value = self.inner.find_data(symbol, address, os_message, convert)?;
        Ok(Data::new(value, self))
    }

    /// Takes a function from the library, given what `dlsym` returned for
    /// `symbol`; the result borrows the library.
    pub fn find_func<'a, T: Copy, F: Fn(usize) -> T>(
        &'a self,
        symbol: &str,
        address: usize,
        os_message: Option<String>,
        convert: F,
    ) -> (r: SharedlibResult<Func<'a, T>>)
        requires
            address != 0 ==> convert.requires((address,)),
        ensures
            r is Ok <==> address != 0,
            r matches Ok(f) ==> convert.ensures((address,), f.value_of()) && f.library_spec()
                == self@,
            r matches Err(e) ==> is_find_error(e, symbol@, message_view(os_message)),
    {
        let value = self.inner.find_func(symbol, address, os_message, convert)?;
        Ok(Func::new(value, self))
    }
}

} // verus!
