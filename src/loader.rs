//! The edge of the operating system's loader. The calls themselves (`dlopen`,
//! `dlsym`, `dlclose`) are made by the caller; what they returned, and the
//! loader's description of the last failure where there was one, is handed
//! here and turned into a handle, an address or a typed error.
use vstd::prelude::*;
use vstd::string::*;
use crate::error::LibraryClose;
use crate::error::LibraryFindSymbol;
use crate::error::LibraryOpen;
use crate::error::OsError;
use crate::error::OsErrorFailure;
use crate::error::SharedlibError;
use crate::error::SharedlibResult;

verus! {

/// `e` is the failure of the call `function`, described by the loader's
/// message when there is one: an `OsError` carrying that message, and
/// otherwise an `OsErrorFailure` that names the call.
pub open spec fn is_loader_failure(
    e: SharedlibError,
    function: Seq<char>,
    os_message: Option<Seq<char>>,
) -> bool {
    match e {
        SharedlibError::OsError(o) => os_message == Some(o.cause_spec()) && o.function_called_spec()
            == function,
        SharedlibError::OsErrorFailure(o) => os_message is None && o.function_called_spec()
            == function,
        _ => false,
    }
}

/// The loader's message as a sequence of characters.
pub open spec fn message_view(os_message: Option<String>) -> Option<Seq<char>> {
    match os_message {
        Some(m) => Some(m@),
        None => None,
    }
}

/// `e` is the refusal to open `path`.
pub open spec fn is_open_error(e: SharedlibError, path: Seq<char>, os_message: Option<Seq<char>>) -> bool {
    match e {
        SharedlibError::LibraryOpen(o) => o.path_spec() == path && is_loader_failure(
            o.cause_spec(),
            "dlopen"@,
            os_message,
        ),
        _ => false,
    }
}

/// `e` is the failure to find the export `symbol`.
pub open spec fn is_find_error(e: SharedlibError, symbol: Seq<char>, os_message: Option<Seq<char>>) -> bool {
    match e {
        SharedlibError::LibraryFindSymbol(o) => o.symbol_spec() == symbol && is_loader_failure(
            o.cause_spec(),
            "dlsym"@,
            os_message,
        ),
        _ => false,
    }
}

/// `e` is the failure to unload a library.
pub open spec fn is_close_error(e: SharedlibError, os_message: Option<Seq<char>>) -> bool {
    match e {
        SharedlibError::LibraryClose(o) => is_loader_failure(o.cause_spec(), "dlclose"@, os_message),
        _ => false,
    }
}

/// The error for a failed call to the loader function `function_called`:
/// the loader's own message where it gave one, the name of the call alone
/// where it gave none.
pub fn loader_failure(function_called: &str, os_message: Option<String>) -> (r: SharedlibError)
    ensures
        is_loader_failure(r, function_called@, message_view(os_message)),
{
    match os_message {
        Some(m) => SharedlibError::OsError(OsError::new(m, String::from_str(function_called))),
        None => SharedlibError::OsErrorFailure(OsErrorFailure::new(String::from_str(function_called))),
    }
}

/// What `dlopen` returned for `path`: a null handle is a refusal.
pub fn open_outcome(path: &str, handle: usize, os_message: Option<String>) -> (r: SharedlibResult<usize>)
    ensures
        r is Ok <==> handle != 0,
        r matches Ok(h) ==> h == handle,
        r matches Err(e) ==> is_open_error(e, path@, message_view(os_message)),
{
    if handle != 0 {
        Ok(handle)
    } else {
        let cause = loader_failure("dlopen", os_message);
        Err(SharedlibError::LibraryOpen(LibraryOpen::new(String::from_str(path), cause)))
    }
}

/// What `dlsym` returned for `symbol`: a null address means that no usable
/// export of that name was found.
pub fn find_outcome(symbol: &str, address: usize, os_message: Option<String>) -> (r: SharedlibResult<usize>)
    ensures
        r is Ok <==> address != 0,
        r matches Ok(a) ==> a == address,
        r matches Err(e) ==> is_find_error(e, symbol@, message_view(os_message)),
{
    if address != 0 {
        Ok(address)
    } else {
        let cause = loader_failure("dlsym", os_message);
        Err(SharedlibError::LibraryFindSymbol(LibraryFindSymbol::new(String::from_str(symbol), cause)))
    }
}

/// What `dlclose` returned: any status but zero is a failure, which is
/// reported; the handle is given up either way.
pub fn close_outcome(status: i32, os_message: Option<String>) -> (r: SharedlibResult<()>)
    ensures
        r is Ok <==> status == 0,
        r matches Err(e) ==> is_close_error(e, message_view(os_message)),
{
    if status == 0 {
        Ok(())
    } else {
        let cause = loader_failure("dlclose", os_message);
        Err(SharedlibError::LibraryClose(LibraryClose::new(cause)))
    }
}

} // verus!
