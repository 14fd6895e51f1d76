//! The errors of the crate: five kinds, gathered in one enum.
use vstd::prelude::*;
use vstd::string::*;

verus! {

/// What is returned by every fallible operation of the crate.
pub type SharedlibResult<T> = Result<T, SharedlibError>;

/// A failure of a call into the loader for which the operating system gave
/// no description; it keeps the name of the call that failed.
#[derive(Debug)]
pub struct OsErrorFailure {
    function_called: String,
}

impl OsErrorFailure {
    /// The name of the call that failed.
    pub closed spec fn function_called_spec(&self) -> Seq<char> {
        self.function_called@
    }

    pub fn new(function_called: String) -> (r: Self)
        ensures
            r.function_called_spec() == function_called@,
    {
        OsErrorFailure { function_called }
    }

    pub fn function_called(&self) -> (r: &str)
        ensures
            r@ == self.function_called_spec(),
    {
        self.function_called.as_str()
    }

    pub fn description(&self) -> (r: &'static str)
        ensures
            r@ == "The operating system gave no description of a failure."@,
    {
        "The operating system gave no description of a failure."
    }

    /// The text of this error, which names the call that failed.
    pub closed spec fn message_spec(&self) -> Seq<char> {
        "A call to "@ + self.function_called@ + " failed, and the operating system gave no description."@
    }

    pub fn message(&self) -> (r: String)
        ensures
            r@ == self.message_spec(),
    {
        let mut s = String::from_str("A call to ");
        s.append(self.function_called.as_str());
        s.append(" failed, and the operating system gave no description.");
        s
    }
}

/// A failure of a call into the loader, with the operating system's own
/// description of it.
#[derive(Debug)]
pub struct OsError {
    cause: String,
    function_called: String,
}

impl OsError {
    /// The operating system's description of the failure.
    pub closed spec fn cause_spec(&self) -> Seq<char> {
        self.cause@
    }

    /// The name of the call that failed.
    pub closed spec fn function_called_spec(&self) -> Seq<char> {
        self.function_called@
    }

    pub fn new(cause: String, function_called: String) -> (r: Self)
        ensures
            r.cause_spec() == cause@,
            r.function_called_spec() == function_called@,
    {
        OsError { cause, function_called }
    }

    pub fn cause(&self) -> (r: &str)
        ensures
            r@ == self.cause_spec(),
    {
        self.cause.as_str()
    }

    pub fn function_called(&self) -> (r: &str)
        ensures
            r@ == self.function_called_spec(),
    {
        self.function_called.as_str()
    }

    pub fn description(&self) -> (r: &'static str)
        ensures
            r@ == "A call into the operating system's loader failed."@,
    {
        "A call into the operating system's loader failed."
    }

    /// The text of this error: the call that failed, then the operating
    /// system's description.
    pub closed spec fn message_spec(&self) -> Seq<char> {
        "A call to "@ + self.function_called@ + " failed: "@ + self.cause@
    }

    pub fn message(&self) -> (r: String)
        ensures
            r@ == self.message_spec(),
    {
        let mut s = String::from_str("A call to ");
        s.append(self.function_called.as_str());
        s.append(" failed: ");
        s.append(self.cause.as_str());
        s
    }
}

/// The loader refused to open a library.
#[derive(Debug)]
pub struct LibraryOpen {
    path: String,
    cause: Box<SharedlibError>,
}

impl LibraryOpen {
    /// The path that was given to the loader.
    pub closed spec fn path_spec(&self) -> Seq<char> {
        self.path@
    }

    /// The failure that the loader reported.
    pub closed spec fn cause_spec(&self) -> SharedlibError {
        *self.cause
    }

    pub fn new(path: String, cause: SharedlibError) -> (r: Self)
        ensures
            r.path_spec() == path@,
            r.cause_spec() == cause,
    {
        LibraryOpen { path, cause: Box::new(cause) }
    }

    pub fn path(&self) -> (r: &str)
        ensures
            r@ == self.path_spec(),
    {
        self.path.as_str()
    }

    pub fn cause(&self) -> (r: &SharedlibError)
        ensures
            *r == self.cause_spec(),
    {
        &self.cause
    }

    pub fn description(&self) -> (r: &'static str)
        ensures
            r@ == "The library could not be opened."@,
    {
        "The library could not be opened."
    }

    pub fn message(&self) -> (r: String)
        ensures
            r@ == error_message(SharedlibError::LibraryOpen(*self)),
        decreases *self,
    {
        let mut s = String::from_str("Failed to open the library at ");
        s.append(self.path.as_str());
        s.append(". Cause: ");
        let c = self.cause.message();
        s.append(c.as_str());
        s
    }
}

/// The loader found no export of the given name in an open library.
#[derive(Debug)]
pub struct LibraryFindSymbol {
    symbol: String,
    cause: Box<SharedlibError>,
}

impl LibraryFindSymbol {
    /// The name of the export that was looked for.
    pub closed spec fn symbol_spec(&self) -> Seq<char> {
        self.symbol@
    }

    /// The failure that the loader reported.
    pub closed spec fn cause_spec(&self) -> SharedlibError {
        *self.cause
    }

    pub fn new(symbol: String, cause: SharedlibError) -> (r: Self)
        ensures
            r.symbol_spec() == symbol@,
            r.cause_spec() == cause,
    {
        LibraryFindSymbol { symbol, cause: Box::new(cause) }
    }

    pub fn symbol(&self) -> (r: &str)
        ensures
            r@ == self.symbol_spec(),
    {
        self.symbol.as_str()
    }

    pub fn cause(&self) -> (r: &SharedlibError)
        ensures
            *r == self.cause_spec(),
    {
        &self.cause
    }

    pub fn description(&self) -> (r: &'static str)
        ensures
            r@ == "The symbol could not be found in the library."@,
    {
        "The symbol could not be found in the library."
    }

    pub fn message(&self) -> (r: String)
        ensures
            r@ == error_message(SharedlibError::LibraryFindSymbol(*self)),
        decreases *self,
    {
        let mut s = String::from_str("Failed to find the symbol ");
        s.append(self.symbol.as_str());
        s.append(". Cause: ");
        let c = self.cause.message();
        s.append(c.as_str());
        s
    }
}

/// The loader reported a failure while unloading a library. The library is
/// considered closed all the same.
#[derive(Debug)]
pub struct LibraryClose {
    cause: Box<SharedlibError>,
}

impl LibraryClose {
    /// The failure that the loader reported.
    pub closed spec fn cause_spec(&self) -> SharedlibError {
        *self.cause
    }

    pub fn new(cause: SharedlibError) -> (r: Self)
        ensures
            r.cause_spec() == cause,
    {
        LibraryClose { cause: Box::new(cause) }
    }

    pub fn cause(&self) -> (r: &SharedlibError)
        ensures
            *r == self.cause_spec(),
    {
        &self.cause
    }

    pub fn description(&self) -> (r: &'static str)
        ensures
            r@ == "The library could not be closed."@,
    {
        "The library could not be closed."
    }

    pub fn message(&self) -> (r: String)
        ensures
            r@ == error_message(SharedlibError::LibraryClose(*self)),
        decreases *self,
    {
        let mut s = String::from_str("Failed to close the library. Cause: ");
        let c = self.cause.message();
        s.append(c.as_str());
        s
    }
}

/// An error of the crate: each kind of failure wraps its own type.
#[derive(Debug)]
pub enum SharedlibError {
    LibraryClose(LibraryClose),
    LibraryFindSymbol(LibraryFindSymbol),
    LibraryOpen(LibraryOpen),
    OsError(OsError),
    OsErrorFailure(OsErrorFailure),
}

/// The text of an error: a sentence of its own kind, followed for the three
/// library errors by the text of their cause.
pub closed spec fn error_message(e: SharedlibError) -> Seq<char>
    decreases e,
{
    match e {
        SharedlibError::LibraryClose(c) => "Failed to close the library. Cause: "@ + error_message(
            *c.cause,
        ),
        SharedlibError::LibraryFindSymbol(c) => "Failed to find the symbol "@ + c.symbol@
            + ". Cause: "@ + error_message(*c.cause),
        SharedlibError::LibraryOpen(c) => "Failed to open the library at "@ + c.path@
            + ". Cause: "@ + error_message(*c.cause),
        SharedlibError::OsError(c) => c.message_spec(),
        SharedlibError::OsErrorFailure(c) => c.message_spec(),
    }
}

impl SharedlibError {
    pub fn message(&self) -> (r: String)
        ensures
            r@ == error_message(*self),
        decreases *self,
    {
        match self {
            SharedlibError::LibraryClose(c) => c.message(),
            SharedlibError::LibraryFindSymbol(c) => c.message(),
            SharedlibError::LibraryOpen(c) => c.message(),
            SharedlibError::OsError(c) => c.message(),
            SharedlibError::OsErrorFailure(c) => c.message(),
        }
    }

    pub fn description(&self) -> (r: &'static str)
        ensures
            r@ == match *self {
                SharedlibError::LibraryClose(_) => "The library could not be closed."@,
                SharedlibError::LibraryFindSymbol(_) => "The symbol could not be found in the library."@,
                SharedlibError::LibraryOpen(_) => "The library could not be opened."@,
                SharedlibError::OsError(_) => "A call into the operating system's loader failed."@,
                SharedlibError::OsErrorFailure(_) => "The operating system gave no description of a failure."@,
            },
    {
        match self {
            SharedlibError::LibraryClose(c) => c.description(),
            SharedlibError::LibraryFindSymbol(c) => c.description(),
            SharedlibError::LibraryOpen(c) => c.description(),
            SharedlibError::OsError(c) => c.description(),
            SharedlibError::OsErrorFailure(c) => c.description(),
        }
    }
}

} // verus!
