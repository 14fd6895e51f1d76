//! Loading of native shared libraries, with a choice of how long the
//! symbols taken from a library stay valid.
//!
//! The operating system's loader is reached by the caller; this crate holds
//! the rules around it: how a loader outcome becomes a handle, an address or
//! a typed error, how a symbol name is made ready for the loader, and the
//! three ownership strategies that tie a symbol to its library.
pub mod error;
pub mod library;
pub mod loader;
pub mod name;
pub mod shared;
pub mod symbol;

pub use error::LibraryClose;
pub use error::LibraryFindSymbol;
pub use error::LibraryOpen;
pub use error::OsError;
pub use error::OsErrorFailure;
pub use error::SharedlibError;
pub use error::SharedlibResult;
pub use library::Lib;
pub use library::LibUnsafe;
pub use name::null_terminate;
pub use shared::DataArc;
pub use shared::DataRc;
pub use shared::DataTracked;
pub use shared::FuncArc;
pub use shared::FuncRc;
pub use shared::FuncTracked;
pub use shared::LibArc;
pub use shared::LibRc;
pub use shared::LibTracked;
pub use shared::SharedLibrary;
pub use symbol::Data;
pub use symbol::Func;
pub use symbol::Symbol;
