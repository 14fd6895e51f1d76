use sharedlib::loader::close_outcome;
use sharedlib::loader::find_outcome;
use sharedlib::loader::loader_failure;
use sharedlib::loader::open_outcome;
use sharedlib::LibraryClose;
use sharedlib::LibraryFindSymbol;
use sharedlib::LibraryOpen;
use sharedlib::OsError;
use sharedlib::OsErrorFailure;
use sharedlib::SharedlibError;

#[test]
fn os_error_failure_message() {
    let e = OsErrorFailure::new(String::from("dlclose"));
    assert_eq!(e.function_called(), "dlclose");
    assert_eq!(
        e.message(),
        "A call to dlclose failed, and the operating system gave no description."
    );
}

#[test]
fn os_error_message() {
    let e = OsError::new(String::from("bad ELF"), String::from("dlopen"));
    assert_eq!(e.message(), "A call to dlopen failed: bad ELF");
    assert_eq!(e.cause(), "bad ELF");
}

#[test]
fn library_close_message_includes_cause() {
    let cause = SharedlibError::OsErrorFailure(OsErrorFailure::new(String::from("dlclose")));
    let e = LibraryClose::new(cause);
    assert_eq!(
        e.message(),
        "Failed to close the library. Cause: A call to dlclose failed, and the operating system gave no description."
    );
    assert!(matches!(e.cause(), SharedlibError::OsErrorFailure(_)));
    assert_eq!(e.description(), "The library could not be closed.");
}

#[test]
fn library_open_and_find_messages() {
    let os = SharedlibError::OsError(OsError::new(String::from("not found"), String::from("dlopen")));
    let e = SharedlibError::LibraryOpen(LibraryOpen::new(String::from("m"), os));
    assert_eq!(
        e.message(),
        "Failed to open the library at m. Cause: A call to dlopen failed: not found"
    );
    assert_eq!(e.description(), "The library could not be opened.");
    let os = SharedlibError::OsErrorFailure(OsErrorFailure::new(String::from("dlsym")));
    let e = SharedlibError::LibraryFindSymbol(LibraryFindSymbol::new(String::from("ceil"), os));
    assert_eq!(
        e.message(),
        "Failed to find the symbol ceil. Cause: A call to dlsym failed, and the operating system gave no description."
    );
    assert_eq!(e.description(), "The symbol could not be found in the library.");
}

#[test]
fn loader_failure_picks_the_kind() {
    assert!(matches!(
        loader_failure("dlopen", Some(String::from("x"))),
        SharedlibError::OsError(_)
    ));
    assert!(matches!(loader_failure("dlopen", None), SharedlibError::OsErrorFailure(_)));
}

#[test]
fn outcomes_of_the_loader() {
    assert_eq!(open_outcome("libm.so.6", 9, None).ok(), Some(9));
    assert!(matches!(open_outcome("m", 0, None), Err(SharedlibError::LibraryOpen(_))));
    assert_eq!(find_outcome("ceil", 11, None).ok(), Some(11));
    assert!(matches!(find_outcome("ceil", 0, None), Err(SharedlibError::LibraryFindSymbol(_))));
    assert!(close_outcome(0, None).is_ok());
    match close_outcome(-1, Some(String::from("busy"))) {
        Err(SharedlibError::LibraryClose(e)) => match e.cause() {
            SharedlibError::OsError(o) => {
                assert_eq!(o.function_called(), "dlclose");
                assert_eq!(o.cause(), "busy");
            }
            _ => panic!("the cause is not the loader's message"),
        },
        _ => panic!("a failed close was not reported"),
    }
}
