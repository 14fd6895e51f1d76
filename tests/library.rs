use sharedlib::Lib;
use sharedlib::LibArc;
use sharedlib::LibRc;
use sharedlib::LibUnsafe;
use sharedlib::SharedlibError;
use sharedlib::Symbol;

const LIBM: &str = "libm.so.6";

// Handles and addresses as the system loader might hand them out.
const HANDLE: usize = 0x5555_0000;
const CEIL_ADDRESS: usize = 0x7f00_1000;

fn ceil_fn(_address: usize) -> fn(f64) -> f64 {
    f64::ceil
}

#[test]
fn new_libm() {
    Lib::new(LIBM, HANDLE, None).unwrap();
}

#[test]
fn new_m() {
    let refusal = String::from("m: cannot open shared object file: No such file or directory");
    Lib::new("m", 0, Some(refusal)).err().unwrap();
}

#[test]
fn fails_new_kernel23() {
    Lib::new("kernel23", 0, None).err().unwrap();
}

#[test]
fn libm_ceil() {
    let lib = Lib::new(LIBM, HANDLE, None).unwrap();
    let ceil = lib.find_func("ceil", CEIL_ADDRESS, None, ceil_fn).unwrap();
    assert_eq!(ceil.get()(0.45), 1.0);
}

#[test]
fn libm_ceil0() {
    let lib = Lib::new(LIBM, HANDLE, None).unwrap();
    let ceil = lib.find_func("ceil\0", CEIL_ADDRESS, None, ceil_fn).unwrap();
    assert_eq!(ceil.get()(0.45), 1.0);
}

#[test]
fn open_keeps_the_handle() {
    let lib = Lib::new(LIBM, HANDLE, None).unwrap();
    assert_eq!(lib.inner().handle(), HANDLE);
    let lib = LibUnsafe::new(LIBM, 7, None).unwrap();
    assert_eq!(lib.handle(), 7);
}

#[test]
fn open_refusal_names_the_path() {
    let refusal = String::from("m: cannot open shared object file");
    match Lib::new("m", 0, Some(refusal)) {
        Err(SharedlibError::LibraryOpen(e)) => {
            assert_eq!(e.path(), "m");
            match e.cause() {
                SharedlibError::OsError(o) => {
                    assert_eq!(o.cause(), "m: cannot open shared object file");
                    assert_eq!(o.function_called(), "dlopen");
                }
                _ => panic!("the cause is not the loader's message"),
            }
        }
        _ => panic!("a null handle was accepted"),
    }
}

#[test]
fn absent_symbol_is_library_find_symbol() {
    let lib = Lib::new(LIBM, HANDLE, None).unwrap();
    let r = lib.find_func("no_such_export", 0, Some(String::from("undefined symbol")), ceil_fn);
    match r {
        Err(SharedlibError::LibraryFindSymbol(e)) => {
            assert_eq!(e.symbol(), "no_such_export");
            assert!(matches!(e.cause(), SharedlibError::OsError(_)));
        }
        _ => panic!("a null address was accepted"),
    }
}

#[test]
fn absent_symbol_without_message_names_dlsym() {
    let lib = LibUnsafe::new(LIBM, HANDLE, None).unwrap();
    let r = lib.find_data("errno_missing", 0, None, |a: usize| a);
    match r {
        Err(SharedlibError::LibraryFindSymbol(e)) => match e.cause() {
            SharedlibError::OsErrorFailure(o) => assert_eq!(o.function_called(), "dlsym"),
            _ => panic!("the cause does not name the call"),
        },
        _ => panic!("a null address was accepted"),
    }
}

#[test]
fn convert_receives_the_address() {
    let lib = LibUnsafe::new(LIBM, HANDLE, None).unwrap();
    let a = lib.find_func("ceil", CEIL_ADDRESS, None, |a: usize| a + 1).unwrap();
    assert_eq!(a, CEIL_ADDRESS + 1);
}

#[test]
fn scope_bound_data_and_func_know_their_library() {
    let value: u32 = 42;
    let lib = Lib::new(LIBM, HANDLE, None).unwrap();
    let data = lib.find_data("signgam", 0x7f00_2000, None, |_a: usize| &value).unwrap();
    assert_eq!(*data.get(), 42);
    assert_eq!(data.library().inner().handle(), HANDLE);
    let f = lib.find_func("ceil", CEIL_ADDRESS, None, ceil_fn).unwrap();
    assert_eq!(f.library().inner().handle(), HANDLE);
}

#[test]
fn rc_symbols_share_the_library() {
    let lib = LibRc::new(LIBM, HANDLE, None).unwrap();
    let copy = lib.clone();
    let ceil = copy.find_func("ceil", CEIL_ADDRESS, None, ceil_fn).unwrap();
    drop(copy);
    drop(lib);
    assert_eq!(ceil.library().handle(), HANDLE);
    assert_eq!(ceil.get()(2.5), 3.0);
}

#[test]
fn arc_symbols_share_the_library() {
    let lib = LibArc::new(LIBM, HANDLE, None).unwrap();
    let data = lib.share().find_data("signgam", 0x7f00_2000, None, |a: usize| a).unwrap();
    drop(lib);
    assert_eq!(data.library().handle(), HANDLE);
    assert_eq!(data.get(), 0x7f00_2000);
}

#[test]
fn rc_open_and_find_failures() {
    assert!(matches!(LibRc::new("m", 0, None), Err(SharedlibError::LibraryOpen(_))));
    let lib = LibRc::new(LIBM, HANDLE, None).unwrap();
    let r = lib.find_func("nothing", 0, None, ceil_fn);
    assert!(matches!(r, Err(SharedlibError::LibraryFindSymbol(_))));
}
