use std::cell::{Cell, RefCell};
use std::convert::TryInto;
use std::sync::atomic::{AtomicUsize, Ordering};

use magic::cookie::{Cookie, DatabasePaths, Flags, Load, Open, OpenErrorKind};
use magic::ffi::{ApiViolation, CookieError, NativeFunction};
use magic::flags;
use magic::native::Engine;

const PNG_DB: &str = "data/tests/db-images-png";
const PYTHON_DB: &str = "data/tests/db-python";
const SYSTEM_DB: &str = "/usr/share/file/misc/magic.mgc";
const PNG_FIXTURE: &str = "data/tests/rust-logo-128x128-blk.png";
const PNG_DESCRIPTION: &str = "PNG image data, 128 x 128, 8-bit/color RGBA, non-interlaced";
const PNG_PRECOMPILED: &[u8] = b"compiled db-images-png";
const BROKEN_STATUS_DB: &str = "broken-status";
const SILENT_FAILURE_DB: &str = "silent-failure";

const UNSUPPORTED_BIT: i32 = 0x4000_0000;
const EXHAUSTED_BIT: i32 = 0x2000_0000;
const EINVAL: i32 = 22;
const ENOMEM: i32 = 12;
const ENOENT: i32 = 2;

/// Stands for the native engine: a few known databases and fixtures.
#[derive(Debug)]
struct FakeEngine {
    flags: Cell<i32>,
    databases: RefCell<Vec<String>>,
    error: RefCell<Option<String>>,
    errno: Cell<i32>,
}

impl FakeEngine {
    fn fail(&self, message: String, errno: i32) {
        *self.error.borrow_mut() = Some(message);
        self.errno.set(errno);
    }

    fn has(&self, db: &str) -> bool {
        self.databases.borrow().iter().any(|d| d == db || d == SYSTEM_DB)
    }

    fn flag(&self, bit: i32) -> bool {
        self.flags.get() & bit != 0
    }

    /// The databases that `filenames` names, or the status to return.
    fn select(&self, filenames: Option<&str>) -> Result<Vec<String>, i32> {
        let names: Vec<String> = match filenames {
            None => vec![SYSTEM_DB.to_string()],
            Some(joined) => joined.split(':').map(|s| s.to_string()).collect(),
        };
        for name in &names {
            if name == BROKEN_STATUS_DB {
                return Err(7);
            }
            if name == SILENT_FAILURE_DB {
                return Err(-1);
            }
            if name != PNG_DB && name != PYTHON_DB && name != SYSTEM_DB {
                self.fail("could not find any valid magic files!".to_string(), 0);
                return Err(-1);
            }
        }
        Ok(names)
    }

    fn describe_png(&self) -> String {
        if !self.has(PNG_DB) {
            return "data".to_string();
        }
        match (self.flag(flags::MIME_TYPE), self.flag(flags::MIME_ENCODING)) {
            (true, true) => "image/png; charset=binary".to_string(),
            (true, false) => "image/png".to_string(),
            (false, true) => "binary".to_string(),
            (false, false) => PNG_DESCRIPTION.to_string(),
        }
    }

    fn describe_python(&self) -> String {
        let known = self.has(PYTHON_DB);
        match (self.flag(flags::MIME_TYPE), known) {
            (true, true) => "text/x-python".to_string(),
            (true, false) => "text/plain".to_string(),
            (false, true) => "Python script, ASCII text executable".to_string(),
            (false, false) => "ASCII text".to_string(),
        }
    }
}

impl Engine for FakeEngine {
    fn open(flags: i32) -> Result<Self, i32> {
        if flags & UNSUPPORTED_BIT != 0 {
            return Err(EINVAL);
        }
        if flags & EXHAUSTED_BIT != 0 {
            return Err(ENOMEM);
        }
        Ok(FakeEngine {
            flags: Cell::new(flags),
            databases: RefCell::new(Vec::new()),
            error: RefCell::new(None),
            errno: Cell::new(0),
        })
    }

    fn error(&self) -> Option<String> {
        self.error.borrow().clone()
    }

    fn errno(&self) -> i32 {
        self.errno.get()
    }

    fn file(&self, filename: &str) -> Option<String> {
        if filename == PNG_FIXTURE || filename == "rust-logo-128x128-blk.png" {
            Some(self.describe_png())
        } else if filename == "silent" {
            None
        } else {
            self.fail(
                format!("cannot open `{}' (No such file or directory)", filename),
                ENOENT,
            );
            None
        }
    }

    fn buffer(&self, buffer: &[u8]) -> Option<String> {
        if buffer.starts_with(b"#!/usr/bin/env python") {
            Some(self.describe_python())
        } else {
            Some("data".to_string())
        }
    }

    fn setflags(&self, flags: i32) -> i32 {
        if flags & flags::PRESERVE_ATIME != 0 {
            return -1;
        }
        self.flags.set(flags);
        0
    }

    fn check(&self, filenames: Option<&str>) -> i32 {
        match self.select(filenames) {
            Ok(_) => 0,
            Err(status) => status,
        }
    }

    fn compile(&self, filenames: Option<&str>) -> i32 {
        self.check(filenames)
    }

    fn list(&self, filenames: Option<&str>) -> i32 {
        self.check(filenames)
    }

    fn load(&self, filenames: Option<&str>) -> i32 {
        match self.select(filenames) {
            Ok(names) => {
                *self.databases.borrow_mut() = names;
                0
            }
            Err(status) => status,
        }
    }

    fn load_buffers(&self, buffers: &[&[u8]]) -> i32 {
        if buffers.iter().all(|b| *b == PNG_PRECOMPILED) {
            *self.databases.borrow_mut() = vec![PNG_DB.to_string()];
            0
        } else {
            self.fail("bad magic file".to_string(), 0);
            -1
        }
    }
}

static CLOSES: AtomicUsize = AtomicUsize::new(0);

/// A fake engine that counts how often a native handle is released.
#[derive(Debug)]
struct CountingEngine(FakeEngine);

impl Drop for CountingEngine {
    fn drop(&mut self) {
        CLOSES.fetch_add(1, Ordering::SeqCst);
    }
}

impl Engine for CountingEngine {
    fn open(flags: i32) -> Result<Self, i32> {
        FakeEngine::open(flags).map(CountingEngine)
    }
    fn error(&self) -> Option<String> {
        self.0.error()
    }
    fn errno(&self) -> i32 {
        self.0.errno()
    }
    fn file(&self, filename: &str) -> Option<String> {
        self.0.file(filename)
    }
    fn buffer(&self, buffer: &[u8]) -> Option<String> {
        self.0.buffer(buffer)
    }
    fn setflags(&self, flags: i32) -> i32 {
        self.0.setflags(flags)
    }
    fn check(&self, filenames: Option<&str>) -> i32 {
        self.0.check(filenames)
    }
    fn compile(&self, filenames: Option<&str>) -> i32 {
        self.0.compile(filenames)
    }
    fn list(&self, filenames: Option<&str>) -> i32 {
        self.0.list(filenames)
    }
    fn load(&self, filenames: Option<&str>) -> i32 {
        self.0.load(filenames)
    }
    fn load_buffers(&self, buffers: &[&[u8]]) -> i32 {
        self.0.load_buffers(buffers)
    }
}

fn open(bits: i32) -> Cookie<Open, FakeEngine> {
    Cookie::open(Flags::from_bits_retain(bits)).unwrap()
}

fn paths(list: &[&str]) -> DatabasePaths {
    DatabasePaths::new(list).unwrap()
}

fn explanation(source: &CookieError) -> String {
    match source {
        CookieError::Error(e) => e.explanation.clone(),
        other => panic!("unexpected {:?}", other),
    }
}

#[test]
fn lib_file() {
    let cookie = open(flags::ERROR);
    let databases = &[PNG_DB].try_into().unwrap();
    let cookie = cookie.load(databases).unwrap();

    let path = PNG_FIXTURE;

    assert_eq!(cookie.file(path).ok().unwrap(), PNG_DESCRIPTION);

    cookie.set_flags(Flags::from_bits_retain(flags::MIME_TYPE)).unwrap();
    assert_eq!(cookie.file(path).ok().unwrap(), "image/png");

    cookie
        .set_flags(
            Flags::from_bits_retain(flags::MIME_TYPE) | Flags::from_bits_retain(flags::MIME_ENCODING),
        )
        .unwrap();
    assert_eq!(cookie.file(path).ok().unwrap(), "image/png; charset=binary");
}

#[test]
fn lib_buffer() {
    let cookie = open(flags::ERROR);
    let databases = &[PYTHON_DB].try_into().unwrap();
    let cookie = cookie.load(databases).unwrap();

    let s = b"#!/usr/bin/env python\nprint('Hello, world!')";
    assert_eq!(
        cookie.buffer(s).ok().unwrap(),
        "Python script, ASCII text executable"
    );

    cookie.set_flags(Flags::from_bits_retain(flags::MIME_TYPE)).unwrap();
    assert_eq!(cookie.buffer(s).ok().unwrap(), "text/x-python");
}

#[test]
fn lib_file_error() {
    let cookie = open(flags::ERROR);
    let cookie = cookie.load(&Default::default()).unwrap();

    let ret = cookie.file("non-existent_file.txt");
    assert!(ret.is_err());
}

#[test]
fn load_default() {
    let cookie = open(flags::ERROR);
    assert!(cookie.load(&Default::default()).is_ok());
}

#[test]
fn load_one() {
    let cookie = open(flags::ERROR);
    let databases = &[PNG_DB].try_into().unwrap();
    assert!(cookie.load(databases).is_ok());
}

#[test]
fn load_multiple() {
    let cookie = open(flags::ERROR);
    let databases = &[PNG_DB, PYTHON_DB].try_into().unwrap();
    assert!(cookie.load(databases).is_ok());
}

#[test]
fn load_buffers_file() {
    let cookie = open(flags::ERROR);
    let buffers = vec![PNG_PRECOMPILED];
    let cookie = cookie.load_buffers(&buffers).unwrap();

    let path = PNG_FIXTURE;
    assert_eq!(cookie.file(path).ok().unwrap(), PNG_DESCRIPTION);
}

#[test]
fn magic_file() {
    let cookie = open(0);
    let cookie = cookie.load(&paths(&[SYSTEM_DB])).unwrap();

    assert_eq!(
        cookie.file("rust-logo-128x128-blk.png").unwrap(),
        PNG_DESCRIPTION
    );

    cookie.set_flags(Flags::from_bits_retain(flags::MIME_TYPE)).unwrap();
    assert_eq!(cookie.file("rust-logo-128x128-blk.png").unwrap(), "image/png");

    cookie
        .set_flags(
            Flags::from_bits_retain(flags::MIME_TYPE) | Flags::from_bits_retain(flags::MIME_ENCODING),
        )
        .unwrap();
    assert_eq!(
        cookie.file("rust-logo-128x128-blk.png").unwrap(),
        "image/png; charset=binary"
    );
}

#[test]
fn magic_buffer() {
    let cookie = open(0);
    let cookie = cookie.load(&paths(&[SYSTEM_DB])).unwrap();

    let s = "#!/usr/bin/env python3\nprint('Hello, world!')";
    assert_eq!(
        cookie.buffer(s.as_bytes()).unwrap(),
        "Python script, ASCII text executable"
    );

    cookie.set_flags(Flags::from_bits_retain(flags::MIME_TYPE)).unwrap();
    assert_eq!(cookie.buffer(s.as_bytes()).unwrap(), "text/x-python");
}

#[test]
fn magic_file_error() {
    let cookie = open(0);
    let cookie = cookie.load(&paths(&[SYSTEM_DB])).unwrap();

    let ret = cookie.file("non-existent_file.txt");
    assert!(ret.is_err());
    let err = ret.unwrap_err();
    assert_eq!(err.function(), NativeFunction::File);
    assert_eq!(
        explanation(err.source()),
        "cannot open `non-existent_file.txt' (No such file or directory)"
    );
}

#[test]
fn missing_file_reports_errno() {
    let cookie = open(flags::ERROR).load(&Default::default()).unwrap();
    match cookie.file("missing").unwrap_err().source() {
        CookieError::Error(e) => assert_eq!(e.errno, Some(ENOENT)),
        other => panic!("unexpected {:?}", other),
    }
    // the handle stays usable after a reported failure
    assert_eq!(cookie.file(PNG_FIXTURE).unwrap(), PNG_DESCRIPTION);
}

#[test]
fn failure_without_side_channel_is_violation() {
    let cookie = open(0).load(&Default::default()).unwrap();
    let err = cookie.file("silent").unwrap_err();
    match err.source() {
        CookieError::ApiViolation(v) => assert_eq!(*v, ApiViolation::MissingError(NativeFunction::File)),
        other => panic!("unexpected {:?}", other),
    }
}

#[test]
fn reload_replaces_databases() {
    let cookie = open(0).load(&paths(&[PNG_DB])).unwrap();
    assert_eq!(cookie.file(PNG_FIXTURE).unwrap(), PNG_DESCRIPTION);
    let script = b"#!/usr/bin/env python\nprint(1)";
    assert_eq!(cookie.buffer(script).unwrap(), "ASCII text");

    let cookie = cookie.load(&paths(&[PYTHON_DB])).unwrap();
    assert_eq!(cookie.file(PNG_FIXTURE).unwrap(), "data");
    assert_eq!(
        cookie.buffer(script).unwrap(),
        "Python script, ASCII text executable"
    );
}

#[test]
fn failed_load_returns_cookie() {
    let cookie = open(0);
    let err = cookie.load(&paths(&["no/such/db"])).err().unwrap();
    assert_eq!(err.function(), NativeFunction::Load);
    assert_eq!(
        explanation(err.source()),
        "could not find any valid magic files!"
    );
    let cookie = err.cookie();
    let cookie = cookie.load(&paths(&[PNG_DB])).unwrap();
    assert_eq!(cookie.file(PNG_FIXTURE).unwrap(), PNG_DESCRIPTION);
}

#[test]
fn failed_load_buffers_returns_cookie() {
    let cookie = open(0).load(&paths(&[PYTHON_DB])).unwrap();
    let bad: &[u8] = b"not a database";
    let err = cookie.load_buffers(&[bad]).err().unwrap();
    assert_eq!(err.function(), NativeFunction::LoadBuffers);
    let cookie: Cookie<Load, FakeEngine> = err.cookie();
    assert_eq!(
        cookie.buffer(b"#!/usr/bin/env python\n").unwrap(),
        "Python script, ASCII text executable"
    );
}

#[test]
fn unexpected_status_is_violation() {
    let cookie = open(0);
    let err = cookie.load(&paths(&[BROKEN_STATUS_DB])).err().unwrap();
    match err.source() {
        CookieError::ApiViolation(v) => {
            assert_eq!(*v, ApiViolation::UnexpectedReturnValue(NativeFunction::Load, 7))
        }
        other => panic!("unexpected {:?}", other),
    }
    let cookie = err.cookie();
    match cookie.check(&paths(&[SILENT_FAILURE_DB])).unwrap_err().source() {
        CookieError::ApiViolation(v) => {
            assert_eq!(*v, ApiViolation::MissingError(NativeFunction::Check))
        }
        other => panic!("unexpected {:?}", other),
    }
}

#[test]
fn check_compile_list() {
    let cookie = open(0);
    let databases = paths(&[PNG_DB, PYTHON_DB]);
    assert!(cookie.check(&databases).is_ok());
    assert!(cookie.compile(&databases).is_ok());
    assert!(cookie.list(&Default::default()).is_ok());
    let err = cookie.compile(&paths(&["missing"])).unwrap_err();
    assert_eq!(err.function(), NativeFunction::Compile);
    let err = cookie.list(&paths(&["missing"])).unwrap_err();
    assert_eq!(err.function(), NativeFunction::List);
}

#[test]
fn set_flags_rejection_names_preserve_atime() {
    let cookie = open(0);
    let err = cookie
        .set_flags(Flags::from_bits_retain(flags::PRESERVE_ATIME | flags::MIME_TYPE))
        .unwrap_err();
    assert_eq!(err.flags(), Flags::from_bits_retain(flags::PRESERVE_ATIME));
    assert_eq!(err.source().flags, flags::PRESERVE_ATIME | flags::MIME_TYPE);
}

#[test]
fn open_with_unsupported_flags() {
    let err = Cookie::<Open, FakeEngine>::open(Flags::from_bits_retain(UNSUPPORTED_BIT)).err().unwrap();
    assert_eq!(err.kind(), OpenErrorKind::UnsupportedFlags);
    assert_eq!(err.flags().bits(), UNSUPPORTED_BIT);
    assert_eq!(err.source().errno(), EINVAL);
}

#[test]
fn open_with_other_error() {
    let err = Cookie::<Open, FakeEngine>::open(Flags::from_bits_retain(EXHAUSTED_BIT)).err().unwrap();
    assert_eq!(err.kind(), OpenErrorKind::Errno);
    assert_eq!(err.source().flags, EXHAUSTED_BIT);
    assert_eq!(err.source().errno(), ENOMEM);
}

#[test]
fn handle_closed_once() {
    let start = CLOSES.load(Ordering::SeqCst);

    let cookie: Cookie<Open, CountingEngine> = Cookie::open(Flags::empty()).unwrap();
    let cookie = cookie.load(&paths(&["no/such/db"])).err().unwrap().cookie();
    let cookie = cookie.load(&paths(&[PNG_DB])).unwrap();
    let cookie = cookie.load(&paths(&[PYTHON_DB])).unwrap();
    for _ in 0..3 {
        let _ = cookie.file(PNG_FIXTURE);
        let _ = cookie.file("missing");
    }
    assert_eq!(CLOSES.load(Ordering::SeqCst), start);
    drop(cookie);
    assert_eq!(CLOSES.load(Ordering::SeqCst), start + 1);

    let cookie: Cookie<Open, CountingEngine> = Cookie::open(Flags::empty()).unwrap();
    drop(cookie);
    assert_eq!(CLOSES.load(Ordering::SeqCst), start + 2);

    let cookie: Cookie<Open, CountingEngine> = Cookie::open(Flags::empty()).unwrap();
    let err = cookie.load(&paths(&["no/such/db"])).err().unwrap();
    drop(err);
    assert_eq!(CLOSES.load(Ordering::SeqCst), start + 3);

    let failed = Cookie::<Open, CountingEngine>::open(Flags::from_bits_retain(UNSUPPORTED_BIT));
    assert!(failed.is_err());
    assert_eq!(CLOSES.load(Ordering::SeqCst), start + 3);
}
