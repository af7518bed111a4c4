use vstd::prelude::*;
use crate::ffi;
use crate::ffi::{NativeFunction, reported_failure, status_failure};
use crate::flags;
use crate::native::Engine;

pub use crate::database::{DatabasePaths, InvalidDatabasePathError};
pub use crate::flags::Flags;

verus! {

/// The state of a cookie that was opened and has no database loaded.
#[derive(Debug)]
pub struct Open;

/// The state of a cookie with loaded databases.
#[derive(Debug)]
pub struct Load;

/// The states of a cookie.
pub trait State: crate::sealed::Sealed {}

impl State for Open {}

impl State for Load {}

/// A configured analysis handle in state `S`, over the engine `E`.
///
/// The cookie owns the engine value and with it the native handle. Queries are
/// methods of `Cookie<Load, E>` alone: a cookie without databases cannot be
/// asked anything.
#[derive(Debug)]
pub struct Cookie<S: State, E: Engine> {
    cookie: E,
    marker: core::marker::PhantomData<S>,
}

/// An operation on an open cookie failed.
#[derive(Debug)]
pub struct Error {
    function: NativeFunction,
    source: ffi::CookieError,
}

/// Loading databases failed; the cookie is handed back unchanged.
#[derive(Debug)]
pub struct LoadError<S: State, E: Engine> {
    function: NativeFunction,
    source: ffi::CookieError,
    cookie: Cookie<S, E>,
}

/// Why a cookie could not be opened.
#[derive(Clone, Copy, Debug, PartialEq, Eq, Structural)]
pub enum OpenErrorKind {
    /// The platform does not support the combination of flags.
    UnsupportedFlags,
    /// Another error of the operating system.
    Errno,
}

/// A cookie could not be opened.
#[derive(Debug)]
pub struct OpenError {
    flags: Flags,
    kind: OpenErrorKind,
    source: ffi::OpenError,
}

/// The engine rejected a set of flags.
#[derive(Debug)]
pub struct SetFlagsError {
    flags: Flags,
    source: ffi::SetFlagsError,
}

impl<S: State, E: Engine> Cookie<S, E> {
    /// The engine value, and with it the native handle, that the cookie owns.
    pub closed spec fn spec_engine(&self) -> E {
        self.cookie
    }
}

impl Error {
    pub closed spec fn spec_function(&self) -> NativeFunction {
        self.function
    }

    pub closed spec fn spec_source(&self) -> ffi::CookieError {
        self.source
    }

    /// The native entry point that failed.
    pub fn function(&self) -> (r: NativeFunction)
        ensures
            r == self.spec_function(),
    {
        self.function
    }

    /// What the native layer reported.
    pub fn source(&self) -> (r: &ffi::CookieError)
        ensures
            *r == self.spec_source(),
    {
        &self.source
    }
}

impl<S: State, E: Engine> LoadError<S, E> {
    pub closed spec fn spec_function(&self) -> NativeFunction {
        self.function
    }

    pub closed spec fn spec_source(&self) -> ffi::CookieError {
        self.source
    }

    pub closed spec fn spec_cookie(&self) -> Cookie<S, E> {
        self.cookie
    }

    /// The native entry point that failed.
    pub fn function(&self) -> (r: NativeFunction)
        ensures
            r == self.spec_function(),
    {
        self.function
    }

    /// What the native layer reported.
    pub fn source(&self) -> (r: &ffi::CookieError)
        ensures
            *r == self.spec_source(),
    {
        &self.source
    }

    /// The cookie on which loading failed.
    pub fn cookie(self) -> (r: Cookie<S, E>)
        ensures
            r == self.spec_cookie(),
    {
        self.cookie
    }
}

impl<E: Engine> Cookie<Open, E> {
    /// Opens a cookie configured with `flags`.
    pub fn open(flags: Flags) -> (r: Result<Cookie<Open, E>, OpenError>)
        ensures
            r is Err ==> r->Err_0.spec_flags() == flags && r->Err_0.spec_source().flags
                == flags.spec_bits() && (r->Err_0.spec_kind() == OpenErrorKind::UnsupportedFlags
                <==> invalid_input_of(r->Err_0.spec_source().errno)),
    {
        Self::opened(flags, ffi::open::<E>(flags.bits()))
    }

    /// The cookie that owns the handle the native layer opened, or the failure
    /// to open it: unsupported flags exactly where the platform files the error
    /// number under invalid input.
    fn opened(flags: Flags, res: Result<E, ffi::OpenError>) -> (r: Result<
        Cookie<Open, E>,
        OpenError,
    >)
        ensures
            match res {
                Ok(c) => r is Ok && r->Ok_0.spec_engine() == c,
                Err(source) => r is Err && r->Err_0.spec_flags() == flags
                    && r->Err_0.spec_source() == source && (r->Err_0.spec_kind()
                    == OpenErrorKind::UnsupportedFlags <==> invalid_input_of(source.errno)),
            },
    {
        match res {
            Ok(cookie) => Ok(Cookie { cookie, marker: core::marker::PhantomData }),
            Err(source) => {
                let kind = if is_invalid_input(source.errno) {
                    OpenErrorKind::UnsupportedFlags
                } else {
                    OpenErrorKind::Errno
                };
                Err(OpenError { flags, kind, source })
            },
        }
    }
}

impl<E: Engine> Cookie<Load, E> {
    /// Describes the file at `filename` with the loaded databases.
    pub fn file(&self, filename: &str) -> (r: Result<String, Error>)
        requires
            !filename@.contains(crate::database::TERMINATOR),
        ensures
            r is Err ==> r->Err_0.spec_function() == NativeFunction::File
                && reported_failure(r->Err_0.spec_source(), NativeFunction::File),
    {
        match ffi::file(&self.cookie, filename) {
            Ok(text) => Ok(text),
            Err(source) => Err(Error { function: NativeFunction::File, source }),
        }
    }

    /// Describes the contents of `buffer` with the loaded databases.
    pub fn buffer(&self, buffer: &[u8]) -> (r: Result<String, Error>)
        ensures
            r is Err ==> r->Err_0.spec_function() == NativeFunction::Buffer
                && reported_failure(r->Err_0.spec_source(), NativeFunction::Buffer),
    {
        match ffi::buffer(&self.cookie, buffer) {
            Ok(text) => Ok(text),
            Err(source) => Err(Error { function: NativeFunction::Buffer, source }),
        }
    }
}

impl<S: State, E: Engine> Cookie<S, E> {
    /// Loads the databases that `filenames` selects, replacing those loaded
    /// before. On failure the cookie comes back unchanged in the error.
    pub fn load(self, filenames: &DatabasePaths) -> (r: Result<Cookie<Load, E>, LoadError<S, E>>)
        ensures
            match r {
                Ok(c) => c.spec_engine() == self.spec_engine(),
                Err(e) => e.spec_cookie() == self && e.spec_function() == NativeFunction::Load
                    && status_failure(e.spec_source(), NativeFunction::Load),
            },
    {
        match ffi::load(&self.cookie, filenames.filenames()) {
            Err(source) => Err(LoadError { function: NativeFunction::Load, source, cookie: self }),
            Ok(()) => Ok(Cookie { cookie: self.cookie, marker: core::marker::PhantomData }),
        }
    }

    /// Loads compiled databases from memory, replacing those loaded before. On
    /// failure the cookie comes back unchanged in the error.
    pub fn load_buffers(self, buffers: &[&[u8]]) -> (r: Result<Cookie<Load, E>, LoadError<S, E>>)
        ensures
            match r {
                Ok(c) => c.spec_engine() == self.spec_engine(),
                Err(e) => e.spec_cookie() == self && e.spec_function() == NativeFunction::LoadBuffers
                    && status_failure(e.spec_source(), NativeFunction::LoadBuffers),
            },
    {
        match ffi::load_buffers(&self.cookie, buffers) {
            Err(source) => Err(
                LoadError { function: NativeFunction::LoadBuffers, source, cookie: self },
            ),
            Ok(()) => Ok(Cookie { cookie: self.cookie, marker: core::marker::PhantomData }),
        }
    }

    /// Replaces the cookie's flags. The engine gives no reason for a rejection;
    /// the error names the one flag documented as possibly unsupported.
    pub fn set_flags(&self, flags: Flags) -> (r: Result<(), SetFlagsError>)
        ensures
            r is Err ==> r->Err_0.spec_flags() == Flags::spec_from_bits(flags::PRESERVE_ATIME)
                && r->Err_0.spec_source() == (ffi::SetFlagsError { flags: flags.spec_bits() }),
    {
        match ffi::setflags(&self.cookie, flags.bits()) {
            Err(source) => Err(
                SetFlagsError { flags: Flags::from_bits_retain(flags::PRESERVE_ATIME), source },
            ),
            Ok(()) => Ok(()),
        }
    }

    /// Compiles the databases that `filenames` selects.
    pub fn compile(&self, filenames: &DatabasePaths) -> (r: Result<(), Error>)
        ensures
            r is Err ==> r->Err_0.spec_function() == NativeFunction::Compile
                && status_failure(r->Err_0.spec_source(), NativeFunction::Compile),
    {
        match ffi::compile(&self.cookie, filenames.filenames()) {
            Err(source) => Err(Error { function: NativeFunction::Compile, source }),
            Ok(()) => Ok(()),
        }
    }

    /// Checks the databases that `filenames` selects.
    pub fn check(&self, filenames: &DatabasePaths) -> (r: Result<(), Error>)
        ensures
            r is Err ==> r->Err_0.spec_function() == NativeFunction::Check
                && status_failure(r->Err_0.spec_source(), NativeFunction::Check),
    {
        match ffi::check(&self.cookie, filenames.filenames()) {
            Err(source) => Err(Error { function: NativeFunction::Check, source }),
            Ok(()) => Ok(()),
        }
    }

    /// Lists the entries of the databases that `filenames` selects.
    pub fn list(&self, filenames: &DatabasePaths) -> (r: Result<(), Error>)
        ensures
            r is Err ==> r->Err_0.spec_function() == NativeFunction::List
                && status_failure(r->Err_0.spec_source(), NativeFunction::List),
    {
        match ffi::list(&self.cookie, filenames.filenames()) {
            Err(source) => Err(Error { function: NativeFunction::List, source }),
            Ok(()) => Ok(()),
        }
    }
}

impl SetFlagsError {
    pub closed spec fn spec_flags(&self) -> Flags {
        self.flags
    }

    pub closed spec fn spec_source(&self) -> ffi::SetFlagsError {
        self.source
    }

    /// The flag named as rejected.
    pub fn flags(&self) -> (r: Flags)
        ensures
            r == self.spec_flags(),
    {
        self.flags
    }

    /// What the native layer reported.
    pub fn source(&self) -> (r: ffi::SetFlagsError)
        ensures
            r == self.spec_source(),
    {
        self.source
    }
}

impl OpenError {
    pub closed spec fn spec_flags(&self) -> Flags {
        self.flags
    }

    pub closed spec fn spec_kind(&self) -> OpenErrorKind {
        self.kind
    }

    pub closed spec fn spec_source(&self) -> ffi::OpenError {
        self.source
    }

    /// The flags that the cookie was to be opened with.
    pub fn flags(&self) -> (r: Flags)
        ensures
            r == self.spec_flags(),
    {
        self.flags
    }

    /// Whether the flags were unsupported or another error occurred.
    pub fn kind(&self) -> (r: OpenErrorKind)
        ensures
            r == self.spec_kind(),
    {
        self.kind
    }

    /// What the native layer reported.
    pub fn source(&self) -> (r: ffi::OpenError)
        ensures
            r == self.spec_source(),
    {
        self.source
    }
}

/// Whether the target's standard library files the operating system's error
/// number `errno` under `std::io::ErrorKind::InvalidInput`: a fixed mapping of
/// each target (on Unix, `EINVAL` alone).
pub uninterp spec fn invalid_input_of(errno: i32) -> bool;

/// Relies on `std::io::Error::kind`, of the error made by
/// `std::io::Error::from_raw_os_error`: whether the platform files the error
/// number `errno` under `InvalidInput`. The mapping depends on the number alone.
#[verifier::external_body]
fn is_invalid_input(errno: i32) -> (r: bool)
    ensures
        r == invalid_input_of(errno),
{
    matches!(std::io::Error::from_raw_os_error(errno).kind(), std::io::ErrorKind::InvalidInput)
}

} // verus!
