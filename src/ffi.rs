use vstd::prelude::*;
use crate::native::{Engine, native_selection};

verus! {

/// A native entry point, named in errors for diagnostics.
#[derive(Clone, Copy, Debug, PartialEq, Eq, Structural)]
pub enum NativeFunction {
    Open,
    File,
    Buffer,
    SetFlags,
    Check,
    Compile,
    List,
    Load,
    LoadBuffers,
}

impl NativeFunction {
    /// The name of the native entry point.
    pub open spec fn spec_name(self) -> Seq<char> {
        match self {
            NativeFunction::Open => "magic_open"@,
            NativeFunction::File => "magic_file"@,
            NativeFunction::Buffer => "magic_buffer"@,
            NativeFunction::SetFlags => "magic_setflags"@,
            NativeFunction::Check => "magic_check"@,
            NativeFunction::Compile => "magic_compile"@,
            NativeFunction::List => "magic_list"@,
            NativeFunction::Load => "magic_load"@,
            NativeFunction::LoadBuffers => "magic_load_buffers"@,
        }
    }

    pub fn name(&self) -> (r: &'static str)
        ensures
            r@ == self.spec_name(),
    {
        match self {
            NativeFunction::Open => "magic_open",
            NativeFunction::File => "magic_file",
            NativeFunction::Buffer => "magic_buffer",
            NativeFunction::SetFlags => "magic_setflags",
            NativeFunction::Check => "magic_check",
            NativeFunction::Compile => "magic_compile",
            NativeFunction::List => "magic_list",
            NativeFunction::Load => "magic_load",
            NativeFunction::LoadBuffers => "magic_load_buffers",
        }
    }
}

/// An error that the engine recorded in its side channel: a message, and the
/// operating system's error number where one was given.
#[derive(Debug)]
pub struct Error {
    pub explanation: String,
    pub errno: Option<i32>,
}

/// The engine did not behave as its interface documents.
#[derive(Clone, Copy, Debug, PartialEq, Eq, Structural)]
pub enum ApiViolation {
    /// The function failed but left no error in the side channel.
    MissingError(NativeFunction),
    /// The function returned a status other than 0 or -1.
    UnexpectedReturnValue(NativeFunction, i32),
}

/// The failure of an operation on an open handle.
#[derive(Debug)]
pub enum CookieError {
    Error(Error),
    ApiViolation(ApiViolation),
}

/// The engine rejected a set of flags.
#[derive(Clone, Copy, Debug, PartialEq, Eq, Structural)]
pub struct SetFlagsError {
    pub flags: i32,
}

/// No handle could be opened with the given flags.
#[derive(Clone, Copy, Debug, PartialEq, Eq, Structural)]
pub struct OpenError {
    pub flags: i32,
    pub errno: i32,
}

impl OpenError {
    /// The operating system's error number reported when the open failed.
    pub fn errno(&self) -> (r: i32)
        ensures
            r == self.errno,
    {
        self.errno
    }
}

/// The error recorded in the side channel, given the message read there (if
/// any) and the error number read beside it; 0 stands for no error number.
pub open spec fn spec_side_channel_error(message: Option<String>, errno: i32) -> Option<Error> {
    match message {
        None => None,
        Some(m) => Some(Error { explanation: m, errno: if errno == 0 { None } else { Some(errno) } }),
    }
}

/// What a failure reports, given the error found in the side channel.
pub open spec fn spec_failure(function: NativeFunction, last: Option<Error>) -> CookieError {
    match last {
        Some(e) => CookieError::Error(e),
        None => CookieError::ApiViolation(ApiViolation::MissingError(function)),
    }
}

/// The result of a function that returns a status, given the status and the
/// error found in the side channel (read only for the status -1).
pub open spec fn spec_status_outcome(function: NativeFunction, res: i32, last: Option<Error>) -> Result<
    (),
    CookieError,
> {
    if res == 0 {
        Ok(())
    } else if res == -1 {
        Err(spec_failure(function, last))
    } else {
        Err(CookieError::ApiViolation(ApiViolation::UnexpectedReturnValue(function, res)))
    }
}

/// The result of a function that returns a text, given that text (`None` for
/// the null result) and the error found in the side channel.
pub open spec fn spec_text_outcome(
    function: NativeFunction,
    res: Option<String>,
    last: Option<Error>,
) -> Result<String, CookieError> {
    match res {
        Some(text) => Ok(text),
        None => Err(spec_failure(function, last)),
    }
}

/// A failure that the side channel can report for `function`: the recorded
/// error, or the violation of a side channel left empty.
pub open spec fn reported_failure(e: CookieError, function: NativeFunction) -> bool {
    match e {
        CookieError::Error(_) => true,
        CookieError::ApiViolation(v) => v == ApiViolation::MissingError(function),
    }
}

/// A failure of a function that returns a status: one the side channel
/// reports, or a status other than 0 and -1.
pub open spec fn status_failure(e: CookieError, function: NativeFunction) -> bool {
    match e {
        CookieError::Error(_) => true,
        CookieError::ApiViolation(ApiViolation::MissingError(f)) => f == function,
        CookieError::ApiViolation(ApiViolation::UnexpectedReturnValue(f, res)) => {
            f == function && res != 0 && res != -1
        },
    }
}

pub fn side_channel_error(message: Option<String>, errno: i32) -> (r: Option<Error>)
    ensures
        r == spec_side_channel_error(message, errno),
{
    match message {
        None => None,
        Some(m) => Some(Error { explanation: m, errno: if errno == 0 { None } else { Some(errno) } }),
    }
}

pub fn failure(function: NativeFunction, last: Option<Error>) -> (r: CookieError)
    ensures
        r == spec_failure(function, last),
{
    match last {
        Some(e) => CookieError::Error(e),
        None => CookieError::ApiViolation(ApiViolation::MissingError(function)),
    }
}

pub fn status_outcome(function: NativeFunction, res: i32, last: Option<Error>) -> (r: Result<
    (),
    CookieError,
>)
    ensures
        r == spec_status_outcome(function, res, last),
{
    match res {
        0 => Ok(()),
        -1 => Err(failure(function, last)),
        _ => Err(CookieError::ApiViolation(ApiViolation::UnexpectedReturnValue(function, res))),
    }
}

pub fn text_outcome(function: NativeFunction, res: Option<String>, last: Option<Error>) -> (r:
    Result<String, CookieError>)
    ensures
        r == spec_text_outcome(function, res, last),
{
    match res {
        Some(text) => Ok(text),
        None => Err(failure(function, last)),
    }
}

pub fn setflags_outcome(flags: i32, res: i32) -> (r: Result<(), SetFlagsError>)
    ensures
        r == if res == -1 {
            Err::<(), SetFlagsError>(SetFlagsError { flags })
        } else {
            Ok(())
        },
{
    if res == -1 {
        Err(SetFlagsError { flags })
    } else {
        Ok(())
    }
}

/// Reads the side channel of `cookie`.
pub fn last_error<E: Engine>(cookie: &E) -> (r: Option<Error>)
    ensures
        r is Some ==> r->Some_0.errno != Some(0i32),
{
    let message = cookie.error();
    let errno = cookie.errno();
    side_channel_error(message, errno)
}

/// The failure of `function`, read from the side channel at once.
pub fn expect_error<E: Engine>(cookie: &E, function: NativeFunction) -> (r: CookieError)
    ensures
        reported_failure(r, function),
{
    failure(function, last_error(cookie))
}

fn status<E: Engine>(cookie: &E, function: NativeFunction, res: i32) -> (r: Result<(), CookieError>)
    ensures
        res == 0 <==> r is Ok,
        res == -1 ==> r is Err && reported_failure(r->Err_0, function),
        res != 0 && res != -1 ==> r == spec_status_outcome(function, res, None),
        r is Err ==> status_failure(r->Err_0, function),
{
    if res == -1 {
        let r = status_outcome(function, res, last_error(cookie));
        r
    } else {
        let r = status_outcome(function, res, None);
        proof {
            if res != 0 {
                assert(r == Err::<(), CookieError>(CookieError::ApiViolation(ApiViolation::UnexpectedReturnValue(function, res))));
            }
        }
        r
    }
}

fn text<E: Engine>(cookie: &E, function: NativeFunction, res: Option<String>) -> (r: Result<
    String,
    CookieError,
>)
    ensures
        res is Some ==> r == Ok::<String, CookieError>(res->Some_0),
        res is None ==> r is Err && reported_failure(r->Err_0, function),
{
    if res.is_none() {
        text_outcome(function, res, last_error(cookie))
    } else {
        text_outcome(function, res, None)
    }
}

/// The result of opening with `flags`, given what the engine returned: the
/// handle, or the operating system's error number.
pub fn open_outcome<H>(flags: i32, res: Result<H, i32>) -> (r: Result<H, OpenError>)
    ensures
        r == match res {
            Ok(c) => Ok(c),
            Err(n) => Err(OpenError { flags, errno: n }),
        },
{
    match res {
        Ok(cookie) => Ok(cookie),
        Err(errno) => Err(OpenError { flags, errno }),
    }
}

pub fn open<E: Engine>(flags: i32) -> (r: Result<E, OpenError>)
    ensures
        r is Err ==> r->Err_0.flags == flags,
{
    let res = E::open(flags);
    open_outcome(flags, res)
}

pub fn file<E: Engine>(cookie: &E, filename: &str) -> (r: Result<String, CookieError>)
    requires
        !filename@.contains(crate::database::TERMINATOR),
    ensures
        r is Err ==> reported_failure(r->Err_0, NativeFunction::File),
{
    let res = cookie.file(filename);
    text(cookie, NativeFunction::File, res)
}

pub fn buffer<E: Engine>(cookie: &E, data: &[u8]) -> (r: Result<String, CookieError>)
    ensures
        r is Err ==> reported_failure(r->Err_0, NativeFunction::Buffer),
{
    let res = cookie.buffer(data);
    text(cookie, NativeFunction::Buffer, res)
}

pub fn setflags<E: Engine>(cookie: &E, flags: i32) -> (r: Result<(), SetFlagsError>)
    ensures
        r is Err ==> r->Err_0 == (SetFlagsError { flags }),
{
    let res = cookie.setflags(flags);
    setflags_outcome(flags, res)
}

pub fn check<E: Engine>(cookie: &E, filenames: Option<&str>) -> (r: Result<(), CookieError>)
    requires
        native_selection(filenames),
    ensures
        r is Err ==> status_failure(r->Err_0, NativeFunction::Check),
{
    let res = cookie.check(filenames);
    status(cookie, NativeFunction::Check, res)
}

pub fn compile<E: Engine>(cookie: &E, filenames: Option<&str>) -> (r: Result<(), CookieError>)
    requires
        native_selection(filenames),
    ensures
        r is Err ==> status_failure(r->Err_0, NativeFunction::Compile),
{
    let res = cookie.compile(filenames);
    status(cookie, NativeFunction::Compile, res)
}

pub fn list<E: Engine>(cookie: &E, filenames: Option<&str>) -> (r: Result<(), CookieError>)
    requires
        native_selection(filenames),
    ensures
        r is Err ==> status_failure(r->Err_0, NativeFunction::List),
{
    let res = cookie.list(filenames);
    status(cookie, NativeFunction::List, res)
}

pub fn load<E: Engine>(cookie: &E, filenames: Option<&str>) -> (r: Result<(), CookieError>)
    requires
        native_selection(filenames),
    ensures
        r is Err ==> status_failure(r->Err_0, NativeFunction::Load),
{
    let res = cookie.load(filenames);
    status(cookie, NativeFunction::Load, res)
}

pub fn load_buffers<E: Engine>(cookie: &E, buffers: &[&[u8]]) -> (r: Result<(), CookieError>)
    ensures
        r is Err ==> status_failure(r->Err_0, NativeFunction::LoadBuffers),
{
    let res = cookie.load_buffers(buffers);
    status(cookie, NativeFunction::LoadBuffers, res)
}

} // verus!
