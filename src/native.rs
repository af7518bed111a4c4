use vstd::prelude::*;
use crate::database::TERMINATOR;

verus! {

/// A selection of databases as the engine takes it: `None` for the default
/// ones, else a joined form that is a native text string.
pub open spec fn native_selection(filenames: Option<&str>) -> bool {
    match filenames {
        Some(f) => f@.len() > 0 && !f@.contains(TERMINATOR),
        None => true,
    }
}

/// The entry points of a native analysis engine, at the level of plain values.
///
/// A value of an implementing type owns one native handle, opened by `open`.
/// It must release that handle when it is dropped, and at no other time. The
/// library never copies such a value: it moves it from one cookie state to the
/// next, so the handle is released exactly once, when the last owner goes away.
///
/// Nothing is assumed of what these methods return: every result is checked
/// by the caller.
pub trait Engine: Sized {

    /// Opens a handle configured with `flags`, or gives the operating system's
    /// error number when no handle could be created.
    fn open(flags: i32) -> Result<Self, i32>;

    /// The message of the handle's last error, if one is set.
    fn error(&self) -> Option<String>;

    /// The operating system's error number that goes with the last error, or 0.
    fn errno(&self) -> i32;

    /// Describes the file at `filename`; `None` on failure.
    fn file(&self, filename: &str) -> Option<String>
        requires
            !filename@.contains(TERMINATOR),
    ;

    /// Describes the contents of `buffer`; `None` on failure.
    fn buffer(&self, buffer: &[u8]) -> Option<String>;

    /// Replaces the handle's flags; -1 when they are rejected.
    fn setflags(&self, flags: i32) -> i32;

    /// Checks the databases named by `filenames` (the default ones for `None`);
    /// 0 on success, -1 on failure.
    fn check(&self, filenames: Option<&str>) -> i32
        requires
            native_selection(filenames),
    ;

    /// Compiles the databases named by `filenames`; 0 on success, -1 on failure.
    fn compile(&self, filenames: Option<&str>) -> i32
        requires
            native_selection(filenames),
    ;

    /// Lists the entries of the databases named by `filenames`; 0 on success, -1
    /// on failure.
    fn list(&self, filenames: Option<&str>) -> i32
        requires
            native_selection(filenames),
    ;

    /// Loads the databases named by `filenames`, replacing those loaded before;
    /// 0 on success, -1 on failure.
    fn load(&self, filenames: Option<&str>) -> i32
        requires
            native_selection(filenames),
    ;

    /// Loads compiled databases from memory, replacing those loaded before; 0 on
    /// success, -1 on failure.
    fn load_buffers(&self, buffers: &[&[u8]]) -> i32;
}

} // verus!
