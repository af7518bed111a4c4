//! A handle-management layer over a native file-type analysis engine: flag
//! sets, database selections, the native call layer that turns the engine's
//! return conventions into results, and a cookie whose type says whether
//! databases are loaded.

pub mod cookie;
pub mod database;
pub mod ffi;
pub mod flags;
pub mod native;
mod sealed;

pub use crate::cookie::Cookie;
