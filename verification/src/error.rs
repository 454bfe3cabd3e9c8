//! The failures that the execution layer reports to its caller.

use vstd::prelude::*;

verus! {

/// The `errno` value with which the operating system reports that no file of
/// the requested name exists.
pub const ENOENT: i32 = 2;

/// A recoverable failure of one of the layer's operations.
#[derive(Clone, Copy, Debug, PartialEq, Eq, Structural)]
pub enum Error {
    /// A path, an argument or a variable name bound for the operating system
    /// holds an embedded NUL byte.
    Encoding,
    /// The environment variable is unset, or no program of the requested name
    /// is on the search path.
    NotFound,
    /// The value stored in the environment is not valid UTF-8 text.
    Decoding,
    /// Any other failure of an operating-system call, with its `errno`.
    Os(i32),
}

impl Error {
    /// The failure that a rejected program replacement stands for: a missing
    /// program is `NotFound`, anything else is carried as `Os`.
    pub open spec fn replace_failure(errno: i32) -> Error {
        if errno == ENOENT {
            Error::NotFound
        } else {
            Error::Os(errno)
        }
    }

    /// Classifies the `errno` left behind by a program replacement that
    /// returned.
    pub fn from_replace_errno(errno: i32) -> (e: Error)
        ensures
            e == Error::replace_failure(errno),
    {
        if errno == ENOENT {
            Error::NotFound
        } else {
            Error::Os(errno)
        }
    }
}

} // verus!
