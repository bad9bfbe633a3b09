//! The single way in which this library fails.
use vstd::prelude::*;

verus! {

/// Why creating a window or running its loop ended early.
#[derive(Clone, Copy, Debug, PartialEq, Eq, Structural)]
pub enum Error {
    /// A platform call reported failure; the field is the platform's own error code.
    PlatformCallFailed(i32),
}

impl Error {
    /// The platform's own error code.
    pub open spec fn native(self) -> i32 {
        match self {
            Error::PlatformCallFailed(code) => code,
        }
    }

    /// The platform's own error code.
    pub fn code(&self) -> (code: i32)
        ensures
            code == self.native(),
    {
        match self {
            Error::PlatformCallFailed(code) => *code,
        }
    }
}

} // verus!
