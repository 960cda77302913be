//! Device-handle layer: the error type shared by every operation and the
//! handle logic in [`system`].

use vstd::prelude::*;

verus! {

/// Magic byte selecting the cryptodev driver in every ioctl request code.
pub const CRYPTOIO: u32 = 0x63;

/// The single error of this interface: the operating-system error code
/// captured right after an `open` or ioctl call returned a negative value.
#[derive(Clone, Copy, Debug, PartialEq, Eq, Structural)]
pub struct OsError {
    /// Raw `errno` value reported by the operating system.
    pub errno: i32,
}

impl OsError {
    /// Returns the raw operating-system error code carried by this error.
    pub fn errno(&self) -> (r: i32)
        ensures
            r == self.errno,
    {
        self.errno
    }
}

} // verus!

pub mod system;
