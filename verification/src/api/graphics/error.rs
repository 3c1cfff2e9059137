use vstd::prelude::*;

use crate::ffi::NulError;

verus! {

/// What can go wrong in the graphics interface.
#[derive(Clone, Copy, Debug, PartialEq, Eq, Structural)]
pub enum GraphicsError {
    /// A text to draw or to measure holds a NUL byte.
    InvalidString(NulError),
}

} // verus!
