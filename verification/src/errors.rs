use vstd::prelude::*;

verus! {

/// The one failure this library surfaces: the underlying source or sink
/// could not move data.  End-of-input is not an error; a read at end-of-input
/// yields an empty line instead.
#[derive(Clone, Copy, Debug, PartialEq, Eq, Structural)]
pub enum InputError {
    /// An OS-level failure, carrying the OS error code.
    Os(i32),
    /// A failure for which the platform reported no error code.
    Unknown,
}

} // verus!
