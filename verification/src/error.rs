//! Why a handler module could not be brought to life.

use vstd::prelude::*;

verus! {

/// The ways a load can fail. Each is final for the attempt that met it;
/// nothing is retried.
#[derive(Clone, Copy, Debug, PartialEq, Eq, Structural)]
pub enum Error {
    /// The image is missing, is no shared library, or could not be mapped.
    ImageOpenError,
    /// The image exports no version tag, or one that differs from the host's.
    VersionMismatch,
    /// The image lacks the entry symbol or the deallocator symbol.
    EntrypointNotFound,
}

} // verus!
