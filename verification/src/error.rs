//! Why a launch was given up.

use vstd::prelude::*;

verus! {

/// The kind of failure that ends a launch. No failure is recovered from or
/// retried: the first one ends the run.
#[derive(Clone, Copy, Debug, PartialEq, Eq, Structural)]
pub enum ErrorKind {
    /// The image reference holds more than one colon.
    ReferenceFormat,
    /// A request could not be sent, or its response could not be received.
    Transport,
    /// A response body or a layer archive could not be decoded.
    Decode,
    /// A directory could not be created, a file could not be copied or
    /// written, or the root could not be changed.
    Filesystem,
    /// The manifest list holds no entry for the supported platform.
    PlatformNotFound,
    /// The process-id namespace could not be requested.
    IsolationSetup,
    /// The target command could not be started.
    ProcessSpawn,
    /// The driver reported an outcome that does not answer the action it was
    /// given.
    UnexpectedEvent,
}

} // verus!
