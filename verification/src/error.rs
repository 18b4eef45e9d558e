//! The engine's error taxonomy.

use vstd::prelude::*;

verus! {

/// Everything that can go wrong around a presentation engine.
///
/// Only construction-time failures and a failed fallback draw are ever
/// surfaced to a caller; fast-path failures are absorbed by retrying the
/// frame over the fallback transport.
#[derive(Clone, Copy, Debug, PartialEq, Eq, Structural)]
pub enum Error {
    /// The display identification supplied at construction was incomplete.
    IncompleteDisplayHandle,
    /// The window identification supplied at construction was incomplete.
    IncompleteWindowHandle,
    /// A required foreign library could not be loaded at construction.
    PlatformUnavailable,
    /// The system denied allocating or mapping a shared-memory region.
    ResourceExhausted,
    /// The display service rejected an image or draw request.
    ProtocolFailure,
}

} // verus!
