//! The run's error taxonomy. Per-entry parse failures are not errors: the
//! extractor skips such entries silently.

use vstd::prelude::*;

verus! {

/// A fatal cause that ends a run.
#[derive(Clone, Copy, Debug, PartialEq, Eq, Structural)]
pub enum RunError {
    /// The address lookup returned no candidates.
    AddressNotFound,
    /// A transport or malformed-response failure on a network call.
    FetchError,
    /// The broker rejected or failed to send a publish.
    PublishError,
    /// The bounded wait for acknowledgments expired.
    AckTimeout,
    /// The final disconnect failed; prior publishes stay valid.
    DisconnectError,
}

} // verus!

