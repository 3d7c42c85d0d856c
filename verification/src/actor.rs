//! What every actor's message type offers to whoever holds its handle.

use vstd::prelude::*;

verus! {

/// A message type with a distinguished value that asks the receiving actor
/// to stop accepting new work and terminate.
///
/// Which value that is, each message type says for itself.
pub trait MessageStop: Sized {
    /// The message that asks the actor to stop.
    fn message_stop() -> Self;
}

} // verus!
