//! Runtime instrumentation toolkit: named, concurrently updated values
//! ("instruments") grouped on a board, observed through serialized snapshots
//! that a publisher deduplicates and forwards to an external sink.

pub mod board;
pub mod instrument;
pub mod listener;
pub mod mqtt;
pub mod ser;
pub mod sync;

pub use board::{Board, Instruments, ReadError};
pub use instrument::Instrument;
pub use listener::Listener;

use vstd::prelude::*;

verus! {

/// An error that might occur while updating an instrument.
#[derive(Debug, PartialEq, Eq, Structural)]
pub enum UpdateError {
    /// The lock guarding the value is poisoned: a previous holder terminated
    /// abnormally while holding exclusive access.
    PoisonedData,
}

} // verus!
