//! Interrupt-safe board event and peripheral-abstraction layer.
//!
//! The library turns raw hardware signals into a uniform stream of [`Event`]s
//! consumed by a higher-level scheduler, and offers capability operations
//! (read, write, flush, enable, disable, fill random bytes) that compile
//! against real hardware, an unimplemented stub, or a hardware-absent stub.

use vstd::prelude::*;

pub mod board;
pub mod events;
pub mod rng;
pub mod serial;
pub mod xtask;

verus! {

/// Error taxonomy of the capability operations.
///
/// `World` is an environment fault of the underlying transport; `User` means
/// the capability is absent on this board and is always recoverable.
#[derive(Debug, PartialEq, Eq, Structural, Clone, Copy)]
pub enum Error {
    /// The board cannot perform the operation (capability absent).
    User,
    /// The environment (transport, bus) reported a fault.
    World,
}

/// Capability implementation that signals a build-time wiring defect.
///
/// Invoking any of its operations is a programming error, so every one of
/// them requires `false`: a correctly configured board never reaches them.
pub struct Unimplemented;

/// Capability implementation for a board that intentionally lacks the feature.
///
/// Every operation returns the recoverable [`Error::User`].
pub struct Unsupported;

/// Board-level event, queued by interrupt handlers and drained in FIFO order
/// by the scheduler.
#[derive(Debug, PartialEq, Eq, Structural, Clone, Copy)]
pub enum Event {
    /// A button changed state.
    Button { button: usize, pressed: bool },
    /// A hardware timer fired.
    Timer { timer: usize },
    /// The USB serial may have progress to offer.
    Serial(serial::Event),
}

impl From<serial::Event> for Event {
    fn from(event: serial::Event) -> (r: Event) {
        Event::Serial(event)
    }
}

impl vstd::std_specs::convert::FromSpecImpl<serial::Event> for Event {
    open spec fn obeys_from_spec() -> bool {
        true
    }

    open spec fn from_spec(event: serial::Event) -> Event {
        Event::Serial(event)
    }
}

} // verus!
