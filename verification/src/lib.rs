//! Drives a BLE light fixture from the dominant color of a display.
//!
//! The crate holds the decision logic of the system: the wire-protocol
//! encoder for the fixture's command frames, the change filter that
//! rate-limits transmissions, the discovery logic that picks a peripheral
//! and its command characteristic, the per-cycle step of the sync loop,
//! and the supervisor's restart policy.  The capture backend and the BLE
//! transport themselves are collaborators outside this crate: callers run
//! the I/O and hand the results in as plain values.

pub mod color;
pub mod filter;
pub mod codec;
pub mod config;
pub mod discovery;
pub mod session;
pub mod sync;
pub mod supervisor;
