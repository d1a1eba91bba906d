//! A peer-to-peer tempo and beat-phase synchronization engine.
//!
//! Time is counted in microseconds, beats in micro-beats and tempo in
//! milli-beats per minute, so that every computation is exact integer
//! arithmetic with a stated rounding.
pub mod timeline;
pub mod clock;
pub mod transport;
pub mod reconcile;
pub mod session_state;
pub mod registry;
pub mod link;
