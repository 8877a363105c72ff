//! A hybrid logical clock: timestamps that pair a physical wall time with a
//! logical counter, so that they stay strictly ordered even when the physical
//! clock stalls or runs backwards.
//!
//! The logical counter is sixteen bits wide and wraps to zero when it is
//! advanced past its largest value. A timestamp issued by such a step fails to
//! exceed what came before it; the contracts and laws say exactly when that
//! happens.

pub mod clock;
pub mod laws;
pub mod render;
pub mod shared;
pub mod source;
pub mod timespec;

pub use clock::State;
pub use timespec::{HLTimespec, Timespec};
