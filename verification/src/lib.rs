//! Admission control with the Generic Cell Rate Algorithm.
//!
//! The algorithm keeps one time value per rate-limited key, the key's
//! theoretical arrival time, and decides from it alone whether a cell (one
//! unit of work, such as a request) conforms to a quota. [`Gcra`] is the
//! decision engine. It holds no state: the time values live in a
//! [`StateStore`], and time is read from a clock through [`Reference`].

pub mod nanos;
pub mod clock;
pub mod quota;
pub mod state;
pub mod errors;
pub mod gcra;
pub mod laws;

pub use crate::clock::Reference;
pub use crate::errors::NegativeMultiDecision;
pub use crate::gcra::{Gcra, NotUntil};
pub use crate::nanos::Nanos;
pub use crate::quota::Quota;
pub use crate::state::StateStore;
