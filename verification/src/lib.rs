//! Exact arithmetic for a tone generator and for a bounded recording session.
//!
//! Every amplitude is held as a fraction of integers, so that the shapes, the
//! sample clock, the sample encodings and the session's life cycle can be stated
//! and proved without rounding. Only the two sine shapes leave their last step,
//! the sine itself, to the caller.

pub mod capture;
pub mod convert;
pub mod format;
pub mod generator;
pub mod tone;
pub mod wave;
