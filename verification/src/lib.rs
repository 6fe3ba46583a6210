//! Verified core of a galactic-disc point-cloud generator.
//!
//! Every coordinate is carried as the bit pattern of an IEEE-754
//! single-precision number, so that the rules on which values may be stored,
//! how records are laid out and in what order batches reach storage can be
//! stated and proved over integers. The transcendental transforms themselves
//! are applied by the caller, who hands their results in as bit patterns.

pub mod bits;
pub mod config;
pub mod gpu;
pub mod point;
pub mod sequ;
pub mod simd;
pub mod source;
pub mod stream;
