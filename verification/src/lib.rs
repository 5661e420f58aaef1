//! Streaming Doppler-correction pipeline for complex IQ radio samples.
//!
//! The pipeline re-centers a satellite's carrier into a receiver's passband:
//! wire bytes are decoded into complex samples, each sample is multiplied by a
//! phase-continuous rotation factor derived from a correction frequency, and
//! the result is encoded back to wire bytes.
//!
//! Everything that can be stated exactly over integers is verified here: the
//! sample codec (bit-exact little-endian wire formats), the rotation-angle
//! schedule of the mixer (exact rational phase, reduced modulo one turn), the
//! index-reset policy, the Doppler formula in milli-hertz, the configuration
//! resolver, and the TLE text lookup. The only floating-point work left to a
//! caller is evaluating the complex exponential at the angles this library
//! computes.

pub mod dsp;
pub mod driver;
pub mod mixer;
pub mod predict;
pub mod stream;
pub mod tle;
pub mod usage;
