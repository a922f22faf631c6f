//! A polyphonic Karplus-Strong synthesis engine in fixed-point arithmetic.
//!
//! Envelopes, parameter values, excitation samples and the delay line are all
//! integers with an explicit scale, so that every step of the signal path has an
//! exact contract.
pub mod params;
pub mod envelope;
pub mod voice;
pub mod excitation;
pub mod resonator;
pub mod engine;
