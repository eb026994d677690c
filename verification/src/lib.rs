//! Power-of-two FFT core for real-valued sample buffers.
//!
//! The crate dispatches a sample buffer to the fixed-size complex FFT
//! kernel matching its exact length, converts real samples into the
//! complex domain and back into per-bin magnitudes, and computes which
//! output bins carry non-redundant information for a given sampling rate.

pub mod fft;
