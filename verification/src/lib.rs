//! Core of a sound-source direction finder that estimates the bearing of a
//! source from the arrival-time difference between two microphone channels.
//!
//! The crate holds the verified skeleton of the estimator: the index and
//! ordering logic of the spectral stages (centering, adaptive-threshold cell
//! selection, peak screening), the bounded delay window that feeds the
//! smoothing filter, the single-slot publish channels, and the telemetry
//! sink's reconnect discipline and wire format. Floating-point arithmetic
//! (transforms, averaging, interpolation) runs outside the verified core on
//! values these functions select and arrange.

pub mod cfar;
pub mod channel;
pub mod peak;
pub mod spectral;
pub mod telemetry;
pub mod window;
