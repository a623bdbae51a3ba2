//! Verified core of a background-image setter for layer-shell compositors.
//!
//! The library holds the logic of the display session: the global binder's
//! decisions, the per-output surface lifecycle with its configure handshake,
//! the shared-buffer size discipline, the pixel compositor that fills a
//! frame with a solid color or a resampled image, and the cycle scheduler.
//! All I/O (the display protocol itself, files, processes, the network)
//! stays outside and hands the library plain values.

pub mod config;
pub mod genimg;
pub mod globals;
pub mod pixel;
pub mod sched;
pub mod surface;
