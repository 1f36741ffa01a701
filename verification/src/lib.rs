//! Verified core of a video player for IT8951-driven e-paper panels.
//!
//! The library covers the logic of the player: framing of the SCSI-style
//! bulk-only transport (command/status wrappers and the stall-recovery state
//! machine), the controller's fixed-format command blocks, the banded image
//! load, ordered dithering and bit packing, the persisted frame-set format,
//! and the two-stage playback pipeline's decisions. All device and file I/O
//! stays outside, in an unverified shell that drives these functions.

pub mod banding;
pub mod commands;
pub mod dither;
pub mod errors;
pub mod frames;
pub mod pipeline;
pub mod session;
pub mod transport;
pub mod wire;
pub mod wrappers;
