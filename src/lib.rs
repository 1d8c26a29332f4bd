//! Per-frame planning for a stereo camera passthrough pipeline.
//!
//! The GPU work itself (uploads, format conversion, lens correction and the
//! reprojection draw) is carried out by the embedding program; this library
//! decides which stages run, which texture each one reads and writes, which
//! geometry every draw uses, and when a frame is refused.
pub mod extensions;
pub mod frame;
pub mod pipeline;
pub mod projection;
pub mod yuv;
