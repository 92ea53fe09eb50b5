//! The decisions behind rendering a video: which GPU there is, which encoders to try, how the
//! decoder and the encoder are set up, what is done with each frame, and what the log shows.
//!
//! Nothing here touches a device, a file or a frame. Each function takes what was found out
//! about them as plain values, and returns what to do.

pub mod encoders;
pub mod frames;
pub mod gpu;
pub mod planes;
pub mod render_log;
pub mod settings;
pub mod shared;
pub mod text;
