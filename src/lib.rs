//! Plays a numbered sequence of image frames as character art in a terminal.
//!
//! The library holds the logic: choosing the input format, counting frames,
//! decoding a frame into a pixel buffer, mapping pixels onto terminal cells,
//! and the playback state machine with its frame pacing. Terminal and file
//! access stay with the caller.

pub mod config;
pub mod surface;
pub mod pixels;
pub mod sampler;
pub mod render;
pub mod store;
pub mod playback;
