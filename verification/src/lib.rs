//! The part of a music visualiser that keeps a shader's uniforms in step with
//! a song: a playback clock, the song's analysis records in the layout the GPU
//! reads, and the window of segments that goes up with each frame.

pub mod binary32;
pub mod gpu_layout;
pub mod song;
pub mod window;
pub mod clock;
pub mod catalog;
pub mod streamer;
pub mod instance;

pub use crate::instance::Instance;
pub use crate::song::{SongSection, SongSegment};
