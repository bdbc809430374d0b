//! A media playback engine core: the playback state machine, the frame
//! handoff, the audio/video synchronisation smoother and the conversion of
//! decoded frames, each with its contract.

pub mod backend;
pub mod binary64;
pub mod color;
pub mod error;
pub mod filters;
pub mod frame;
pub mod launch;
pub mod position;
pub mod subtitles;
pub mod sync;
pub mod thumbnail;
pub mod video;

pub use crate::error::Error;
pub use crate::filters::VideoFilters;
pub use crate::position::Position;
pub use crate::subtitles::TextTag;
pub use crate::video::Video;
