//! The data that travels between the parts of the node.

use vstd::prelude::*;

pub mod backup;
pub mod communication;
pub mod connections;
pub mod media;
pub mod time;

pub use self::backup::{spec_advanced, MediaPlayback, MediaPlaylist};
pub use self::communication::{InterfaceUpdate, ReplyView, Request, WebReply};
pub use self::connections::{clone_text, decimal, AudioDevice, DmxFade, Identifier, MediaCue, VideoStream};
pub use self::media::{
    ChannelAllocation, ChannelRealignment, ChannelSeek, ChannelState, Direction, MediaChannel,
    PlaybackState, VideoFrame, VideoFrameWithWindow, WindowDefinition,
};
pub use self::time::Span;

verus! {

/// The file name of the square logo.
pub const LOGO_SQUARE: &'static str = "logo_square.png";

/// The title given to every window.
pub const WINDOW_TITLE: &'static str = "Apollo";

/// The address the node listens on unless told otherwise.
pub const DEFAULT_ADDRESS: &'static str = "127.0.0.1:27655";

} // verus!
