//! Windows, channels and the commands that act on them.

use vstd::prelude::*;
use crate::definitions::connections::{clone_text, AudioDevice};

verus! {

/// A display surface.
#[derive(Clone, Copy, Debug, PartialEq, Eq)]
pub struct WindowDefinition {
    /// The number by which channels refer to the window.
    pub window_number: u32,
    /// Whether the window fills the screen.
    pub fullscreen: bool,
    /// The smallest size of the window, if one is asked for.
    pub dimensions: Option<(i32, i32)>,
}

/// The place of a video inside its window, in pixels.
#[derive(Clone, Copy, Debug, PartialEq, Eq)]
pub struct VideoFrame {
    pub top: i32,
    pub left: i32,
    pub height: i32,
    pub width: i32,
}

/// The place of a video, together with the window that shows it.
#[derive(Clone, Copy, Debug, PartialEq, Eq)]
pub struct VideoFrameWithWindow {
    pub window_number: u32,
    pub top: i32,
    pub left: i32,
    pub height: i32,
    pub width: i32,
}

/// A playback lane, bound to at most one frame and one audio sink.
#[derive(Debug, PartialEq, Eq)]
pub struct MediaChannel {
    /// The number of the channel.
    pub channel: u32,
    /// Where the video is shown; `None` leaves the window to the player.
    pub video_frame: Option<VideoFrameWithWindow>,
    /// The audio sink; `None` is the system default.
    pub audio_device: Option<AudioDevice>,
    /// The media that plays while nothing else does.
    pub loop_media: Option<String>,
}

impl Clone for MediaChannel {
    fn clone(&self) -> (r: Self)
        ensures
            r == *self,
    {
        let audio_device = match &self.audio_device {
            Some(device) => Some(device.clone()),
            None => None,
        };
        MediaChannel {
            channel: self.channel,
            video_frame: self.video_frame,
            audio_device,
            loop_media: clone_text(&self.loop_media),
        }
    }
}

/// One of the four ways a frame can be nudged.
#[derive(Clone, Copy, Debug, PartialEq, Eq)]
pub enum Direction {
    Up,
    Down,
    Left,
    Right,
}

/// A request to move a channel's frame by one pixel.
#[derive(Clone, Copy, Debug, PartialEq, Eq)]
pub struct ChannelRealignment {
    pub channel: u32,
    pub direction: Direction,
}

/// A request to give a channel's frame a new place and size.
#[derive(Clone, Copy, Debug, PartialEq, Eq)]
pub struct ChannelAllocation {
    pub channel: u32,
    pub video_frame: VideoFrame,
}

/// Whether media is running or held.
#[derive(Clone, Copy, Debug, PartialEq, Eq)]
pub enum PlaybackState {
    Playing,
    Paused,
}

impl PlaybackState {
    /// Whether the state is `Playing`.
    pub fn is_playing(&self) -> (r: bool)
        ensures
            r == (*self == PlaybackState::Playing),
    {
        match self {
            PlaybackState::Playing => true,
            PlaybackState::Paused => false,
        }
    }
}

/// A request to run or hold the media of a channel.
#[derive(Clone, Copy, Debug, PartialEq, Eq)]
pub struct ChannelState {
    pub channel: u32,
    pub state: PlaybackState,
}

/// A request to move the media of a channel to a position.
#[derive(Clone, Copy, Debug, PartialEq, Eq)]
pub struct ChannelSeek {
    pub channel: u32,
    /// The position, in milliseconds from the start.
    pub position: u64,
}

impl VideoFrameWithWindow {
    /// The frame one pixel further in `direction`. A frame already at the
    /// edge of the coordinate range stays where it is.
    pub open spec fn spec_moved(self, direction: Direction) -> VideoFrameWithWindow {
        match direction {
            Direction::Up => VideoFrameWithWindow {
                top: if self.top > i32::MIN { (self.top - 1) as i32 } else { self.top },
                ..self
            },
            Direction::Down => VideoFrameWithWindow {
                top: if self.top < i32::MAX { (self.top + 1) as i32 } else { self.top },
                ..self
            },
            Direction::Left => VideoFrameWithWindow {
                left: if self.left > i32::MIN { (self.left - 1) as i32 } else { self.left },
                ..self
            },
            Direction::Right => VideoFrameWithWindow {
                left: if self.left < i32::MAX { (self.left + 1) as i32 } else { self.left },
                ..self
            },
        }
    }

    /// The frame with the place and size of `frame`, in the same window.
    pub open spec fn spec_resized(self, frame: VideoFrame) -> VideoFrameWithWindow {
        VideoFrameWithWindow {
            window_number: self.window_number,
            top: frame.top,
            left: frame.left,
            height: frame.height,
            width: frame.width,
        }
    }

    /// Moves the frame one pixel in `direction`.
    pub fn moved(self, direction: Direction) -> (r: VideoFrameWithWindow)
        ensures
            r == self.spec_moved(direction),
    {
        let mut frame = self;
        match direction {
            Direction::Up => {
                if frame.top > i32::MIN {
                    frame.top = frame.top - 1;
                }
            },
            Direction::Down => {
                if frame.top < i32::MAX {
                    frame.top = frame.top + 1;
                }
            },
            Direction::Left => {
                if frame.left > i32::MIN {
                    frame.left = frame.left - 1;
                }
            },
            Direction::Right => {
                if frame.left < i32::MAX {
                    frame.left = frame.left + 1;
                }
            },
        }
        frame
    }

    /// Gives the frame the place and size of `frame`, keeping its window.
    pub fn resized(self, frame: VideoFrame) -> (r: VideoFrameWithWindow)
        ensures
            r == self.spec_resized(frame),
    {
        VideoFrameWithWindow {
            window_number: self.window_number,
            top: frame.top,
            left: frame.left,
            height: frame.height,
            width: frame.width,
        }
    }
}

} // verus!
