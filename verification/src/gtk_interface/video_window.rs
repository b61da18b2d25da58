//! The display's own record of windows and of the place of each video.
//!
//! The record changes only in answer to the events the dispatcher sends.
//! Each change answers with the operations to carry out on the windows
//! themselves, which the embedding program owns.

use vstd::prelude::*;
use fnv::{FnvHashMap, FnvHashSet};
use crate::definitions::connections::VideoStream;
use crate::definitions::media::{
    ChannelAllocation, ChannelRealignment, Direction, WindowDefinition,
};
use crate::tables::{set_contains, set_insert, table_get, table_insert};

verus! {

/// A rectangle inside a window, in pixels.
#[derive(Clone, Copy, Debug, PartialEq, Eq)]
pub struct Rectangle {
    pub x: i32,
    pub y: i32,
    pub width: i32,
    pub height: i32,
}

/// Where the video of a channel is shown.
#[derive(Clone, Copy, Debug, PartialEq, Eq)]
pub struct ChannelPlace {
    pub window_number: u32,
    pub allocation: Rectangle,
}

/// One operation on the windows of the display.
#[derive(Clone, Copy, Debug, PartialEq, Eq)]
pub enum WindowAction {
    /// Open a window with an empty overlay. `dimensions` is the least
    /// size of its background, if one is asked for.
    Open { window_number: u32, fullscreen: bool, dimensions: Option<(i32, i32)> },
    /// Add an area for the video of `channel` to the overlay of the window.
    AddVideo { window_number: u32, channel: u32 },
    /// Lay the overlay of the window out again.
    Resize { window_number: u32 },
    /// Close every window.
    CloseAll,
}

/// The display's record as contracts see it.
pub struct DisplayState {
    /// The windows that are open.
    pub windows: Set<u32>,
    /// The place of the video of each channel that has one.
    pub channels: Map<u32, ChannelPlace>,
}

impl Rectangle {
    /// The rectangle one pixel further in `direction`. A rectangle already
    /// at the edge of the coordinate range stays where it is.
    pub open spec fn spec_moved(self, direction: Direction) -> Rectangle {
        match direction {
            Direction::Up => Rectangle {
                y: if self.y > i32::MIN { (self.y - 1) as i32 } else { self.y },
                ..self
            },
            Direction::Down => Rectangle {
                y: if self.y < i32::MAX { (self.y + 1) as i32 } else { self.y },
                ..self
            },
            Direction::Left => Rectangle {
                x: if self.x > i32::MIN { (self.x - 1) as i32 } else { self.x },
                ..self
            },
            Direction::Right => Rectangle {
                x: if self.x < i32::MAX { (self.x + 1) as i32 } else { self.x },
                ..self
            },
        }
    }

    /// Moves the rectangle one pixel in `direction`.
    pub fn moved(self, direction: Direction) -> (r: Rectangle)
        ensures
            r == self.spec_moved(direction),
    {
        let mut rectangle = self;
        match direction {
            Direction::Up => {
                if rectangle.y > i32::MIN {
                    rectangle.y = rectangle.y - 1;
                }
            },
            Direction::Down => {
                if rectangle.y < i32::MAX {
                    rectangle.y = rectangle.y + 1;
                }
            },
            Direction::Left => {
                if rectangle.x > i32::MIN {
                    rectangle.x = rectangle.x - 1;
                }
            },
            Direction::Right => {
                if rectangle.x < i32::MAX {
                    rectangle.x = rectangle.x + 1;
                }
            },
        }
        rectangle
    }
}

/// The place that a video stream asks for.
pub open spec fn spec_place(video_stream: VideoStream) -> ChannelPlace {
    ChannelPlace {
        window_number: video_stream.window_number,
        allocation: Rectangle {
            x: video_stream.x,
            y: video_stream.y,
            width: video_stream.width,
            height: video_stream.height,
        },
    }
}

/// The operation that lays a channel's window out again, where that
/// window is open.
pub open spec fn spec_relayout(state: DisplayState, channel: u32) -> Option<WindowAction> {
    if state.channels.contains_key(channel) && state.windows.contains(
        state.channels[channel].window_number,
    ) {
        Some(WindowAction::Resize { window_number: state.channels[channel].window_number })
    } else {
        None
    }
}

/// The record after the video of a channel got a new place and size. A
/// channel without a video leaves the record as it is.
pub open spec fn spec_reallocated(
    state: DisplayState,
    channel_allocation: ChannelAllocation,
) -> DisplayState {
    if state.channels.contains_key(channel_allocation.channel) {
        DisplayState {
            channels: state.channels.insert(
                channel_allocation.channel,
                ChannelPlace {
                    window_number: state.channels[channel_allocation.channel].window_number,
                    allocation: Rectangle {
                        x: channel_allocation.video_frame.left,
                        y: channel_allocation.video_frame.top,
                        width: channel_allocation.video_frame.width,
                        height: channel_allocation.video_frame.height,
                    },
                },
            ),
            ..state
        }
    } else {
        state
    }
}

/// The record after the video of a channel moved by one pixel. A channel
/// without a video leaves the record as it is.
pub open spec fn spec_realigned(
    state: DisplayState,
    channel_realignment: ChannelRealignment,
) -> DisplayState {
    if state.channels.contains_key(channel_realignment.channel) {
        DisplayState {
            channels: state.channels.insert(
                channel_realignment.channel,
                ChannelPlace {
                    window_number: state.channels[channel_realignment.channel].window_number,
                    allocation: state.channels[channel_realignment.channel].allocation.spec_moved(
                        channel_realignment.direction,
                    ),
                },
            ),
            ..state
        }
    } else {
        state
    }
}

/// The display's record of windows and videos.
#[derive(Debug)]
pub struct VideoWindow {
    overlay_map: FnvHashSet<u32>,
    channel_map: FnvHashMap<u32, ChannelPlace>,
}

impl View for VideoWindow {
    type V = DisplayState;

    closed spec fn view(&self) -> DisplayState {
        DisplayState { windows: self.overlay_map@, channels: self.channel_map@ }
    }
}

impl VideoWindow {
    /// A display without windows.
    pub fn new() -> (r: VideoWindow)
        ensures
            r@ == (DisplayState { windows: Set::empty(), channels: Map::empty() }),
    {
        VideoWindow { overlay_map: FnvHashSet::default(), channel_map: FnvHashMap::default() }
    }

    /// Forgets every window and every video.
    pub fn clear_all(&mut self) -> (r: WindowAction)
        ensures
            final(self)@ == (DisplayState { windows: Set::empty(), channels: Map::empty() }),
            r == WindowAction::CloseAll,
    {
        self.overlay_map = FnvHashSet::default();
        self.channel_map = FnvHashMap::default();
        WindowAction::CloseAll
    }

    /// Opens the window of a definition.
    pub fn define_window(&mut self, definition: WindowDefinition) -> (r: WindowAction)
        ensures
            final(self)@ == (DisplayState {
                windows: old(self)@.windows.insert(definition.window_number),
                ..old(self)@
            }),
            r == (WindowAction::Open {
                window_number: definition.window_number,
                fullscreen: definition.fullscreen,
                dimensions: definition.dimensions,
            }),
    {
        set_insert(&mut self.overlay_map, definition.window_number);
        WindowAction::Open {
            window_number: definition.window_number,
            fullscreen: definition.fullscreen,
            dimensions: definition.dimensions,
        }
    }

    /// Shows a new video. Where its window is not open yet, a window that
    /// fills the screen is opened for it first.
    pub fn add_new_video(&mut self, video_stream: VideoStream) -> (r: Vec<WindowAction>)
        ensures
            final(self)@ == (DisplayState {
                windows: old(self)@.windows.insert(video_stream.window_number),
                channels: old(self)@.channels.insert(video_stream.channel, spec_place(video_stream)),
            }),
            r@ == (if old(self)@.windows.contains(video_stream.window_number) {
                seq![
                    WindowAction::AddVideo {
                        window_number: video_stream.window_number,
                        channel: video_stream.channel,
                    },
                ]
            } else {
                seq![
                    WindowAction::Open {
                        window_number: video_stream.window_number,
                        fullscreen: true,
                        dimensions: None,
                    },
                    WindowAction::AddVideo {
                        window_number: video_stream.window_number,
                        channel: video_stream.channel,
                    },
                ]
            }),
    {
        let place = ChannelPlace {
            window_number: video_stream.window_number,
            allocation: Rectangle {
                x: video_stream.x,
                y: video_stream.y,
                width: video_stream.width,
                height: video_stream.height,
            },
        };
        table_insert(&mut self.channel_map, video_stream.channel, place);
        let mut actions: Vec<WindowAction> = Vec::new();
        if set_insert(&mut self.overlay_map, video_stream.window_number) {
            actions.push(
                WindowAction::Open {
                    window_number: video_stream.window_number,
                    fullscreen: true,
                    dimensions: None,
                },
            );
        }
        actions.push(
            WindowAction::AddVideo {
                window_number: video_stream.window_number,
                channel: video_stream.channel,
            },
        );
        actions
    }

    /// Gives the video of a channel a new place and size. A channel
    /// without a video is left alone.
    pub fn change_allocation(&mut self, channel_allocation: ChannelAllocation) -> (r: Option<
        WindowAction,
    >)
        ensures
            final(self)@ == spec_reallocated(old(self)@, channel_allocation),
            r == spec_relayout(old(self)@, channel_allocation.channel),
    {
        let found = match table_get(&self.channel_map, channel_allocation.channel) {
            Some(place) => Some(*place),
            None => None,
        };
        match found {
            Some(place) => {
                let next = ChannelPlace {
                    window_number: place.window_number,
                    allocation: Rectangle {
                        x: channel_allocation.video_frame.left,
                        y: channel_allocation.video_frame.top,
                        width: channel_allocation.video_frame.width,
                        height: channel_allocation.video_frame.height,
                    },
                };
                table_insert(&mut self.channel_map, channel_allocation.channel, next);
                if set_contains(&self.overlay_map, place.window_number) {
                    Some(WindowAction::Resize { window_number: place.window_number })
                } else {
                    None
                }
            },
            None => None,
        }
    }

    /// Moves the video of a channel by one pixel. A channel without a
    /// video is left alone.
    pub fn change_alignment(&mut self, channel_realignment: ChannelRealignment) -> (r: Option<
        WindowAction,
    >)
        ensures
            final(self)@ == spec_realigned(old(self)@, channel_realignment),
            r == spec_relayout(old(self)@, channel_realignment.channel),
    {
        let found = match table_get(&self.channel_map, channel_realignment.channel) {
            Some(place) => Some(*place),
            None => None,
        };
        match found {
            Some(place) => {
                let next = ChannelPlace {
                    window_number: place.window_number,
                    allocation: place.allocation.moved(channel_realignment.direction),
                };
                table_insert(&mut self.channel_map, channel_realignment.channel, next);
                if set_contains(&self.overlay_map, place.window_number) {
                    Some(WindowAction::Resize { window_number: place.window_number })
                } else {
                    None
                }
            },
            None => None,
        }
    }

    /// The rectangle that the video of `channel` fills, if it has one.
    pub fn child_position(&self, channel: u32) -> (r: Option<Rectangle>)
        ensures
            r == (if self@.channels.contains_key(channel) {
                Some(self@.channels[channel].allocation)
            } else {
                None
            }),
    {
        match table_get(&self.channel_map, channel) {
            Some(place) => Some(place.allocation),
            None => None,
        }
    }
}

} // verus!
