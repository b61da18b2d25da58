//! Identifiers, cues and devices.

use vstd::prelude::*;
use vstd::string::StringExecFns;
use crate::definitions::media::VideoFrameWithWindow;
use crate::definitions::time::Span;

verus! {

/// A copy of an optional text.
pub fn clone_text(text: &Option<String>) -> (r: Option<String>)
    ensures
        r == *text,
{
    match text {
        Some(inner) => Some(inner.clone()),
        None => None,
    }
}

/// An identifier that may be left unspecified.
#[derive(Clone, Copy, Debug, PartialEq, Eq)]
pub struct Identifier {
    pub id: Option<u32>,
}

/// The character of a decimal digit.
pub open spec fn spec_digit(digit: nat) -> Seq<char> {
    if digit == 0 {
        "0"@
    } else if digit == 1 {
        "1"@
    } else if digit == 2 {
        "2"@
    } else if digit == 3 {
        "3"@
    } else if digit == 4 {
        "4"@
    } else if digit == 5 {
        "5"@
    } else if digit == 6 {
        "6"@
    } else if digit == 7 {
        "7"@
    } else if digit == 8 {
        "8"@
    } else {
        "9"@
    }
}

/// A number written in decimal digits, without leading zeros.
pub open spec fn spec_decimal(number: nat) -> Seq<char>
    decreases number,
{
    if number < 10 {
        spec_digit(number)
    } else {
        spec_decimal(number / 10) + spec_digit(number % 10)
    }
}

/// The character of a decimal digit.
fn digit(value: u32) -> (r: &'static str)
    requires
        value < 10,
    ensures
        r@ == spec_digit(value as nat),
{
    if value == 0 {
        "0"
    } else if value == 1 {
        "1"
    } else if value == 2 {
        "2"
    } else if value == 3 {
        "3"
    } else if value == 4 {
        "4"
    } else if value == 5 {
        "5"
    } else if value == 6 {
        "6"
    } else if value == 7 {
        "7"
    } else if value == 8 {
        "8"
    } else {
        "9"
    }
}

/// A number written in decimal digits, without leading zeros.
pub fn decimal(number: u32) -> (r: String)
    ensures
        r@ == spec_decimal(number as nat),
    decreases number,
{
    if number < 10 {
        digit(number).to_owned()
    } else {
        decimal(number / 10).concat(digit(number % 10))
    }
}

impl Identifier {
    /// The identifier in words: its number in decimal, or `default` where
    /// it has none.
    pub open spec fn spec_to_string(self) -> Seq<char> {
        match self.id {
            Some(id) => spec_decimal(id as nat),
            None => "default"@,
        }
    }

    /// The identifier in words: its number in decimal, or `default` where
    /// it has none.
    pub fn to_string(&self) -> (r: String)
        ensures
            r@ == self.spec_to_string(),
    {
        match self.id {
            Some(id) => decimal(id),
            None => "default".to_owned(),
        }
    }
}

/// A fade of one DMX channel to a value.
#[derive(Clone, Copy, Debug, PartialEq, Eq)]
pub struct DmxFade {
    /// The DMX channel.
    pub channel: u32,
    /// The value at the end of the fade.
    pub value: u8,
    /// How long the fade takes; `None` is at once.
    pub duration: Option<Span>,
}

/// A request to play one piece of media on a channel.
#[derive(Debug, PartialEq, Eq)]
pub struct MediaCue {
    /// Where the media is found.
    pub uri: String,
    /// The channel to play it on. A cue replaces what the channel played before.
    pub channel: u32,
    /// The media to loop once this media has ended.
    pub loop_media: Option<String>,
}

impl Clone for MediaCue {
    fn clone(&self) -> (r: Self)
        ensures
            r == *self,
    {
        MediaCue {
            uri: self.uri.clone(),
            channel: self.channel,
            loop_media: clone_text(&self.loop_media),
        }
    }
}

/// An audio sink.
#[derive(Debug, PartialEq, Eq)]
pub enum AudioDevice {
    Alsa { device_name: String },
    Pulse { device_name: String },
    Jack,
}

impl Clone for AudioDevice {
    fn clone(&self) -> (r: Self)
        ensures
            r == *self,
    {
        match self {
            AudioDevice::Alsa { device_name } => AudioDevice::Alsa {
                device_name: device_name.clone(),
            },
            AudioDevice::Pulse { device_name } => AudioDevice::Pulse {
                device_name: device_name.clone(),
            },
            AudioDevice::Jack => AudioDevice::Jack,
        }
    }
}

/// The video of a channel as the display sees it: the window that shows it
/// and the rectangle it fills there.
#[derive(Clone, Copy, Debug, PartialEq, Eq)]
pub struct VideoStream {
    pub channel: u32,
    pub window_number: u32,
    /// The rectangle's left edge.
    pub x: i32,
    /// The rectangle's top edge.
    pub y: i32,
    pub width: i32,
    pub height: i32,
}

impl VideoStream {
    /// The stream of `channel` shown in `frame`.
    pub fn new(channel: u32, frame: VideoFrameWithWindow) -> (r: VideoStream)
        ensures
            r == (VideoStream {
                channel,
                window_number: frame.window_number,
                x: frame.left,
                y: frame.top,
                width: frame.width,
                height: frame.height,
            }),
    {
        VideoStream {
            channel,
            window_number: frame.window_number,
            x: frame.left,
            y: frame.top,
            width: frame.width,
            height: frame.height,
        }
    }
}

} // verus!
