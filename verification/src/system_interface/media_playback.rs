//! The decisions of the playback driver.
//!
//! Each channel has a player. This module keeps track of the channels that
//! have been defined and of the media each one loops, and says which
//! operations a request comes to on the player of its channel. The embedding
//! program owns the players and carries the operations out in order; the
//! first one that fails ends the request with that operation's message.

use vstd::prelude::*;
use fnv::FnvHashMap;
use crate::definitions::connections::{clone_text, AudioDevice, MediaCue, VideoStream};
use crate::definitions::media::{ChannelSeek, ChannelState, MediaChannel, PlaybackState};
use crate::system_interface::{DriverCommand, DriverReply};
use crate::tables::{table_get, table_insert, table_keys};

verus! {

/// The distance, in milliseconds, kept from the end of the media when a
/// seek asks for a position past the end.
pub const END_MARGIN_MILLIS: u64 = 300;

/// One operation on the player of a channel.
#[derive(Debug, PartialEq, Eq)]
pub enum PlayerAction {
    /// Make the player.
    Create,
    /// Give the player an ALSA sink on the named device.
    AlsaSink { device_name: String },
    /// Give the player a PulseAudio sink on the named device.
    PulseSink { device_name: String },
    /// Take the player's video overlay, to show its video in a window.
    Overlay,
    /// Take the player's message bus.
    Bus,
    /// Watch the bus for the end of the media, to start the loop media.
    Watch,
    /// Point the player at the media.
    SetUri { uri: String },
    /// Stop the media.
    Stop,
    /// Start the media the player was just pointed at.
    Start,
    /// Let held media run.
    Play,
    /// Hold the media.
    Pause,
    /// Move to a position, in milliseconds from the start.
    SeekTo { position: u64 },
}

impl Clone for PlayerAction {
    fn clone(&self) -> (r: Self)
        ensures
            r == *self,
    {
        match self {
            PlayerAction::Create => PlayerAction::Create,
            PlayerAction::AlsaSink { device_name } => PlayerAction::AlsaSink {
                device_name: device_name.clone(),
            },
            PlayerAction::PulseSink { device_name } => PlayerAction::PulseSink {
                device_name: device_name.clone(),
            },
            PlayerAction::Overlay => PlayerAction::Overlay,
            PlayerAction::Bus => PlayerAction::Bus,
            PlayerAction::Watch => PlayerAction::Watch,
            PlayerAction::SetUri { uri } => PlayerAction::SetUri { uri: uri.clone() },
            PlayerAction::Stop => PlayerAction::Stop,
            PlayerAction::Start => PlayerAction::Start,
            PlayerAction::Play => PlayerAction::Play,
            PlayerAction::Pause => PlayerAction::Pause,
            PlayerAction::SeekTo { position } => PlayerAction::SeekTo { position: *position },
        }
    }
}

/// The message with which a request ends when `action` fails. Pointing
/// the player at media cannot fail and has none.
pub open spec fn spec_failure_message(action: PlayerAction) -> Option<Seq<char>> {
    match action {
        PlayerAction::Create => Some("Unable to create playbin."@),
        PlayerAction::AlsaSink { .. } => Some("Unable to create alsasink."@),
        PlayerAction::PulseSink { .. } => Some("Unable to create pulsesink."@),
        PlayerAction::Overlay => Some("Unable to create video stream."@),
        PlayerAction::Bus => Some("Unable to set loop media: Invalid bus."@),
        PlayerAction::Watch => Some("Unable to set loop media: Duplicate watch."@),
        PlayerAction::SetUri { .. } => None,
        PlayerAction::Stop => Some("Unable to stop media."@),
        PlayerAction::Start => Some("Unable to start playing media."@),
        PlayerAction::Play => Some("Unable to play media."@),
        PlayerAction::Pause => Some("Unable to pause media."@),
        PlayerAction::SeekTo { .. } => Some("Unable to seek media."@),
    }
}

impl PlayerAction {
    /// The message with which a request ends when the action fails.
    pub fn failure_message(&self) -> (r: Option<String>)
        ensures
            r is Some == spec_failure_message(*self) is Some,
            r is Some ==> r->0@ == spec_failure_message(*self)->0,
    {
        match self {
            PlayerAction::Create => Some("Unable to create playbin.".to_owned()),
            PlayerAction::AlsaSink { .. } => Some("Unable to create alsasink.".to_owned()),
            PlayerAction::PulseSink { .. } => Some("Unable to create pulsesink.".to_owned()),
            PlayerAction::Overlay => Some("Unable to create video stream.".to_owned()),
            PlayerAction::Bus => Some("Unable to set loop media: Invalid bus.".to_owned()),
            PlayerAction::Watch => Some("Unable to set loop media: Duplicate watch.".to_owned()),
            PlayerAction::SetUri { .. } => None,
            PlayerAction::Stop => Some("Unable to stop media.".to_owned()),
            PlayerAction::Start => Some("Unable to start playing media.".to_owned()),
            PlayerAction::Play => Some("Unable to play media.".to_owned()),
            PlayerAction::Pause => Some("Unable to pause media.".to_owned()),
            PlayerAction::SeekTo { .. } => Some("Unable to seek media.".to_owned()),
        }
    }
}

/// What the driver keeps of a channel.
#[derive(Debug, PartialEq, Eq)]
pub struct InternalChannel {
    /// The media the channel loops when a cue names none.
    pub channel_loop: Option<String>,
    /// The media that starts when the current media ends.
    pub current_loop: Option<String>,
}

/// What defining a channel comes to.
#[derive(Debug, PartialEq, Eq)]
pub struct ChannelSetup {
    /// The operations on the new player, in order.
    pub actions: Vec<PlayerAction>,
    /// The video to tell the display of, where the channel has a frame.
    pub video_stream: Option<VideoStream>,
}

/// The operation that gives a player its audio sink, if the channel names
/// a device that needs one.
pub open spec fn spec_sink_actions(audio_device: Option<AudioDevice>) -> Seq<PlayerAction> {
    match audio_device {
        Some(AudioDevice::Alsa { device_name }) => seq![PlayerAction::AlsaSink { device_name }],
        Some(AudioDevice::Pulse { device_name }) => seq![PlayerAction::PulseSink { device_name }],
        _ => Seq::empty(),
    }
}

/// The operations that start `media` on a player.
pub open spec fn spec_start_actions(media: Option<String>) -> Seq<PlayerAction> {
    match media {
        Some(uri) => seq![PlayerAction::SetUri { uri }, PlayerAction::Start],
        None => Seq::empty(),
    }
}

/// The operations that define a channel: make the player, give it its
/// audio sink, take its overlay where it has a frame, watch for the end
/// of media, and start the loop media where there is one.
pub open spec fn spec_channel_actions(media_channel: MediaChannel) -> Seq<PlayerAction> {
    seq![PlayerAction::Create] + spec_sink_actions(media_channel.audio_device) + (
    if media_channel.video_frame is Some {
        seq![PlayerAction::Overlay]
    } else {
        Seq::empty()
    }) + seq![PlayerAction::Bus, PlayerAction::Watch] + spec_start_actions(
        media_channel.loop_media,
    )
}

/// The video of a channel, where it has a frame.
pub open spec fn spec_channel_stream(media_channel: MediaChannel) -> Option<VideoStream> {
    match media_channel.video_frame {
        Some(frame) => Some(
            VideoStream {
                channel: media_channel.channel,
                window_number: frame.window_number,
                x: frame.left,
                y: frame.top,
                width: frame.width,
                height: frame.height,
            },
        ),
        None => None,
    }
}

/// The operations that play a cue: stop what plays, point the player at
/// the media, start it.
pub open spec fn spec_cue_actions(media_cue: MediaCue) -> Seq<PlayerAction> {
    seq![PlayerAction::Stop, PlayerAction::SetUri { uri: media_cue.uri }, PlayerAction::Start]
}

/// The media that loops after a cue: the one the cue names, else the one
/// the channel was defined with.
pub open spec fn spec_loop_after(channel: InternalChannel, media_cue: MediaCue) -> Option<String> {
    if media_cue.loop_media is Some {
        media_cue.loop_media
    } else {
        channel.channel_loop
    }
}

/// What the driver keeps of a channel that has just been defined.
pub open spec fn spec_new_channel(media_channel: MediaChannel) -> InternalChannel {
    InternalChannel {
        channel_loop: media_channel.loop_media,
        current_loop: media_channel.loop_media,
    }
}

/// The channels of the driver after a call was made and answered.
///
/// A call that failed leaves them as they were. A channel that was
/// defined is taken note of, unless its number was defined already. A cue
/// that started sets what its channel loops next. No other call changes
/// anything.
pub open spec fn spec_after_command(
    driver: Map<u32, InternalChannel>,
    command: DriverCommand,
    reply: DriverReply,
) -> Map<u32, InternalChannel> {
    if reply is Failed {
        driver
    } else {
        match command {
            DriverCommand::DefineChannel { media_channel } => if driver.contains_key(
                media_channel.channel,
            ) {
                driver
            } else {
                driver.insert(media_channel.channel, spec_new_channel(media_channel))
            },
            DriverCommand::CueMedia { media_cue } => if driver.contains_key(media_cue.channel) {
                driver.insert(
                    media_cue.channel,
                    InternalChannel {
                        channel_loop: driver[media_cue.channel].channel_loop,
                        current_loop: spec_loop_after(driver[media_cue.channel], media_cue),
                    },
                )
            } else {
                driver
            },
            _ => driver,
        }
    }
}

/// The position a seek goes to in media of length `duration`: the one
/// asked for unless it lies past the end, else a short way before the end,
/// or the start where the media is shorter than that.
pub open spec fn spec_seek_target(duration: u64, position: u64) -> u64 {
    if position <= duration {
        position
    } else if duration >= 300 {
        (duration - 300) as u64
    } else {
        0
    }
}

/// The position a seek goes to in media of length `duration`, both in
/// milliseconds.
pub fn seek_target(duration: u64, position: u64) -> (r: u64)
    ensures
        r == spec_seek_target(duration, position),
        r <= duration,
{
    if position <= duration {
        position
    } else if duration >= END_MARGIN_MILLIS {
        duration - END_MARGIN_MILLIS
    } else {
        0
    }
}

/// The channels of the playback driver.
#[derive(Debug)]
pub struct MediaPlayback {
    channels: FnvHashMap<u32, InternalChannel>,
}

impl View for MediaPlayback {
    type V = Map<u32, InternalChannel>;

    closed spec fn view(&self) -> Map<u32, InternalChannel> {
        self.channels@
    }
}

impl MediaPlayback {
    /// A driver without channels.
    pub fn new() -> (r: MediaPlayback)
        ensures
            r@ == Map::<u32, InternalChannel>::empty(),
    {
        MediaPlayback { channels: FnvHashMap::default() }
    }

    /// Whether `channel` has been defined.
    pub fn is_defined(&self, channel: u32) -> (r: bool)
        ensures
            r == self@.contains_key(channel),
    {
        table_get(&self.channels, channel).is_some()
    }

    /// The channels whose players are to be stopped to stop everything:
    /// every channel, once, in no particular order.
    pub fn all_stop(&self) -> (r: Vec<u32>)
        ensures
            r@.no_duplicates(),
            r@.to_set() == self@.dom(),
    {
        table_keys(&self.channels)
    }

    /// What defining `media_channel` comes to. Refused where a channel
    /// with that number is defined already.
    pub fn define_channel(&self, media_channel: &MediaChannel) -> (r: Result<ChannelSetup, String>)
        ensures
            r is Err <==> self@.contains_key(media_channel.channel),
            r is Err ==> r->Err_0@ == "Channel is already defined."@,
            r is Ok ==> r->Ok_0.actions@ == spec_channel_actions(*media_channel)
                && r->Ok_0.video_stream == spec_channel_stream(*media_channel),
    {
        if self.is_defined(media_channel.channel) {
            return Err("Channel is already defined.".to_owned());
        }
        let mut actions: Vec<PlayerAction> = Vec::new();
        actions.push(PlayerAction::Create);
        match &media_channel.audio_device {
            Some(AudioDevice::Alsa { device_name }) => {
                actions.push(PlayerAction::AlsaSink { device_name: device_name.clone() });
            },
            Some(AudioDevice::Pulse { device_name }) => {
                actions.push(PlayerAction::PulseSink { device_name: device_name.clone() });
            },
            _ => {},
        }
        let video_stream = match media_channel.video_frame {
            Some(frame) => {
                actions.push(PlayerAction::Overlay);
                Some(VideoStream::new(media_channel.channel, frame))
            },
            None => None,
        };
        actions.push(PlayerAction::Bus);
        actions.push(PlayerAction::Watch);
        match &media_channel.loop_media {
            Some(uri) => {
                actions.push(PlayerAction::SetUri { uri: uri.clone() });
                actions.push(PlayerAction::Start);
            },
            None => {},
        }
        assert(actions@ =~= spec_channel_actions(*media_channel));
        Ok(ChannelSetup { actions, video_stream })
    }

    /// Takes note that the player of `media_channel` has been set up. The
    /// channel then loops the media it was defined with. A channel that
    /// is defined already stays as it is.
    pub fn channel_defined(&mut self, media_channel: &MediaChannel)
        ensures
            final(self)@ == (if old(self)@.contains_key(media_channel.channel) {
                old(self)@
            } else {
                old(self)@.insert(media_channel.channel, spec_new_channel(*media_channel))
            }),
    {
        if !self.is_defined(media_channel.channel) {
            table_insert(
                &mut self.channels,
                media_channel.channel,
                InternalChannel {
                    channel_loop: clone_text(&media_channel.loop_media),
                    current_loop: clone_text(&media_channel.loop_media),
                },
            );
        }
    }

    /// The operations that play `media_cue`. Refused where its channel is
    /// not defined.
    pub fn cue_media(&self, media_cue: &MediaCue) -> (r: Result<Vec<PlayerAction>, String>)
        ensures
            r is Err <==> !self@.contains_key(media_cue.channel),
            r is Err ==> r->Err_0@ == "Unable to cue media: Channel not defined."@,
            r is Ok ==> r->Ok_0@ == spec_cue_actions(*media_cue),
    {
        if !self.is_defined(media_cue.channel) {
            return Err("Unable to cue media: Channel not defined.".to_owned());
        }
        let mut actions: Vec<PlayerAction> = Vec::new();
        actions.push(PlayerAction::Stop);
        actions.push(PlayerAction::SetUri { uri: media_cue.uri.clone() });
        actions.push(PlayerAction::Start);
        assert(actions@ =~= spec_cue_actions(*media_cue));
        Ok(actions)
    }

    /// Takes note that `media_cue` has started. Its channel then loops the
    /// media the cue names, or else the media the channel was defined
    /// with. Nothing changes where the channel is not defined.
    pub fn media_cued(&mut self, media_cue: &MediaCue)
        ensures
            final(self)@ == (if old(self)@.contains_key(media_cue.channel) {
                old(self)@.insert(
                    media_cue.channel,
                    InternalChannel {
                        channel_loop: old(self)@[media_cue.channel].channel_loop,
                        current_loop: spec_loop_after(old(self)@[media_cue.channel], *media_cue),
                    },
                )
            } else {
                old(self)@
            }),
    {
        let next = match table_get(&self.channels, media_cue.channel) {
            Some(channel) => {
                let current_loop = match &media_cue.loop_media {
                    Some(media) => Some(media.clone()),
                    None => clone_text(&channel.channel_loop),
                };
                Some(InternalChannel { channel_loop: clone_text(&channel.channel_loop), current_loop })
            },
            None => None,
        };
        match next {
            Some(channel) => {
                table_insert(&mut self.channels, media_cue.channel, channel);
            },
            None => {},
        }
    }

    /// The operation that brings a channel into a state. Refused where the
    /// channel is not defined.
    pub fn change_state(&self, channel_state: &ChannelState) -> (r: Result<PlayerAction, String>)
        ensures
            r is Err <==> !self@.contains_key(channel_state.channel),
            r is Err ==> r->Err_0@ == "Unable to change state: Channel not defined."@,
            r is Ok ==> r->Ok_0 == (match channel_state.state {
                PlaybackState::Playing => PlayerAction::Play,
                PlaybackState::Paused => PlayerAction::Pause,
            }),
    {
        if !self.is_defined(channel_state.channel) {
            return Err("Unable to change state: Channel not defined.".to_owned());
        }
        match channel_state.state {
            PlaybackState::Playing => Ok(PlayerAction::Play),
            PlaybackState::Paused => Ok(PlayerAction::Pause),
        }
    }

    /// The operation that moves a channel to a position. `duration` is the
    /// length of the media the channel plays, in milliseconds, or `None`
    /// where it plays none. Refused where the channel is not defined or
    /// plays no media. A position past the end is brought back to a short
    /// way before the end.
    pub fn seek(&self, channel_seek: &ChannelSeek, duration: Option<u64>) -> (r: Result<
        PlayerAction,
        String,
    >)
        ensures
            r is Err <==> !self@.contains_key(channel_seek.channel) || duration is None,
            !self@.contains_key(channel_seek.channel) ==> r is Err && r->Err_0@
                == "Unable to seek media: Channel not defined."@,
            self@.contains_key(channel_seek.channel) && duration is None ==> r is Err && r->Err_0@
                == "Unable to seek media: No media playing."@,
            r is Ok ==> r->Ok_0 == (PlayerAction::SeekTo {
                position: spec_seek_target(duration->0, channel_seek.position),
            }),
    {
        if !self.is_defined(channel_seek.channel) {
            return Err("Unable to seek media: Channel not defined.".to_owned());
        }
        match duration {
            Some(length) => Ok(
                PlayerAction::SeekTo { position: seek_target(length, channel_seek.position) },
            ),
            None => Err("Unable to seek media: No media playing.".to_owned()),
        }
    }

    /// Takes note of a call that was made and answered.
    pub fn command_answered(&mut self, command: &DriverCommand, reply: &DriverReply)
        ensures
            final(self)@ == spec_after_command(old(self)@, *command, *reply),
    {
        match reply {
            DriverReply::Failed(_) => {},
            _ => match command {
                DriverCommand::DefineChannel { media_channel } => {
                    self.channel_defined(media_channel);
                },
                DriverCommand::CueMedia { media_cue } => {
                    self.media_cued(media_cue);
                },
                _ => {},
            },
        }
    }

    /// The operations that follow the end of the media on a channel: the
    /// media the channel loops is started, where there is one. These
    /// operations are all tried; none of them ends anything by failing.
    pub fn end_of_stream(&self, channel: u32) -> (r: Vec<PlayerAction>)
        ensures
            r@ == (if self@.contains_key(channel) && self@[channel].current_loop is Some {
                seq![
                    PlayerAction::Stop,
                    PlayerAction::SetUri { uri: self@[channel].current_loop->0 },
                    PlayerAction::Start,
                ]
            } else {
                Seq::empty()
            }),
    {
        let mut actions: Vec<PlayerAction> = Vec::new();
        match table_get(&self.channels, channel) {
            Some(found) => match &found.current_loop {
                Some(media) => {
                    actions.push(PlayerAction::Stop);
                    actions.push(PlayerAction::SetUri { uri: media.clone() });
                    actions.push(PlayerAction::Start);
                },
                None => {},
            },
            None => {},
        }
        assert(actions@ =~= (if self@.contains_key(channel) && self@[channel].current_loop is Some {
            seq![
                PlayerAction::Stop,
                PlayerAction::SetUri { uri: self@[channel].current_loop->0 },
                PlayerAction::Start,
            ]
        } else {
            Seq::empty()
        }));
        actions
    }
}

} // verus!
