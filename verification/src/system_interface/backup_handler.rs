//! The registry of windows, channels and playback records, and the rules by
//! which it is mirrored onto a remote key-value store.
//!
//! The handler never touches the store itself. Every change to the registry
//! answers with a [`BackupOutcome`] that names the key to rewrite, and the
//! embedding program writes the handler's current list or playlist under
//! that key. A failed write is the program's to log; the registry stays as
//! it is.

use vstd::prelude::*;
use vstd::string::StringExecFns;
use crate::definitions::backup::{spec_advanced, MediaPlayback, MediaPlaylist};
use crate::definitions::connections::MediaCue;
use crate::definitions::media::{
    ChannelAllocation, ChannelRealignment, ChannelSeek, ChannelState, MediaChannel,
    WindowDefinition,
};
use crate::definitions::time::Span;

verus! {

/// One of the three values a node keeps on the store.
#[derive(Clone, Copy, Debug, PartialEq, Eq)]
pub enum StoreKey {
    Windows,
    Channels,
    Media,
}

/// What a change to the registry came to.
#[derive(Clone, Copy, Debug, PartialEq, Eq)]
pub enum BackupOutcome {
    /// The change does not apply; the registry is as it was.
    Rejected,
    /// The registry changed and there is no store to write to.
    Applied,
    /// The registry changed and the value under the key is to be rewritten.
    Write(StoreKey),
}

/// What a read of one key of the store gave.
#[derive(Debug, PartialEq, Eq)]
pub enum Fetched<T> {
    /// The store holds nothing under the key.
    Absent,
    /// The store holds something that could not be read as a value.
    Unreadable,
    /// The value that was read.
    Value(T),
}

/// The registry as contracts see it.
pub struct Registry {
    /// The listening address of the node, which names its keys on the store.
    pub address: Seq<char>,
    /// Whether there is a store to write to.
    pub connected: bool,
    /// The windows, in the order they were defined.
    pub windows: Seq<WindowDefinition>,
    /// The channels, in the order they were defined.
    pub channels: Seq<MediaChannel>,
    /// The playback record of every channel that has been cued.
    pub media: Map<u32, MediaPlayback>,
}

/// The text after the address in the name of a key.
pub open spec fn spec_key_suffix(key: StoreKey) -> Seq<char> {
    match key {
        StoreKey::Windows => ":windows"@,
        StoreKey::Channels => ":channels"@,
        StoreKey::Media => ":media"@,
    }
}

/// The name of a key on the store: the address of the node, then the suffix.
pub open spec fn spec_store_key(address: Seq<char>, key: StoreKey) -> Seq<char> {
    address + spec_key_suffix(key)
}

/// The names of the three keys of a node, in the order they are deleted.
pub open spec fn spec_all_keys(address: Seq<char>) -> Seq<Seq<char>> {
    seq![
        spec_store_key(address, StoreKey::Media),
        spec_store_key(address, StoreKey::Channels),
        spec_store_key(address, StoreKey::Windows),
    ]
}

/// Whether some channel numbered `channel` in the list has no frame.
pub open spec fn spec_lacks_frame(channels: Seq<MediaChannel>, channel: u32) -> bool {
    exists|i: int|
        0 <= i < channels.len() && (#[trigger] channels[i]).channel == channel
            && channels[i].video_frame is None
}

/// The channel after a realignment: a channel with the number and a frame
/// has that frame moved; any other is untouched.
pub open spec fn spec_realigned_channel(
    channel: MediaChannel,
    realignment: ChannelRealignment,
) -> MediaChannel {
    if channel.channel == realignment.channel && channel.video_frame is Some {
        MediaChannel {
            video_frame: Some(channel.video_frame->0.spec_moved(realignment.direction)),
            ..channel
        }
    } else {
        channel
    }
}

/// The channel after a resize: a channel with the number and a frame has
/// that frame replaced, in the same window; any other is untouched.
pub open spec fn spec_resized_channel(
    channel: MediaChannel,
    allocation: ChannelAllocation,
) -> MediaChannel {
    if channel.channel == allocation.channel && channel.video_frame is Some {
        MediaChannel {
            video_frame: Some(channel.video_frame->0.spec_resized(allocation.video_frame)),
            ..channel
        }
    } else {
        channel
    }
}

/// The value a fetched list stands for: itself, or the empty list where
/// nothing readable was found.
pub open spec fn spec_fetched_list<T>(fetched: Fetched<Vec<T>>) -> Seq<T> {
    match fetched {
        Fetched::Value(list) => list@,
        _ => Seq::empty(),
    }
}

/// The value a fetched playlist stands for: itself, or the empty playlist
/// where nothing readable was found.
pub open spec fn spec_fetched_media(fetched: Fetched<MediaPlaylist>) -> Map<u32, MediaPlayback> {
    match fetched {
        Fetched::Value(playlist) => playlist@,
        _ => Map::empty(),
    }
}

impl Registry {
    /// The registry of a node that has defined nothing yet.
    pub open spec fn empty(address: Seq<char>, connected: bool) -> Registry {
        Registry {
            address,
            connected,
            windows: Seq::empty(),
            channels: Seq::empty(),
            media: Map::empty(),
        }
    }

    /// The outcome of a change that touched the value under `key`.
    pub open spec fn outcome(self, key: StoreKey) -> BackupOutcome {
        if self.connected {
            BackupOutcome::Write(key)
        } else {
            BackupOutcome::Applied
        }
    }

    /// The registry with one more window at the end of the list.
    pub open spec fn with_window(self, window: WindowDefinition) -> Registry {
        Registry { windows: self.windows.push(window), ..self }
    }

    /// The registry with one more channel at the end of the list.
    pub open spec fn with_channel(self, channel: MediaChannel) -> Registry {
        Registry { channels: self.channels.push(channel), ..self }
    }

    /// The registry after a realignment.
    pub open spec fn realigned(self, realignment: ChannelRealignment) -> Registry {
        Registry {
            channels: self.channels.map_values(
                |channel: MediaChannel| spec_realigned_channel(channel, realignment),
            ),
            ..self
        }
    }

    /// The registry after a resize.
    pub open spec fn resized(self, allocation: ChannelAllocation) -> Registry {
        Registry {
            channels: self.channels.map_values(
                |channel: MediaChannel| spec_resized_channel(channel, allocation),
            ),
            ..self
        }
    }

    /// The registry after `elapsed` has passed on every playback record.
    pub open spec fn advanced(self, elapsed: Span) -> Registry {
        Registry { media: spec_advanced(self.media, elapsed), ..self }
    }

    /// The registry after a cue that came `elapsed` after the last change to
    /// the records: the record of the cue's channel is replaced by a fresh one.
    pub open spec fn with_cue(self, media_cue: MediaCue, elapsed: Span) -> Registry {
        Registry {
            media: spec_advanced(self.media, elapsed).insert(
                media_cue.channel,
                MediaPlayback::spec_started(media_cue),
            ),
            ..self
        }
    }

    /// The registry after a change of state on a channel that has a record.
    pub open spec fn with_state(self, channel_state: ChannelState, elapsed: Span) -> Registry {
        let moved = spec_advanced(self.media, elapsed);
        Registry {
            media: moved.insert(
                channel_state.channel,
                moved[channel_state.channel].spec_with_state(channel_state.state),
            ),
            ..self
        }
    }

    /// The registry after a seek on a channel that has a record.
    pub open spec fn with_seek(self, channel_seek: ChannelSeek, elapsed: Span) -> Registry {
        let moved = spec_advanced(self.media, elapsed);
        Registry {
            media: moved.insert(
                channel_seek.channel,
                moved[channel_seek.channel].spec_with_position(channel_seek.position),
            ),
            ..self
        }
    }

    /// The registry with the three values replaced by what was read from
    /// the store.
    pub open spec fn reloaded(
        self,
        windows: Seq<WindowDefinition>,
        channels: Seq<MediaChannel>,
        media: Map<u32, MediaPlayback>,
    ) -> Registry {
        Registry { windows, channels, media, ..self }
    }
}

/// A copy of a list of windows.
pub fn clone_windows(list: &Vec<WindowDefinition>) -> (r: Vec<WindowDefinition>)
    ensures
        r@ == list@,
{
    let mut copy: Vec<WindowDefinition> = Vec::new();
    let mut i: usize = 0;
    while i < list.len()
        invariant
            i <= list.len(),
            copy@ == list@.take(i as int),
        decreases list.len() - i,
    {
        copy.push(list[i]);
        assert(list@.take(i + 1) == list@.take(i as int).push(list@[i as int]));
        i += 1;
    }
    assert(list@.take(list.len() as int) == list@);
    copy
}

/// A copy of a list of channels.
pub fn clone_channels(list: &Vec<MediaChannel>) -> (r: Vec<MediaChannel>)
    ensures
        r@ == list@,
{
    let mut copy: Vec<MediaChannel> = Vec::new();
    let mut i: usize = 0;
    while i < list.len()
        invariant
            i <= list.len(),
            copy@ == list@.take(i as int),
        decreases list.len() - i,
    {
        copy.push(list[i].clone());
        assert(list@.take(i + 1) == list@.take(i as int).push(list@[i as int]));
        i += 1;
    }
    assert(list@.take(list.len() as int) == list@);
    copy
}

/// Whether some channel numbered `channel` in the list has no frame.
pub fn lacks_frame(list: &Vec<MediaChannel>, channel: u32) -> (r: bool)
    ensures
        r == spec_lacks_frame(list@, channel),
{
    let mut i: usize = 0;
    while i < list.len()
        invariant
            i <= list.len(),
            forall|j: int|
                0 <= j < i ==> !((#[trigger] list@[j]).channel == channel
                    && list@[j].video_frame is None),
        decreases list.len() - i,
    {
        if list[i].channel == channel && list[i].video_frame.is_none() {
            return true;
        }
        i += 1;
    }
    false
}

/// The registry of a node and the state of its mirror on the store.
#[derive(Debug)]
pub struct BackupHandler {
    address: String,
    connected: bool,
    window_list: Vec<WindowDefinition>,
    channel_list: Vec<MediaChannel>,
    media_playlist: MediaPlaylist,
}

impl View for BackupHandler {
    type V = Registry;

    closed spec fn view(&self) -> Registry {
        Registry {
            address: self.address@,
            connected: self.connected,
            windows: self.window_list@,
            channels: self.channel_list@,
            media: self.media_playlist@,
        }
    }
}

impl BackupHandler {
    /// A handler for the node that listens at `address`, with nothing
    /// defined. `connected` says whether there is a store to write to.
    pub fn new(address: String, connected: bool) -> (r: BackupHandler)
        ensures
            r@ == Registry::empty(address@, connected),
    {
        BackupHandler {
            address,
            connected,
            window_list: Vec::new(),
            channel_list: Vec::new(),
            media_playlist: MediaPlaylist::new(),
        }
    }

    /// Whether there is a store to write to.
    pub fn is_connected(&self) -> (r: bool)
        ensures
            r == self@.connected,
    {
        self.connected
    }

    /// The windows, in the order they were defined.
    pub fn window_list(&self) -> (r: &Vec<WindowDefinition>)
        ensures
            r@ == self@.windows,
    {
        &self.window_list
    }

    /// The channels, in the order they were defined.
    pub fn channel_list(&self) -> (r: &Vec<MediaChannel>)
        ensures
            r@ == self@.channels,
    {
        &self.channel_list
    }

    /// The playback record of every channel that has been cued.
    pub fn media_playlist(&self) -> (r: &MediaPlaylist)
        ensures
            r@ == self@.media,
    {
        &self.media_playlist
    }

    /// The name under which the store keeps the value of `key` for this node.
    pub fn store_key(&self, key: StoreKey) -> (r: String)
        ensures
            r@ == spec_store_key(self@.address, key),
    {
        let name = self.address.clone();
        match key {
            StoreKey::Windows => name.concat(":windows"),
            StoreKey::Channels => name.concat(":channels"),
            StoreKey::Media => name.concat(":media"),
        }
    }

    /// The outcome of a change that touched the value under `key`.
    fn outcome(&self, key: StoreKey) -> (r: BackupOutcome)
        ensures
            r == self@.outcome(key),
    {
        if self.connected {
            BackupOutcome::Write(key)
        } else {
            BackupOutcome::Applied
        }
    }

    /// Adds a window at the end of the list.
    pub fn backup_window(&mut self, window_definition: WindowDefinition) -> (r: BackupOutcome)
        ensures
            final(self)@ == old(self)@.with_window(window_definition),
            r == old(self)@.outcome(StoreKey::Windows),
    {
        self.window_list.push(window_definition);
        self.outcome(StoreKey::Windows)
    }

    /// Adds a channel at the end of the list.
    pub fn backup_channel(&mut self, media_channel: MediaChannel) -> (r: BackupOutcome)
        ensures
            final(self)@ == old(self)@.with_channel(media_channel),
            r == old(self)@.outcome(StoreKey::Channels),
    {
        self.channel_list.push(media_channel);
        self.outcome(StoreKey::Channels)
    }

    /// Moves the frame of a channel by one pixel. Where a channel with that
    /// number has no frame, the change is rejected and nothing moves.
    pub fn backup_channel_align(&mut self, new_alignment: ChannelRealignment) -> (r: BackupOutcome)
        ensures
            final(self)@ == (if spec_lacks_frame(old(self)@.channels, new_alignment.channel) {
                old(self)@
            } else {
                old(self)@.realigned(new_alignment)
            }),
            r == (if spec_lacks_frame(old(self)@.channels, new_alignment.channel) {
                BackupOutcome::Rejected
            } else {
                old(self)@.outcome(StoreKey::Channels)
            }),
    {
        if lacks_frame(&self.channel_list, new_alignment.channel) {
            return BackupOutcome::Rejected;
        }
        let mut next: Vec<MediaChannel> = Vec::new();
        let mut i: usize = 0;
        while i < self.channel_list.len()
            invariant
                i <= self.channel_list.len(),
                next@.len() == i,
                forall|j: int|
                    0 <= j < i ==> #[trigger] next@[j] == spec_realigned_channel(
                        self.channel_list@[j],
                        new_alignment,
                    ),
            decreases self.channel_list.len() - i,
        {
            let mut channel = self.channel_list[i].clone();
            if channel.channel == new_alignment.channel {
                match channel.video_frame {
                    Some(frame) => {
                        channel.video_frame = Some(frame.moved(new_alignment.direction));
                    },
                    None => {},
                }
            }
            next.push(channel);
            i += 1;
        }
        assert(next@ =~= old(self)@.realigned(new_alignment).channels);
        self.channel_list = next;
        self.outcome(StoreKey::Channels)
    }

    /// Gives the frame of a channel a new place and size, in the window it
    /// was in. Where a channel with that number has no frame, the change is
    /// rejected and nothing is replaced.
    pub fn backup_channel_resize(&mut self, new_size: ChannelAllocation) -> (r: BackupOutcome)
        ensures
            final(self)@ == (if spec_lacks_frame(old(self)@.channels, new_size.channel) {
                old(self)@
            } else {
                old(self)@.resized(new_size)
            }),
            r == (if spec_lacks_frame(old(self)@.channels, new_size.channel) {
                BackupOutcome::Rejected
            } else {
                old(self)@.outcome(StoreKey::Channels)
            }),
    {
        if lacks_frame(&self.channel_list, new_size.channel) {
            return BackupOutcome::Rejected;
        }
        let mut next: Vec<MediaChannel> = Vec::new();
        let mut i: usize = 0;
        while i < self.channel_list.len()
            invariant
                i <= self.channel_list.len(),
                next@.len() == i,
                forall|j: int|
                    0 <= j < i ==> #[trigger] next@[j] == spec_resized_channel(
                        self.channel_list@[j],
                        new_size,
                    ),
            decreases self.channel_list.len() - i,
        {
            let mut channel = self.channel_list[i].clone();
            if channel.channel == new_size.channel {
                match channel.video_frame {
                    Some(frame) => {
                        channel.video_frame = Some(frame.resized(new_size.video_frame));
                    },
                    None => {},
                }
            }
            next.push(channel);
            i += 1;
        }
        assert(next@ =~= old(self)@.resized(new_size).channels);
        self.channel_list = next;
        self.outcome(StoreKey::Channels)
    }

    /// Moves the position of every playback record forward by `elapsed`,
    /// the time since the records were last changed.
    pub fn update_media(&mut self, elapsed: Span)
        ensures
            final(self)@ == old(self)@.advanced(elapsed),
    {
        self.media_playlist.advance(elapsed);
    }

    /// Records a cue that has just started, `elapsed` after the records
    /// were last changed. The record of the cue's channel is replaced.
    pub fn backup_media(&mut self, media_cue: MediaCue, elapsed: Span) -> (r: BackupOutcome)
        ensures
            final(self)@ == old(self)@.with_cue(media_cue, elapsed),
            r == old(self)@.outcome(StoreKey::Media),
    {
        self.media_playlist.advance(elapsed);
        let channel: u32 = media_cue.channel;
        self.media_playlist.insert(channel, MediaPlayback::started(media_cue));
        self.outcome(StoreKey::Media)
    }

    /// Records a change of state, `elapsed` after the records were last
    /// changed. Rejected, with nothing changed, where the channel has no
    /// record.
    pub fn backup_media_state(&mut self, new_state: ChannelState, elapsed: Span) -> (r: BackupOutcome)
        ensures
            final(self)@ == (if old(self)@.media.contains_key(new_state.channel) {
                old(self)@.with_state(new_state, elapsed)
            } else {
                old(self)@
            }),
            r == (if old(self)@.media.contains_key(new_state.channel) {
                old(self)@.outcome(StoreKey::Media)
            } else {
                BackupOutcome::Rejected
            }),
    {
        if self.media_playlist.get(new_state.channel).is_none() {
            return BackupOutcome::Rejected;
        }
        self.media_playlist.advance(elapsed);
        let found = match self.media_playlist.get(new_state.channel) {
            Some(record) => Some(record.clone()),
            None => None,
        };
        match found {
            Some(mut record) => {
                record.state = new_state.state;
                self.media_playlist.insert(new_state.channel, record);
            },
            None => {},
        }
        self.outcome(StoreKey::Media)
    }

    /// Records a seek, `elapsed` after the records were last changed.
    /// Rejected, with nothing changed, where the channel has no record.
    pub fn backup_media_seek(&mut self, new_seek: ChannelSeek, elapsed: Span) -> (r: BackupOutcome)
        ensures
            final(self)@ == (if old(self)@.media.contains_key(new_seek.channel) {
                old(self)@.with_seek(new_seek, elapsed)
            } else {
                old(self)@
            }),
            r == (if old(self)@.media.contains_key(new_seek.channel) {
                old(self)@.outcome(StoreKey::Media)
            } else {
                BackupOutcome::Rejected
            }),
    {
        if self.media_playlist.get(new_seek.channel).is_none() {
            return BackupOutcome::Rejected;
        }
        self.media_playlist.advance(elapsed);
        let found = match self.media_playlist.get(new_seek.channel) {
            Some(record) => Some(record.clone()),
            None => None,
        };
        match found {
            Some(mut record) => {
                record.seek_to = Span::from_millis(new_seek.position);
                self.media_playlist.insert(new_seek.channel, record);
            },
            None => {},
        }
        self.outcome(StoreKey::Media)
    }

    /// Takes over what was read from the store at startup.
    ///
    /// Without a store, or where the store holds no playlist, there is no
    /// earlier session: the answer is `None` and the registry stays as it
    /// is. Otherwise each of the three values replaces the registry's own,
    /// an absent or unreadable one counting as empty, and the three are
    /// returned for replay.
    pub fn reload_backup(
        &mut self,
        media: Fetched<MediaPlaylist>,
        windows: Fetched<Vec<WindowDefinition>>,
        channels: Fetched<Vec<MediaChannel>>,
    ) -> (r: Option<(Vec<WindowDefinition>, Vec<MediaChannel>, MediaPlaylist)>)
        ensures
            r is None <==> (!old(self)@.connected || media is Absent),
            r is None ==> final(self)@ == old(self)@,
            r is Some ==> final(self)@ == old(self)@.reloaded(
                spec_fetched_list(windows),
                spec_fetched_list(channels),
                spec_fetched_media(media),
            ),
            match r {
                Some((window_list, channel_list, media_playlist)) => {
                    &&& window_list@ == spec_fetched_list(windows)
                    &&& channel_list@ == spec_fetched_list(channels)
                    &&& media_playlist@ == spec_fetched_media(media)
                },
                None => true,
            },
    {
        if !self.connected {
            return None;
        }
        let media_playlist = match media {
            Fetched::Absent => {
                return None;
            },
            Fetched::Unreadable => MediaPlaylist::new(),
            Fetched::Value(playlist) => playlist,
        };
        let window_list = match windows {
            Fetched::Value(list) => list,
            _ => Vec::new(),
        };
        let channel_list = match channels {
            Fetched::Value(list) => list,
            _ => Vec::new(),
        };
        self.media_playlist = media_playlist.clone();
        self.window_list = clone_windows(&window_list);
        self.channel_list = clone_channels(&channel_list);
        Some((window_list, channel_list, media_playlist))
    }

    /// Gives up the store at shutdown. The answer names the keys to delete
    /// from it: all three, whether or not they were ever written, or none
    /// where there is no store. The registry itself is left as it is.
    pub fn close(&mut self) -> (r: Vec<String>)
        ensures
            final(self)@ == (Registry { connected: false, ..old(self)@ }),
            r@.map_values(|key: String| key@) == (if old(self)@.connected {
                spec_all_keys(old(self)@.address)
            } else {
                Seq::empty()
            }),
    {
        let mut keys: Vec<String> = Vec::new();
        if self.connected {
            keys.push(self.store_key(StoreKey::Media));
            keys.push(self.store_key(StoreKey::Channels));
            keys.push(self.store_key(StoreKey::Windows));
            self.connected = false;
        }
        assert(keys@.map_values(|key: String| key@) =~= (if old(self)@.connected {
            spec_all_keys(old(self)@.address)
        } else {
            Seq::empty()
        }));
        keys
    }
}

} // verus!
