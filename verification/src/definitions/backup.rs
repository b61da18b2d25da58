//! The playback record of a channel and the table of all such records.

use vstd::prelude::*;
use fnv::FnvHashMap;
use crate::tables::{table_get, table_insert, table_keys};
use crate::definitions::connections::MediaCue;
use crate::definitions::media::PlaybackState;
use crate::definitions::time::{max_total_nanos, Span};

verus! {

/// What a channel was last asked to play, how far into it playback is known
/// to be, and whether it runs.
#[derive(Debug, PartialEq, Eq)]
pub struct MediaPlayback {
    /// The cue that started the media.
    pub media_cue: MediaCue,
    /// The last known position of the media.
    pub seek_to: Span,
    /// Whether the media runs or is held.
    pub state: PlaybackState,
}

impl Clone for MediaPlayback {
    fn clone(&self) -> (r: Self)
        ensures
            r == *self,
    {
        MediaPlayback {
            media_cue: self.media_cue.clone(),
            seek_to: self.seek_to,
            state: self.state,
        }
    }
}

impl MediaPlayback {
    /// The record of a cue that has just started: position zero, playing.
    pub open spec fn spec_started(media_cue: MediaCue) -> MediaPlayback {
        MediaPlayback {
            media_cue,
            seek_to: Span { secs: 0, nanos: 0 },
            state: PlaybackState::Playing,
        }
    }

    /// The record after `additional_time` has passed: the position moves
    /// forward by that time and stops at the longest span.
    pub open spec fn spec_updated(self, additional_time: Span) -> MediaPlayback {
        MediaPlayback { seek_to: Span::saturating_sum(self.seek_to, additional_time), ..self }
    }

    /// The record with another state.
    pub open spec fn spec_with_state(self, state: PlaybackState) -> MediaPlayback {
        MediaPlayback { state, ..self }
    }

    /// The record with its position set to `millis` milliseconds.
    pub open spec fn spec_with_position(self, millis: u64) -> MediaPlayback {
        MediaPlayback { seek_to: Span::of_nanos((millis * 1_000_000) as nat), ..self }
    }

    /// The record of a cue that has just started.
    pub fn started(media_cue: MediaCue) -> (r: MediaPlayback)
        ensures
            r == MediaPlayback::spec_started(media_cue),
    {
        MediaPlayback { media_cue, seek_to: Span::zero(), state: PlaybackState::Playing }
    }

    /// Moves the position forward by `additional_time`. The position never
    /// passes the longest span; from a well-formed position it never moves
    /// back.
    pub fn update(&mut self, additional_time: Span)
        ensures
            *final(self) == old(self).spec_updated(additional_time),
            final(self).seek_to.wf(),
            final(self).seek_to.total_nanos() <= max_total_nanos(),
            old(self).seek_to.wf() ==> final(self).seek_to.total_nanos() >= old(self).seek_to.total_nanos(),
    {
        self.seek_to = self.seek_to.saturating_add(additional_time);
    }
}

/// Every record of `records` moved forward by `elapsed`.
pub open spec fn spec_advanced(records: Map<u32, MediaPlayback>, elapsed: Span) -> Map<
    u32,
    MediaPlayback,
> {
    Map::new(|channel: u32| records.contains_key(channel), |channel: u32| records[channel].spec_updated(elapsed))
}

/// The playback record of every channel that has been cued, by channel number.
#[derive(Debug, PartialEq, Eq)]
pub struct MediaPlaylist {
    records: FnvHashMap<u32, MediaPlayback>,
}

impl View for MediaPlaylist {
    type V = Map<u32, MediaPlayback>;

    closed spec fn view(&self) -> Map<u32, MediaPlayback> {
        self.records@
    }
}

impl Clone for MediaPlaylist {
    fn clone(&self) -> (r: Self)
        ensures
            r@ == self@,
    {
        MediaPlaylist { records: self.records.clone() }
    }
}

impl MediaPlaylist {
    /// A playlist without records.
    pub fn new() -> (r: MediaPlaylist)
        ensures
            r@ == Map::<u32, MediaPlayback>::empty(),
    {
        MediaPlaylist { records: FnvHashMap::default() }
    }

    /// Puts `playback` in the place of whatever the channel held before.
    pub fn insert(&mut self, channel: u32, playback: MediaPlayback)
        ensures
            final(self)@ == old(self)@.insert(channel, playback),
    {
        table_insert(&mut self.records, channel, playback);
    }

    /// The record of `channel`, if it has one.
    pub fn get(&self, channel: u32) -> (r: Option<&MediaPlayback>)
        ensures
            r == (if self@.contains_key(channel) {
                Some(&self@[channel])
            } else {
                None
            }),
    {
        table_get(&self.records, channel)
    }

    /// The channels that have a record, each once, in no particular order.
    pub fn channels(&self) -> (r: Vec<u32>)
        ensures
            r@.no_duplicates(),
            r@.to_set() == self@.dom(),
    {
        table_keys(&self.records)
    }

    /// The number of channels that have a record.
    pub fn len(&self) -> (r: usize)
        ensures
            r == self@.dom().len(),
    {
        let keys = table_keys(&self.records);
        proof {
            keys@.unique_seq_to_set();
        }
        keys.len()
    }

    /// Moves the position of every record forward by `elapsed`.
    pub fn advance(&mut self, elapsed: Span)
        ensures
            final(self)@ == spec_advanced(old(self)@, elapsed),
    {
        let keys = table_keys(&self.records);
        let ghost before = self.records@;
        let mut i: usize = 0;
        while i < keys.len()
            invariant
                i <= keys.len(),
                keys@.no_duplicates(),
                keys@.to_set() == before.dom(),
                self.records@.dom() == before.dom(),
                forall|j: int|
                    0 <= j < i ==> self.records@[#[trigger] keys@[j]] == before[keys@[j]].spec_updated(
                        elapsed,
                    ),
                forall|j: int|
                    i <= j < keys.len() ==> self.records@[#[trigger] keys@[j]] == before[keys@[j]],
            decreases keys.len() - i,
        {
            let key: u32 = keys[i];
            assert(keys@.to_set().contains(key));
            let found = match table_get(&self.records, key) {
                Some(record) => Some(record.clone()),
                None => None,
            };
            match found {
                Some(mut record) => {
                    record.update(elapsed);
                    table_insert(&mut self.records, key, record);
                    assert(self.records@.dom() =~= before.dom());
                },
                None => {},
            }
            i += 1;
        }
        proof {
            assert forall|channel: u32| before.contains_key(channel) implies self.records@[channel]
                == before[channel].spec_updated(elapsed) by {
                assert(keys@.to_set().contains(channel));
                let j = choose|j: int| 0 <= j < keys@.len() && keys@[j] == channel;
                assert(keys@[j] == channel);
            }
            assert(self.records@ =~= spec_advanced(before, elapsed));
        }
    }
}

} // verus!
