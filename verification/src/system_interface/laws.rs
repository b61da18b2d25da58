//! What holds of the dispatcher over every run of requests.

use vstd::prelude::*;
use crate::definitions::backup::{spec_advanced, MediaPlayback};
use crate::definitions::communication::{failure_view, Request};
use crate::definitions::media::{ChannelState, MediaChannel, WindowDefinition};
use crate::definitions::time::{max_total_nanos, Span};
use crate::definitions::connections::MediaCue;
use crate::system_interface::backup_handler::{spec_all_keys, Registry, StoreKey};
use crate::system_interface::media_playback::{spec_after_command, InternalChannel};
use crate::system_interface::{
    spec_dispatch, spec_driver_command, spec_next, spec_recovered, spec_refusal,
    spec_replayed_windows, spec_window_numbers, DriverCommand, DriverReply, SystemState,
};

verus! {

/// One turn of the dispatcher: a request, the driver's answer to the call
/// it needs, and the time since the playback records were last changed.
pub struct Event {
    pub request: Request,
    pub reply: DriverReply,
    pub elapsed: Span,
}

/// The state after the dispatcher has handled `events` in order, starting
/// from `state`.
pub open spec fn spec_run(state: SystemState, events: Seq<Event>) -> SystemState
    decreases events.len(),
{
    if events.len() == 0 {
        state
    } else {
        let event = events.last();
        spec_next(spec_run(state, events.drop_last()), event.request, event.reply, event.elapsed)
    }
}

/// Whether every playback record holds a well-formed position.
pub open spec fn spec_positions_wf(media: Map<u32, MediaPlayback>) -> bool {
    forall|channel: u32| #[trigger]
        media.contains_key(channel) ==> media[channel].seek_to.wf()
}

/// A window number, once defined, stays defined whatever request follows.
pub proof fn lemma_defined_windows_stay(
    state: SystemState,
    request: Request,
    reply: DriverReply,
    elapsed: Span,
    number: u32,
)
    requires
        state.defined_windows.contains(number),
    ensures
        spec_next(state, request, reply, elapsed).defined_windows.contains(number),
{
}

/// A window number that is defined at one point of a run is defined at
/// every later point.
pub proof fn lemma_defined_windows_stay_over_run(
    state: SystemState,
    events: Seq<Event>,
    at: int,
    later: int,
    number: u32,
)
    requires
        0 <= at <= later <= events.len(),
        spec_run(state, events.take(at)).defined_windows.contains(number),
    ensures
        spec_run(state, events.take(later)).defined_windows.contains(number),
    decreases later - at,
{
    if at < later {
        lemma_defined_windows_stay_over_run(state, events, at, later - 1, number);
        let prefix = events.take(later);
        assert(prefix.drop_last() == events.take(later - 1));
        let before = spec_run(state, events.take(later - 1));
        let event = prefix.last();
        lemma_defined_windows_stay(before, event.request, event.reply, event.elapsed, number);
    }
}

/// A request to define a window whose number is already defined is
/// answered with a failure, and changes nothing: the list of windows keeps
/// its length, nothing is told to the display, nothing is written.
pub proof fn lemma_defined_window_is_refused(
    state: SystemState,
    window: WindowDefinition,
    reply: DriverReply,
    elapsed: Span,
)
    requires
        state.defined_windows.contains(window.window_number),
    ensures
        spec_next(state, Request::DefineWindow { window }, reply, elapsed) == state,
        spec_dispatch(state, Request::DefineWindow { window }, reply).reply == failure_view(
            "Window was already defined."@,
        ),
        spec_dispatch(state, Request::DefineWindow { window }, reply).update is None,
        spec_dispatch(state, Request::DefineWindow { window }, reply).write is None,
{
}

/// Over every run of requests a window number is accepted at most once.
///
/// Where two requests of a run define a window with the same number, the
/// later one is answered with a failure and leaves the state, and so the
/// length of the list of windows, as it was.
pub proof fn lemma_window_accepted_at_most_once(
    state: SystemState,
    events: Seq<Event>,
    first: int,
    second: int,
)
    requires
        0 <= first < second < events.len(),
        events[first].request is DefineWindow,
        events[second].request is DefineWindow,
        events[first].request->window.window_number
            == events[second].request->window.window_number,
    ensures
        ({
            let before = spec_run(state, events.take(second));
            let event = events[second];
            &&& spec_next(before, event.request, event.reply, event.elapsed) == before
            &&& spec_dispatch(before, event.request, event.reply).reply == failure_view(
                "Window was already defined."@,
            )
            &&& spec_run(state, events.take(second + 1)).registry.windows.len()
                == before.registry.windows.len()
        }),
{
    let number = events[first].request->window.window_number;
    let prefix = events.take(first + 1);
    assert(prefix.drop_last() == events.take(first));
    assert(prefix.last() == events[first]);
    assert(spec_run(state, prefix).defined_windows.contains(number));
    lemma_defined_windows_stay_over_run(state, events, first + 1, second, number);
    let before = spec_run(state, events.take(second));
    let event = events[second];
    lemma_defined_window_is_refused(before, event.request->window, event.reply, event.elapsed);
    let longer = events.take(second + 1);
    assert(longer.drop_last() == events.take(second));
    assert(longer.last() == event);
}

/// The position of a playback record never moves back as time passes, and
/// never passes the longest span.
pub proof fn lemma_position_never_moves_back(record: MediaPlayback, elapsed: Span)
    requires
        record.seek_to.wf(),
    ensures
        record.spec_updated(elapsed).seek_to.total_nanos() >= record.seek_to.total_nanos(),
        record.spec_updated(elapsed).seek_to.total_nanos() <= max_total_nanos(),
        record.spec_updated(elapsed).seek_to.wf(),
        elapsed.total_nanos() > 0 && record.seek_to.total_nanos() < max_total_nanos()
            ==> record.spec_updated(elapsed).seek_to.total_nanos() > record.seek_to.total_nanos(),
{
}

/// Moving the registry forward in time keeps the channels that have a
/// record, moves no position back, and keeps every position well formed.
pub proof fn lemma_registry_advances_forward(registry: Registry, elapsed: Span, channel: u32)
    requires
        spec_positions_wf(registry.media),
        registry.media.contains_key(channel),
    ensures
        registry.advanced(elapsed).media.dom() == registry.media.dom(),
        registry.advanced(elapsed).media[channel].seek_to.total_nanos()
            >= registry.media[channel].seek_to.total_nanos(),
        registry.advanced(elapsed).media[channel].seek_to.total_nanos() <= max_total_nanos(),
        spec_positions_wf(registry.advanced(elapsed).media),
{
    lemma_position_never_moves_back(registry.media[channel], elapsed);
    assert(registry.advanced(elapsed).media.dom() =~= registry.media.dom());
    assert forall|other: u32| #[trigger]
        registry.advanced(elapsed).media.contains_key(other) implies registry.advanced(
        elapsed,
    ).media[other].seek_to.wf() by {
        lemma_position_never_moves_back(registry.media[other], elapsed);
    }
}

/// Whatever request is handled, every position stays well formed.
pub proof fn lemma_positions_stay_wf(
    state: SystemState,
    request: Request,
    reply: DriverReply,
    elapsed: Span,
)
    requires
        spec_positions_wf(state.registry.media),
    ensures
        spec_positions_wf(spec_next(state, request, reply, elapsed).registry.media),
{
    let next = spec_next(state, request, reply, elapsed);
    let moved = spec_advanced(state.registry.media, elapsed);
    assert forall|channel: u32| #[trigger] moved.contains_key(channel) implies moved[channel].seek_to.wf() by {
        lemma_position_never_moves_back(state.registry.media[channel], elapsed);
    }
    assert forall|channel: u32| #[trigger]
        next.registry.media.contains_key(channel) implies next.registry.media[channel].seek_to.wf() by {
        if next.registry.media != state.registry.media {
            match request {
                Request::CueMedia { media_cue } => {
                    if channel != media_cue.channel {
                        assert(moved.contains_key(channel));
                    }
                },
                Request::ChangeState { channel_state } => {
                    assert(moved.contains_key(channel) || channel == channel_state.channel);
                    assert(moved.contains_key(channel_state.channel));
                },
                Request::Seek { channel_seek } => {
                    if channel != channel_seek.channel {
                        assert(moved.contains_key(channel));
                    }
                },
                _ => {},
            }
        }
    }
}

/// A change of state that the driver refused, or on a channel without a
/// playback record, is answered with a failure and leaves the playback
/// records, and the rest of the state, as they were.
pub proof fn lemma_state_change_on_unknown_channel(
    state: SystemState,
    channel_state: ChannelState,
    reply: DriverReply,
    elapsed: Span,
)
    requires
        reply is Failed || !state.registry.media.contains_key(channel_state.channel),
    ensures
        spec_next(state, Request::ChangeState { channel_state }, reply, elapsed) == state,
        !spec_dispatch(state, Request::ChangeState { channel_state }, reply).reply.is_valid,
        spec_dispatch(state, Request::ChangeState { channel_state }, reply).write is None,
        !spec_dispatch(state, Request::ChangeState { channel_state }, reply).clock_used,
{
}

/// Every refused request leaves the state as it was and writes nothing.
pub proof fn lemma_refused_request_changes_nothing(
    state: SystemState,
    request: Request,
    reply: DriverReply,
    elapsed: Span,
)
    requires
        !spec_dispatch(state, request, reply).reply.is_valid,
    ensures
        spec_next(state, request, reply, elapsed) == state,
        spec_dispatch(state, request, reply).write is None,
        spec_dispatch(state, request, reply).delete.len() == 0,
{
}

/// The reply to a request reports success exactly when the request was
/// not refused, and only the request to close ends the dispatcher.
pub proof fn lemma_reply_tells_the_outcome(state: SystemState, request: Request, reply: DriverReply)
    ensures
        spec_dispatch(state, request, reply).reply.is_valid <==> spec_refusal(
            state,
            request,
            reply,
        ) is None,
        spec_dispatch(state, request, reply).keep_running <==> !(request is Close),
        request is Close ==> spec_dispatch(state, request, reply).reply.is_valid,
{
}

/// Stored windows with distinct numbers, none of them defined yet, are
/// replayed all, in the order they were stored.
pub proof fn lemma_window_replay_keeps_order(defined: Set<u32>, list: Seq<WindowDefinition>)
    requires
        forall|i: int, j: int|
            0 <= i < j < list.len() ==> list[i].window_number != list[j].window_number,
        forall|i: int| 0 <= i < list.len() ==> !defined.contains(list[i].window_number),
    ensures
        spec_replayed_windows(defined, list) == list,
    decreases list.len(),
{
    if list.len() > 0 {
        let earlier = list.drop_last();
        lemma_window_replay_keeps_order(defined, earlier);
        let window = list.last();
        if spec_window_numbers(earlier).contains(window.window_number) {
            let j = choose|j: int|
                0 <= j < earlier.len() && (#[trigger] earlier[j]).window_number
                    == window.window_number;
            assert(list[j].window_number == list[list.len() - 1].window_number);
        }
        assert(earlier.push(window) == list);
    } else {
        assert(list == Seq::<WindowDefinition>::empty());
    }
}

/// The windows that are replayed come in the order they were stored: of
/// two replayed windows, the one replayed first was stored first.
pub proof fn lemma_window_replay_is_in_stored_order(
    defined: Set<u32>,
    list: Seq<WindowDefinition>,
) -> (places: Seq<int>)
    ensures
        places.len() == spec_replayed_windows(defined, list).len(),
        forall|k: int|
            0 <= k < places.len() ==> 0 <= #[trigger] places[k] < list.len()
                && spec_replayed_windows(defined, list)[k] == list[places[k]],
        forall|k: int, l: int| 0 <= k < l < places.len() ==> places[k] < places[l],
    decreases list.len(),
{
    if list.len() == 0 {
        Seq::empty()
    } else {
        let earlier = list.drop_last();
        let before = lemma_window_replay_is_in_stored_order(defined, earlier);
        let window = list.last();
        if defined.contains(window.window_number) || spec_window_numbers(earlier).contains(
            window.window_number,
        ) {
            before
        } else {
            before.push(list.len() - 1)
        }
    }
}

/// Stored channels are defined again one by one in the order they were
/// stored.
pub proof fn lemma_channel_replay_keeps_order(list: Seq<MediaChannel>, place: int)
    requires
        0 <= place < list.len(),
    ensures
        list.map_values(
            |media_channel: MediaChannel| DriverCommand::DefineChannel { media_channel },
        ).len() == list.len(),
        list.map_values(
            |media_channel: MediaChannel| DriverCommand::DefineChannel { media_channel },
        )[place] == (DriverCommand::DefineChannel { media_channel: list[place] }),
{
}

/// Closing names all three keys of the node for deletion, whatever the
/// registry holds and whether or not a key was ever written, and gives up
/// the store.
pub proof fn lemma_close_deletes_every_key(state: SystemState, reply: DriverReply, elapsed: Span)
    requires
        state.registry.connected,
    ensures
        spec_dispatch(state, Request::Close, reply).delete == spec_all_keys(state.registry.address),
        spec_dispatch(state, Request::Close, reply).delete.len() == 3,
        !spec_next(state, Request::Close, reply, elapsed).registry.connected,
        !spec_dispatch(state, Request::Close, reply).keep_running,
        spec_dispatch(state, Request::Close, reply).write is None,
{
}

/// A cue that the driver accepted replaces the record of its channel by a
/// fresh one, so that of two cues on one channel the later one stays.
pub proof fn lemma_last_cue_wins(
    state: SystemState,
    media_cue: MediaCue,
    reply: DriverReply,
    elapsed: Span,
)
    requires
        !(reply is Failed),
    ensures
        spec_next(state, Request::CueMedia { media_cue }, reply, elapsed).registry.media[media_cue.channel]
            == MediaPlayback::spec_started(media_cue),
        spec_next(state, Request::CueMedia { media_cue }, reply, elapsed).registry.media.dom()
            == state.registry.media.dom().insert(media_cue.channel),
        spec_dispatch(state, Request::CueMedia { media_cue }, reply).write == (if state.registry.connected {
            Some(StoreKey::Media)
        } else {
            None
        }),
{
    let next = spec_next(state, Request::CueMedia { media_cue }, reply, elapsed);
    assert(next.registry.media.dom() =~= state.registry.media.dom().insert(media_cue.channel));
}

/// Whether the windows of a list bear distinct numbers.
pub open spec fn spec_windows_distinct(list: Seq<WindowDefinition>) -> bool {
    forall|i: int, j: int|
        0 <= i < j < list.len() ==> (#[trigger] list[i]).window_number != (
        #[trigger] list[j]).window_number
}

/// Whether every window on the list of a state counts as defined.
pub open spec fn spec_windows_known(state: SystemState) -> bool {
    forall|i: int|
        0 <= i < state.registry.windows.len() ==> state.defined_windows.contains(
            (#[trigger] state.registry.windows[i]).window_number,
        )
}

/// Whether the channels of a list bear distinct numbers.
pub open spec fn spec_channels_distinct(list: Seq<MediaChannel>) -> bool {
    forall|i: int, j: int|
        0 <= i < j < list.len() ==> (#[trigger] list[i]).channel != (#[trigger] list[j]).channel
}

/// Whether every channel on a list is defined on the driver.
pub open spec fn spec_channels_defined(
    list: Seq<MediaChannel>,
    driver: Map<u32, InternalChannel>,
) -> bool {
    forall|i: int| 0 <= i < list.len() ==> driver.contains_key((#[trigger] list[i]).channel)
}

/// The channels of the driver after it has answered the call that a
/// request needs.
pub open spec fn spec_driver_after(
    driver: Map<u32, InternalChannel>,
    request: Request,
    reply: DriverReply,
) -> Map<u32, InternalChannel> {
    match spec_driver_command(request) {
        Some(command) => spec_after_command(driver, command, reply),
        None => driver,
    }
}

/// No request can put a window number on the list twice: where the listed
/// windows bear distinct numbers and all count as defined, they still do
/// after any request.
pub proof fn lemma_windows_stay_distinct(
    state: SystemState,
    request: Request,
    reply: DriverReply,
    elapsed: Span,
)
    requires
        spec_windows_distinct(state.registry.windows),
        spec_windows_known(state),
    ensures
        spec_windows_distinct(spec_next(state, request, reply, elapsed).registry.windows),
        spec_windows_known(spec_next(state, request, reply, elapsed)),
{
    let next = spec_next(state, request, reply, elapsed);
    if next.registry.windows != state.registry.windows {
        let window = request->window;
        assert(next.registry.windows == state.registry.windows.push(window));
        assert forall|i: int, j: int| 0 <= i < j < next.registry.windows.len() implies (
        #[trigger] next.registry.windows[i]).window_number != (
        #[trigger] next.registry.windows[j]).window_number by {
            if j == state.registry.windows.len() {
                assert(state.defined_windows.contains(
                    state.registry.windows[i].window_number,
                ));
            } else {
                assert(next.registry.windows[i] == state.registry.windows[i]);
                assert(next.registry.windows[j] == state.registry.windows[j]);
            }
        }
        assert forall|i: int| 0 <= i < next.registry.windows.len() implies next.defined_windows.contains(
            (#[trigger] next.registry.windows[i]).window_number,
        ) by {
            if i < state.registry.windows.len() {
                assert(next.registry.windows[i] == state.registry.windows[i]);
            }
        }
    } else {
        assert forall|i: int| 0 <= i < next.registry.windows.len() implies next.defined_windows.contains(
            (#[trigger] next.registry.windows[i]).window_number,
        ) by {
            assert(state.defined_windows.contains(state.registry.windows[i].window_number));
            lemma_defined_windows_stay(
                state,
                request,
                reply,
                elapsed,
                state.registry.windows[i].window_number,
            );
        }
    }
}

/// No request can put a channel number on the list twice, as long as the
/// driver refuses to define a channel it has defined already: where the
/// listed channels bear distinct numbers and are all defined on the
/// driver, they still are after any request.
pub proof fn lemma_channels_stay_distinct(
    state: SystemState,
    driver: Map<u32, InternalChannel>,
    request: Request,
    reply: DriverReply,
    elapsed: Span,
)
    requires
        spec_channels_distinct(state.registry.channels),
        spec_channels_defined(state.registry.channels, driver),
        request is DefineChannel && driver.contains_key(request->media_channel.channel)
            ==> reply is Failed,
    ensures
        spec_channels_distinct(spec_next(state, request, reply, elapsed).registry.channels),
        spec_channels_defined(
            spec_next(state, request, reply, elapsed).registry.channels,
            spec_driver_after(driver, request, reply),
        ),
{
    let before = state.registry.channels;
    let after = spec_next(state, request, reply, elapsed).registry.channels;
    let driver_after = spec_driver_after(driver, request, reply);
    if after != before {
        match request {
            Request::DefineChannel { media_channel } => {
                assert(after == before.push(media_channel));
                assert forall|i: int, j: int| 0 <= i < j < after.len() implies (
                #[trigger] after[i]).channel != (#[trigger] after[j]).channel by {
                    if j == before.len() {
                        assert(driver.contains_key(before[i].channel));
                    } else {
                        assert(after[i] == before[i]);
                        assert(after[j] == before[j]);
                    }
                }
                assert forall|i: int| 0 <= i < after.len() implies driver_after.contains_key(
                    (#[trigger] after[i]).channel,
                ) by {
                    if i < before.len() {
                        assert(after[i] == before[i]);
                    }
                }
            },
            _ => {
                assert(after.len() == before.len());
                assert forall|i: int| 0 <= i < after.len() implies (#[trigger] after[i]).channel
                    == before[i].channel by {}
                assert forall|i: int, j: int| 0 <= i < j < after.len() implies (
                #[trigger] after[i]).channel != (#[trigger] after[j]).channel by {
                    assert(after[i].channel == before[i].channel);
                    assert(after[j].channel == before[j].channel);
                }
                assert forall|i: int| 0 <= i < after.len() implies driver_after.contains_key(
                    (#[trigger] after[i]).channel,
                ) by {
                    assert(after[i].channel == before[i].channel);
                }
            },
        }
    }
}

/// A session that defines a window and a channel and cues the channel
/// twice leaves, for a restart to take over, exactly that window, that
/// channel, and the second cue, fresh and playing: the last cue wins.
pub proof fn lemma_session_reloads(
    address: Seq<char>,
    window: WindowDefinition,
    media_channel: MediaChannel,
    first: MediaCue,
    second: MediaCue,
    reply: DriverReply,
    elapsed: Span,
)
    requires
        !(reply is Failed),
        first.channel == second.channel,
    ensures
        ({
            let fresh = SystemState {
                defined_windows: Set::empty(),
                registry: Registry::empty(address, true),
            };
            let defined = spec_next(fresh, Request::DefineWindow { window }, reply, elapsed);
            let channelled = spec_next(
                defined,
                Request::DefineChannel { media_channel },
                reply,
                elapsed,
            );
            let cued = spec_next(channelled, Request::CueMedia { media_cue: first }, reply, elapsed);
            let last = spec_next(cued, Request::CueMedia { media_cue: second }, reply, elapsed);
            let restarted = spec_recovered(
                fresh,
                last.registry.media,
                last.registry.windows,
                last.registry.channels,
            );
            &&& last.registry.windows == seq![window]
            &&& last.registry.channels == seq![media_channel]
            &&& last.registry.media == Map::<u32, MediaPlayback>::empty().insert(
                second.channel,
                MediaPlayback::spec_started(second),
            )
            &&& restarted.registry == last.registry
            &&& restarted.defined_windows.contains(window.window_number)
        }),
{
    let fresh = SystemState { defined_windows: Set::empty(), registry: Registry::empty(address, true) };
    let defined = spec_next(fresh, Request::DefineWindow { window }, reply, elapsed);
    let channelled = spec_next(defined, Request::DefineChannel { media_channel }, reply, elapsed);
    let cued = spec_next(channelled, Request::CueMedia { media_cue: first }, reply, elapsed);
    let last = spec_next(cued, Request::CueMedia { media_cue: second }, reply, elapsed);
    assert(defined.registry.windows =~= seq![window]);
    assert(channelled.registry.channels =~= seq![media_channel]);
    assert(last.registry.windows =~= seq![window]);
    assert(last.registry.channels =~= seq![media_channel]);
    assert(last.registry.media =~= Map::<u32, MediaPlayback>::empty().insert(
        second.channel,
        MediaPlayback::spec_started(second),
    ));
    assert(last.registry.windows[0] == window);
    assert(spec_window_numbers(last.registry.windows).contains(window.window_number));
}

} // verus!
