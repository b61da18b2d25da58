//! The request dispatcher and the recovery sequence.
//!
//! The dispatcher handles one request at a time. Where a request needs the
//! playback driver, [`SystemInterface::driver_command`] names the call; the
//! embedding program makes it and hands the driver's answer, with the
//! request, to [`SystemInterface::run_once`], which changes the registry and
//! says what to reply, what to tell the display and what to write to the
//! store.

pub mod backup_handler;
pub mod laws;
pub mod media_playback;

use vstd::prelude::*;
use fnv::FnvHashSet;
use crate::tables::set_insert;
use crate::definitions::communication::{
    failure_view, success_view, InterfaceUpdate, ReplyView, Request, WebReply,
};
use crate::definitions::backup::{MediaPlayback, MediaPlaylist};
use crate::definitions::connections::{MediaCue, VideoStream};
use crate::definitions::media::{
    ChannelSeek, ChannelState, MediaChannel, PlaybackState, WindowDefinition,
};
use crate::definitions::time::Span;
use self::media_playback::{spec_failure_message, PlayerAction};
use self::backup_handler::{
    spec_all_keys, spec_fetched_list, spec_fetched_media, spec_lacks_frame, BackupHandler,
    BackupOutcome, Fetched, Registry, StoreKey,
};

verus! {

/// A call on the playback driver.
#[derive(Debug, PartialEq, Eq)]
pub enum DriverCommand {
    /// Stop the media on every channel.
    AllStop,
    /// Create a channel.
    DefineChannel { media_channel: MediaChannel },
    /// Play media on a channel.
    CueMedia { media_cue: MediaCue },
    /// Run or hold the media of a channel.
    ChangeState { channel_state: ChannelState },
    /// Move the media of a channel to a position.
    Seek { channel_seek: ChannelSeek },
}

impl Clone for DriverCommand {
    fn clone(&self) -> (r: Self)
        ensures
            r == *self,
    {
        match self {
            DriverCommand::AllStop => DriverCommand::AllStop,
            DriverCommand::DefineChannel { media_channel } => DriverCommand::DefineChannel {
                media_channel: media_channel.clone(),
            },
            DriverCommand::CueMedia { media_cue } => DriverCommand::CueMedia {
                media_cue: media_cue.clone(),
            },
            DriverCommand::ChangeState { channel_state } => DriverCommand::ChangeState {
                channel_state: *channel_state,
            },
            DriverCommand::Seek { channel_seek } => DriverCommand::Seek {
                channel_seek: *channel_seek,
            },
        }
    }
}

/// The answer of the playback driver to a call.
#[derive(Debug, PartialEq, Eq)]
pub enum DriverReply {
    /// The call succeeded. Also the answer to pass for a request that
    /// needs no call.
    Done,
    /// A channel was created, and it shows a video.
    Stream(VideoStream),
    /// The call failed, for the reason given.
    Failed(String),
}

impl Clone for DriverReply {
    fn clone(&self) -> (r: Self)
        ensures
            r == *self,
    {
        match self {
            DriverReply::Done => DriverReply::Done,
            DriverReply::Stream(video_stream) => DriverReply::Stream(*video_stream),
            DriverReply::Failed(reason) => DriverReply::Failed(reason.clone()),
        }
    }
}

/// What handling a request came to, for the embedding program to carry out.
#[derive(Debug, PartialEq, Eq)]
pub struct Dispatch {
    /// The reply to send.
    pub reply: WebReply,
    /// The event to send to the display, if any.
    pub update: Option<InterfaceUpdate>,
    /// The key whose value is to be rewritten on the store, if any.
    pub write: Option<StoreKey>,
    /// The names of the keys to delete from the store.
    pub delete: Vec<String>,
    /// Whether the elapsed time was added to the playback records, so that
    /// time is to be counted afresh from now.
    pub clock_used: bool,
    /// Whether the dispatcher goes on to the next request.
    pub keep_running: bool,
}

/// A [`Dispatch`] as contracts see it.
pub struct DispatchView {
    pub reply: ReplyView,
    pub update: Option<InterfaceUpdate>,
    pub write: Option<StoreKey>,
    pub delete: Seq<Seq<char>>,
    pub clock_used: bool,
    pub keep_running: bool,
}

impl View for Dispatch {
    type V = DispatchView;

    open spec fn view(&self) -> DispatchView {
        DispatchView {
            reply: self.reply@,
            update: self.update,
            write: self.write,
            delete: self.delete@.map_values(|key: String| key@),
            clock_used: self.clock_used,
            keep_running: self.keep_running,
        }
    }
}

/// The dispatcher's state as contracts see it.
pub struct SystemState {
    /// The numbers of the windows that have been defined.
    pub defined_windows: Set<u32>,
    /// The registry and the state of its mirror.
    pub registry: Registry,
}

/// The call on the playback driver that a request needs, if it needs one.
pub open spec fn spec_driver_command(request: Request) -> Option<DriverCommand> {
    match request {
        Request::AllStop => Some(DriverCommand::AllStop),
        Request::DefineChannel { media_channel } => Some(
            DriverCommand::DefineChannel { media_channel },
        ),
        Request::CueMedia { media_cue } => Some(DriverCommand::CueMedia { media_cue }),
        Request::ChangeState { channel_state } => Some(DriverCommand::ChangeState { channel_state }),
        Request::Seek { channel_seek } => Some(DriverCommand::Seek { channel_seek }),
        _ => None,
    }
}

/// The reason the driver gave for failing, if it failed.
pub open spec fn spec_driver_failure(reply: DriverReply) -> Option<Seq<char>> {
    match reply {
        DriverReply::Failed(reason) => Some(reason@),
        _ => None,
    }
}

/// The reason for which a request is refused in a state, or `None` where
/// it is carried out.
///
/// A failure of the driver refuses the request with the driver's own
/// words. Besides that, a window is refused where its number is defined
/// already, a realignment or resize where a channel with that number has no
/// frame, and a change of state where the channel has no playback record.
/// A seek on a channel without a record is carried out on the driver and
/// leaves the records alone.
pub open spec fn spec_refusal(state: SystemState, request: Request, reply: DriverReply) -> Option<
    Seq<char>,
> {
    match request {
        Request::AlignChannel { channel_realignment } => if spec_lacks_frame(
            state.registry.channels,
            channel_realignment.channel,
        ) {
            Some("Unable to realign: Channel doesn't have existing frame."@)
        } else {
            None
        },
        Request::ResizeChannel { channel_allocation } => if spec_lacks_frame(
            state.registry.channels,
            channel_allocation.channel,
        ) {
            Some("Unable to resize: Channel doesn't have existing frame."@)
        } else {
            None
        },
        Request::DefineWindow { window } => if state.defined_windows.contains(
            window.window_number,
        ) {
            Some("Window was already defined."@)
        } else {
            None
        },
        Request::ChangeState { channel_state } => if reply is Failed {
            spec_driver_failure(reply)
        } else if !state.registry.media.contains_key(channel_state.channel) {
            Some("Unable to change state: Channel not defined."@)
        } else {
            None
        },
        Request::AllStop | Request::DefineChannel { .. } | Request::CueMedia { .. } | Request::Seek {
            ..
        } => spec_driver_failure(reply),
        Request::Close => None,
    }
}

/// The key whose value a request changes where it is carried out.
pub open spec fn spec_touched_key(state: SystemState, request: Request) -> Option<StoreKey> {
    match request {
        Request::AlignChannel { .. } | Request::ResizeChannel { .. } | Request::DefineChannel {
            ..
        } => Some(StoreKey::Channels),
        Request::DefineWindow { .. } => Some(StoreKey::Windows),
        Request::CueMedia { .. } | Request::ChangeState { .. } => Some(StoreKey::Media),
        Request::Seek { channel_seek } => if state.registry.media.contains_key(
            channel_seek.channel,
        ) {
            Some(StoreKey::Media)
        } else {
            None
        },
        Request::AllStop | Request::Close => None,
    }
}

/// The event a request sends to the display.
pub open spec fn spec_update(state: SystemState, request: Request, reply: DriverReply) -> Option<
    InterfaceUpdate,
> {
    match request {
        Request::AlignChannel { channel_realignment } => Some(
            InterfaceUpdate::Align { channel_realignment },
        ),
        Request::ResizeChannel { channel_allocation } => Some(
            InterfaceUpdate::Resize { channel_allocation },
        ),
        Request::DefineWindow { window } => if state.defined_windows.contains(
            window.window_number,
        ) {
            None
        } else {
            Some(InterfaceUpdate::Window { window })
        },
        Request::DefineChannel { .. } => match reply {
            DriverReply::Stream(video_stream) => Some(InterfaceUpdate::Video { video_stream }),
            _ => None,
        },
        Request::Close => Some(InterfaceUpdate::Close),
        _ => None,
    }
}

/// What handling a request in a state comes to.
pub open spec fn spec_dispatch(state: SystemState, request: Request, reply: DriverReply) -> DispatchView {
    let refusal = spec_refusal(state, request, reply);
    let touched = spec_touched_key(state, request);
    DispatchView {
        reply: if refusal is None {
            success_view()
        } else {
            failure_view(refusal->0)
        },
        update: spec_update(state, request, reply),
        write: if refusal is None && state.registry.connected {
            touched
        } else {
            None
        },
        delete: if request is Close && state.registry.connected {
            spec_all_keys(state.registry.address)
        } else {
            Seq::empty()
        },
        clock_used: refusal is None && touched == Some(StoreKey::Media),
        keep_running: !(request is Close),
    }
}

/// The state after a request has been handled. A refused request leaves
/// the state as it was.
pub open spec fn spec_next(
    state: SystemState,
    request: Request,
    reply: DriverReply,
    elapsed: Span,
) -> SystemState {
    if spec_refusal(state, request, reply) is Some {
        state
    } else {
        match request {
            Request::AlignChannel { channel_realignment } => SystemState {
                registry: state.registry.realigned(channel_realignment),
                ..state
            },
            Request::ResizeChannel { channel_allocation } => SystemState {
                registry: state.registry.resized(channel_allocation),
                ..state
            },
            Request::DefineWindow { window } => SystemState {
                defined_windows: state.defined_windows.insert(window.window_number),
                registry: state.registry.with_window(window),
            },
            Request::DefineChannel { media_channel } => SystemState {
                registry: state.registry.with_channel(media_channel),
                ..state
            },
            Request::CueMedia { media_cue } => SystemState {
                registry: state.registry.with_cue(media_cue, elapsed),
                ..state
            },
            Request::ChangeState { channel_state } => SystemState {
                registry: state.registry.with_state(channel_state, elapsed),
                ..state
            },
            Request::Seek { channel_seek } => if state.registry.media.contains_key(
                channel_seek.channel,
            ) {
                SystemState { registry: state.registry.with_seek(channel_seek, elapsed), ..state }
            } else {
                state
            },
            Request::AllStop => state,
            Request::Close => SystemState {
                registry: Registry { connected: false, ..state.registry },
                ..state
            },
        }
    }
}

impl DriverReply {
    /// The answer of a driver that refused a call for `reason`.
    pub fn refused(reason: String) -> (r: DriverReply)
        ensures
            r == DriverReply::Failed(reason),
    {
        DriverReply::Failed(reason)
    }

    /// The answer of a driver whose operation `action` failed: a failure
    /// with the message of that operation.
    pub fn failed_at(action: &PlayerAction) -> (r: DriverReply)
        ensures
            spec_driver_failure(r) == spec_failure_message(*action),
            spec_failure_message(*action) is None ==> r == DriverReply::Done,
    {
        match action.failure_message() {
            Some(reason) => DriverReply::Failed(reason),
            None => DriverReply::Done,
        }
    }

    /// The answer of a driver that defined a channel.
    pub fn defined(video_stream: Option<VideoStream>) -> (r: DriverReply)
        ensures
            r == (match video_stream {
                Some(stream) => DriverReply::Stream(stream),
                None => DriverReply::Done,
            }),
    {
        match video_stream {
            Some(stream) => DriverReply::Stream(stream),
            None => DriverReply::Done,
        }
    }
}

impl Dispatch {
    /// The dispatch of a request that was refused for `reason`.
    fn refused(reason: String, update: Option<InterfaceUpdate>) -> (d: Dispatch)
        ensures
            d@ == (DispatchView {
                reply: failure_view(reason@),
                update,
                write: None,
                delete: Seq::empty(),
                clock_used: false,
                keep_running: true,
            }),
    {
        let d = Dispatch {
            reply: WebReply::failure(reason),
            update,
            write: None,
            delete: Vec::new(),
            clock_used: false,
            keep_running: true,
        };
        assert(d@.delete =~= Seq::empty());
        d
    }

    /// The dispatch of a request that was carried out with `outcome`.
    fn carried_out(outcome: BackupOutcome, update: Option<InterfaceUpdate>, clock_used: bool) -> (d:
        Dispatch)
        ensures
            d@ == (DispatchView {
                reply: success_view(),
                update,
                write: match outcome {
                    BackupOutcome::Write(key) => Some(key),
                    _ => None,
                },
                delete: Seq::empty(),
                clock_used,
                keep_running: true,
            }),
    {
        let write = match outcome {
            BackupOutcome::Write(key) => Some(key),
            _ => None,
        };
        let d = Dispatch {
            reply: WebReply::success(),
            update,
            write,
            delete: Vec::new(),
            clock_used,
            keep_running: true,
        };
        assert(d@.delete =~= Seq::empty());
        d
    }
}

/// The dispatcher: the windows that have been defined, and the registry
/// with its mirror.
#[derive(Debug)]
pub struct SystemInterface {
    windows: FnvHashSet<u32>,
    backup_handler: BackupHandler,
}

impl View for SystemInterface {
    type V = SystemState;

    closed spec fn view(&self) -> SystemState {
        SystemState { defined_windows: self.windows@, registry: self.backup_handler@ }
    }
}

impl SystemInterface {
    /// A dispatcher for the node that listens at `address`, with nothing
    /// defined. `connected` says whether there is a store to write to.
    pub fn new(address: String, connected: bool) -> (r: SystemInterface)
        ensures
            r@ == (SystemState {
                defined_windows: Set::empty(),
                registry: Registry::empty(address@, connected),
            }),
    {
        SystemInterface {
            windows: FnvHashSet::default(),
            backup_handler: BackupHandler::new(address, connected),
        }
    }

    /// The registry and its mirror.
    pub fn backup_handler(&self) -> (r: &BackupHandler)
        ensures
            r@ == self@.registry,
    {
        &self.backup_handler
    }

    /// The call on the playback driver that `request` needs, if it needs one.
    pub fn driver_command(request: &Request) -> (r: Option<DriverCommand>)
        ensures
            r == spec_driver_command(*request),
    {
        match request {
            Request::AllStop => Some(DriverCommand::AllStop),
            Request::DefineChannel { media_channel } => Some(
                DriverCommand::DefineChannel { media_channel: media_channel.clone() },
            ),
            Request::CueMedia { media_cue } => Some(
                DriverCommand::CueMedia { media_cue: media_cue.clone() },
            ),
            Request::ChangeState { channel_state } => Some(
                DriverCommand::ChangeState { channel_state: *channel_state },
            ),
            Request::Seek { channel_seek } => Some(DriverCommand::Seek { channel_seek: *channel_seek }),
            _ => None,
        }
    }

    /// Handles one request.
    ///
    /// `reply` is the driver's answer to the call the request needs, and
    /// `elapsed` the time since the playback records were last changed. The
    /// registry moves to [`spec_next`]; the result is [`spec_dispatch`]. A
    /// refused request changes nothing and writes nothing.
    pub fn run_once(&mut self, request: Request, reply: DriverReply, elapsed: Span) -> (d: Dispatch)
        ensures
            final(self)@ == spec_next(old(self)@, request, reply, elapsed),
            d@ == spec_dispatch(old(self)@, request, reply),
    {
        match request {
            Request::AlignChannel { channel_realignment } => {
                let update = Some(InterfaceUpdate::Align { channel_realignment });
                let outcome = self.backup_handler.backup_channel_align(channel_realignment);
                match outcome {
                    BackupOutcome::Rejected => Dispatch::refused(
                        "Unable to realign: Channel doesn't have existing frame.".to_owned(),
                        update,
                    ),
                    _ => Dispatch::carried_out(outcome, update, false),
                }
            },
            Request::ResizeChannel { channel_allocation } => {
                let update = Some(InterfaceUpdate::Resize { channel_allocation });
                let outcome = self.backup_handler.backup_channel_resize(channel_allocation);
                match outcome {
                    BackupOutcome::Rejected => Dispatch::refused(
                        "Unable to resize: Channel doesn't have existing frame.".to_owned(),
                        update,
                    ),
                    _ => Dispatch::carried_out(outcome, update, false),
                }
            },
            Request::DefineWindow { window } => {
                if set_insert(&mut self.windows, window.window_number) {
                    let outcome = self.backup_handler.backup_window(window);
                    Dispatch::carried_out(outcome, Some(InterfaceUpdate::Window { window }), false)
                } else {
                    assert(self.windows@ =~= old(self).windows@);
                    Dispatch::refused("Window was already defined.".to_owned(), None)
                }
            },
            Request::DefineChannel { media_channel } => match reply {
                DriverReply::Failed(reason) => Dispatch::refused(reason, None),
                DriverReply::Stream(video_stream) => {
                    let outcome = self.backup_handler.backup_channel(media_channel);
                    Dispatch::carried_out(
                        outcome,
                        Some(InterfaceUpdate::Video { video_stream }),
                        false,
                    )
                },
                DriverReply::Done => {
                    let outcome = self.backup_handler.backup_channel(media_channel);
                    Dispatch::carried_out(outcome, None, false)
                },
            },
            Request::CueMedia { media_cue } => match reply {
                DriverReply::Failed(reason) => Dispatch::refused(reason, None),
                _ => {
                    let outcome = self.backup_handler.backup_media(media_cue, elapsed);
                    Dispatch::carried_out(outcome, None, true)
                },
            },
            Request::ChangeState { channel_state } => match reply {
                DriverReply::Failed(reason) => Dispatch::refused(reason, None),
                _ => {
                    let outcome = self.backup_handler.backup_media_state(channel_state, elapsed);
                    match outcome {
                        BackupOutcome::Rejected => Dispatch::refused(
                            "Unable to change state: Channel not defined.".to_owned(),
                            None,
                        ),
                        _ => Dispatch::carried_out(outcome, None, true),
                    }
                },
            },
            Request::Seek { channel_seek } => match reply {
                DriverReply::Failed(reason) => Dispatch::refused(reason, None),
                _ => {
                    let outcome = self.backup_handler.backup_media_seek(channel_seek, elapsed);
                    match outcome {
                        BackupOutcome::Rejected => Dispatch::carried_out(outcome, None, false),
                        _ => Dispatch::carried_out(outcome, None, true),
                    }
                },
            },
            Request::AllStop => match reply {
                DriverReply::Failed(reason) => Dispatch::refused(reason, None),
                _ => Dispatch::carried_out(BackupOutcome::Applied, None, false),
            },
            Request::Close => {
                let delete = self.backup_handler.close();
                let d = Dispatch {
                    reply: WebReply::success(),
                    update: Some(InterfaceUpdate::Close),
                    write: None,
                    delete,
                    clock_used: false,
                    keep_running: false,
                };
                assert(d@.delete =~= spec_dispatch(old(self)@, request, reply).delete);
                d
            },
        }
    }
}

/// The time, in milliseconds, that freshly cued media is given to load
/// before it is moved to its position.
pub const SETTLE_MILLIS: u64 = 500;

/// The window numbers that occur in a list.
pub open spec fn spec_window_numbers(list: Seq<WindowDefinition>) -> Set<u32> {
    Set::new(
        |number: u32|
            exists|i: int| 0 <= i < list.len() && (#[trigger] list[i]).window_number == number,
    )
}

/// The windows of `list` that are replayed when the numbers in `defined`
/// are taken: each window whose number is neither taken nor borne by an
/// earlier window of the list, in the order of the list.
pub open spec fn spec_replayed_windows(
    defined: Set<u32>,
    list: Seq<WindowDefinition>,
) -> Seq<WindowDefinition>
    decreases list.len(),
{
    if list.len() == 0 {
        Seq::empty()
    } else {
        let earlier = list.drop_last();
        let window = list.last();
        let replayed = spec_replayed_windows(defined, earlier);
        if defined.contains(window.window_number) || spec_window_numbers(earlier).contains(
            window.window_number,
        ) {
            replayed
        } else {
            replayed.push(window)
        }
    }
}

/// The position, in milliseconds, that restored media is moved to: the
/// stored position plus the settle time, held at the largest position.
pub open spec fn spec_resume_position(seek_to: Span) -> u64 {
    let target = seek_to.total_millis() + 500;
    if target > u64::MAX {
        u64::MAX
    } else {
        target as u64
    }
}

/// The changes of state that restoring asks for: one for each channel of
/// `channels` whose record is not playing, in the order of `channels`.
pub open spec fn spec_state_changes(
    channels: Seq<u32>,
    media: Map<u32, MediaPlayback>,
) -> Seq<ChannelState>
    decreases channels.len(),
{
    if channels.len() == 0 {
        Seq::empty()
    } else {
        let earlier = spec_state_changes(channels.drop_last(), media);
        let channel = channels.last();
        if media[channel].state == PlaybackState::Playing {
            earlier
        } else {
            earlier.push(ChannelState { channel, state: media[channel].state })
        }
    }
}

/// The steps that bring stored playback back, in the order they are taken:
/// every cue, then the settle time, then every seek, then every change of
/// state. A step that fails does not stop the others.
#[derive(Debug, PartialEq, Eq)]
pub struct RestorePlan {
    /// The channels that are restored, in the order each list below follows.
    pub channels: Vec<u32>,
    /// The cue to play on each channel.
    pub cues: Vec<MediaCue>,
    /// The time to wait after the cues, in milliseconds.
    pub settle_millis: u64,
    /// The seek to make on each channel.
    pub seeks: Vec<ChannelSeek>,
    /// The change of state to make on each channel that was not playing.
    pub states: Vec<ChannelState>,
}

/// What a restart has to replay.
#[derive(Debug, PartialEq, Eq)]
pub struct Recovery {
    /// The windows to tell the display of, in order.
    pub windows: Vec<InterfaceUpdate>,
    /// The channels to define on the playback driver, in order.
    pub channels: Vec<DriverCommand>,
    /// The steps that bring playback back.
    pub playlist: RestorePlan,
}

/// The event for the display that follows a channel defined during replay.
pub fn stream_update(reply: &DriverReply) -> (r: Option<InterfaceUpdate>)
    ensures
        r == (match *reply {
            DriverReply::Stream(video_stream) => Some(InterfaceUpdate::Video { video_stream }),
            _ => None,
        }),
{
    match reply {
        DriverReply::Stream(video_stream) => Some(
            InterfaceUpdate::Video { video_stream: *video_stream },
        ),
        _ => None,
    }
}

/// The position that media stored at `seek_to` is moved to on restoring.
pub fn resume_position(seek_to: Span) -> (r: u64)
    ensures
        r == spec_resume_position(seek_to),
{
    let millis: u128 = seek_to.as_millis();
    let target: u128 = millis + 500;
    if target > 0xffff_ffff_ffff_ffffu128 {
        u64::MAX
    } else {
        target as u64
    }
}

impl SystemInterface {
    /// Replays stored windows in their order. A window whose number is
    /// already defined, or was borne by an earlier window of the list, is
    /// left out. The result holds the event for each window that is taken.
    pub fn restore_windows(&mut self, window_list: &Vec<WindowDefinition>) -> (r: Vec<
        InterfaceUpdate,
    >)
        ensures
            final(self)@.registry == old(self)@.registry,
            final(self)@.defined_windows == old(self)@.defined_windows.union(
                spec_window_numbers(window_list@),
            ),
            r@ == spec_replayed_windows(old(self)@.defined_windows, window_list@).map_values(
                |window: WindowDefinition| InterfaceUpdate::Window { window },
            ),
    {
        let mut updates: Vec<InterfaceUpdate> = Vec::new();
        let ghost defined = self.windows@;
        let mut i: usize = 0;
        while i < window_list.len()
            invariant
                i <= window_list.len(),
                self.backup_handler == old(self).backup_handler,
                defined == old(self).windows@,
                self.windows@ == defined.union(spec_window_numbers(window_list@.take(i as int))),
                updates@ == spec_replayed_windows(defined, window_list@.take(i as int)).map_values(
                    |window: WindowDefinition| InterfaceUpdate::Window { window },
                ),
            decreases window_list.len() - i,
        {
            let window = window_list[i];
            let ghost earlier = window_list@.take(i as int);
            let ghost longer = window_list@.take(i + 1);
            proof {
                assert(longer.drop_last() == earlier);
                assert(longer.last() == window);
                assert forall|number: u32|
                    spec_window_numbers(longer).contains(number) <==> (spec_window_numbers(
                        earlier,
                    ).contains(number) || number == window.window_number) by {
                    if spec_window_numbers(longer).contains(number) {
                        let j = choose|j: int|
                            0 <= j < longer.len() && (#[trigger] longer[j]).window_number
                                == number;
                        if j < i {
                            assert(earlier[j].window_number == number);
                        }
                    }
                    if spec_window_numbers(earlier).contains(number) {
                        let j = choose|j: int|
                            0 <= j < earlier.len() && (#[trigger] earlier[j]).window_number
                                == number;
                        assert(longer[j].window_number == number);
                    }
                    if number == window.window_number {
                        assert(longer[i as int].window_number == number);
                    }
                }
                assert(spec_window_numbers(longer) =~= spec_window_numbers(earlier).insert(
                    window.window_number,
                ));
            }
            if set_insert(&mut self.windows, window.window_number) {
                updates.push(InterfaceUpdate::Window { window });
            }
            proof {
                assert(self.windows@ =~= defined.union(spec_window_numbers(longer)));
                assert(updates@ =~= spec_replayed_windows(defined, longer).map_values(
                    |window: WindowDefinition| InterfaceUpdate::Window { window },
                ));
            }
            i += 1;
        }
        assert(window_list@.take(window_list.len() as int) == window_list@);
        updates
    }

    /// The calls that define stored channels again, in their order.
    pub fn restore_channels(channel_list: &Vec<MediaChannel>) -> (r: Vec<DriverCommand>)
        ensures
            r@ == channel_list@.map_values(
                |media_channel: MediaChannel| DriverCommand::DefineChannel { media_channel },
            ),
    {
        let mut commands: Vec<DriverCommand> = Vec::new();
        let mut i: usize = 0;
        while i < channel_list.len()
            invariant
                i <= channel_list.len(),
                commands@.len() == i,
                forall|j: int|
                    0 <= j < i ==> #[trigger] commands@[j] == (DriverCommand::DefineChannel {
                        media_channel: channel_list@[j],
                    }),
            decreases channel_list.len() - i,
        {
            commands.push(DriverCommand::DefineChannel { media_channel: channel_list[i].clone() });
            i += 1;
        }
        assert(commands@ =~= channel_list@.map_values(
            |media_channel: MediaChannel| DriverCommand::DefineChannel { media_channel },
        ));
        commands
    }

    /// The steps that bring the playback of `playlist` back.
    ///
    /// Every channel of the playlist is restored once. Its cue is the one
    /// stored; its seek goes to the stored position plus the settle time;
    /// it gets a change of state only if it was not playing.
    pub fn restore_playlist(playlist: &MediaPlaylist) -> (plan: RestorePlan)
        ensures
            plan.channels@.no_duplicates(),
            plan.channels@.to_set() == playlist@.dom(),
            plan.cues@ == plan.channels@.map_values(|channel: u32| playlist@[channel].media_cue),
            plan.settle_millis == 500,
            plan.seeks@ == plan.channels@.map_values(
                |channel: u32|
                    ChannelSeek {
                        channel,
                        position: spec_resume_position(playlist@[channel].seek_to),
                    },
            ),
            plan.states@ == spec_state_changes(plan.channels@, playlist@),
    {
        let channels = playlist.channels();
        let mut cues: Vec<MediaCue> = Vec::new();
        let mut seeks: Vec<ChannelSeek> = Vec::new();
        let mut states: Vec<ChannelState> = Vec::new();
        let mut i: usize = 0;
        while i < channels.len()
            invariant
                i <= channels.len(),
                channels@.to_set() == playlist@.dom(),
                cues@.len() == i,
                seeks@.len() == i,
                forall|j: int| 0 <= j < i ==> #[trigger] cues@[j] == playlist@[channels@[j]].media_cue,
                forall|j: int|
                    0 <= j < i ==> #[trigger] seeks@[j] == (ChannelSeek {
                        channel: channels@[j],
                        position: spec_resume_position(playlist@[channels@[j]].seek_to),
                    }),
                states@ == spec_state_changes(channels@.take(i as int), playlist@),
            decreases channels.len() - i,
        {
            let channel: u32 = channels[i];
            proof {
                assert(channels@.to_set().contains(channel));
                assert(channels@.take(i + 1).drop_last() == channels@.take(i as int));
                assert(channels@.take(i + 1).last() == channel);
            }
            match playlist.get(channel) {
                Some(playback) => {
                    cues.push(playback.media_cue.clone());
                    seeks.push(
                        ChannelSeek { channel, position: resume_position(playback.seek_to) },
                    );
                    if !playback.state.is_playing() {
                        states.push(ChannelState { channel, state: playback.state });
                    }
                },
                None => {},
            }
            i += 1;
        }
        assert(channels@.take(channels.len() as int) == channels@);
        assert(cues@ =~= channels@.map_values(|channel: u32| playlist@[channel].media_cue));
        assert(seeks@ =~= channels@.map_values(
            |channel: u32|
                ChannelSeek { channel, position: spec_resume_position(playlist@[channel].seek_to) },
        ));
        RestorePlan { channels, cues, settle_millis: SETTLE_MILLIS, seeks, states }
    }

    /// Takes over what was read from the store at startup and says what to
    /// replay.
    ///
    /// Without a store, or where the store holds no playlist, there is
    /// nothing to recover: the answer is `None` and nothing changes.
    /// Otherwise the registry takes the three values, the stored windows
    /// count as defined, and the answer holds the windows, the channels and
    /// the playback to replay, each in its stored order.
    pub fn recover(
        &mut self,
        media: Fetched<MediaPlaylist>,
        windows: Fetched<Vec<WindowDefinition>>,
        channels: Fetched<Vec<MediaChannel>>,
    ) -> (r: Option<Recovery>)
        ensures
            (!old(self)@.registry.connected || media is Absent) ==> r is None,
            r is None ==> final(self)@ == old(self)@,
            r is Some ==> final(self)@ == spec_recovered(
                old(self)@,
                spec_fetched_media(media),
                spec_fetched_list(windows),
                spec_fetched_list(channels),
            ),
            r is Some ==> r->0.windows@ == spec_replayed_windows(
                old(self)@.defined_windows,
                spec_fetched_list(windows),
            ).map_values(|window: WindowDefinition| InterfaceUpdate::Window { window }),
            r is Some ==> r->0.channels@ == spec_fetched_list(channels).map_values(
                |media_channel: MediaChannel| DriverCommand::DefineChannel { media_channel },
            ),
            r is Some ==> spec_restores(r->0.playlist, spec_fetched_media(media)),
            (old(self)@.registry.connected && !(media is Absent)) ==> r is Some,
    {
        match self.backup_handler.reload_backup(media, windows, channels) {
            None => None,
            Some((window_list, channel_list, media_playlist)) => {
                let window_updates = self.restore_windows(&window_list);
                let commands = SystemInterface::restore_channels(&channel_list);
                let playlist = SystemInterface::restore_playlist(&media_playlist);
                Some(Recovery { windows: window_updates, channels: commands, playlist })
            },
        }
    }
}

/// The state after a restart took over what the store held.
pub open spec fn spec_recovered(
    state: SystemState,
    media: Map<u32, MediaPlayback>,
    windows: Seq<WindowDefinition>,
    channels: Seq<MediaChannel>,
) -> SystemState {
    SystemState {
        defined_windows: state.defined_windows.union(spec_window_numbers(windows)),
        registry: state.registry.reloaded(windows, channels, media),
    }
}

/// Whether `plan` brings the playback of `media` back: what
/// [`SystemInterface::restore_playlist`] promises of its result.
pub open spec fn spec_restores(plan: RestorePlan, media: Map<u32, MediaPlayback>) -> bool {
    &&& plan.channels@.no_duplicates()
    &&& plan.channels@.to_set() == media.dom()
    &&& plan.cues@ == plan.channels@.map_values(|channel: u32| media[channel].media_cue)
    &&& plan.settle_millis == 500
    &&& plan.seeks@ == plan.channels@.map_values(
        |channel: u32|
            ChannelSeek { channel, position: spec_resume_position(media[channel].seek_to) },
    )
    &&& plan.states@ == spec_state_changes(plan.channels@, media)
}

} // verus!
