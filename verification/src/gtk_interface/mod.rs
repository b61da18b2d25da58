//! The display's side of the events the dispatcher sends.

pub mod video_window;

use vstd::prelude::*;
use crate::definitions::communication::InterfaceUpdate;
use self::video_window::{
    spec_place, spec_realigned, spec_reallocated, spec_relayout, DisplayState, VideoWindow,
    WindowAction,
};

verus! {

/// The time between two looks at the queue of events, in milliseconds.
pub const REFRESH_RATE: u64 = 10;

/// The record after one event.
pub open spec fn spec_after_update(state: DisplayState, update: InterfaceUpdate) -> DisplayState {
    match update {
        InterfaceUpdate::Window { window } => DisplayState {
            windows: state.windows.insert(window.window_number),
            ..state
        },
        InterfaceUpdate::Video { video_stream } => DisplayState {
            windows: state.windows.insert(video_stream.window_number),
            channels: state.channels.insert(video_stream.channel, spec_place(video_stream)),
        },
        InterfaceUpdate::Resize { channel_allocation } => spec_reallocated(
            state,
            channel_allocation,
        ),
        InterfaceUpdate::Align { channel_realignment } => spec_realigned(
            state,
            channel_realignment,
        ),
        InterfaceUpdate::Close => DisplayState { windows: Set::empty(), channels: Map::empty() },
    }
}

/// The operations on the windows that one event comes to.
pub open spec fn spec_update_actions(state: DisplayState, update: InterfaceUpdate) -> Seq<
    WindowAction,
> {
    match update {
        InterfaceUpdate::Window { window } => seq![
            WindowAction::Open {
                window_number: window.window_number,
                fullscreen: window.fullscreen,
                dimensions: window.dimensions,
            },
        ],
        InterfaceUpdate::Video { video_stream } => if state.windows.contains(
            video_stream.window_number,
        ) {
            seq![
                WindowAction::AddVideo {
                    window_number: video_stream.window_number,
                    channel: video_stream.channel,
                },
            ]
        } else {
            seq![
                WindowAction::Open {
                    window_number: video_stream.window_number,
                    fullscreen: true,
                    dimensions: None,
                },
                WindowAction::AddVideo {
                    window_number: video_stream.window_number,
                    channel: video_stream.channel,
                },
            ]
        },
        InterfaceUpdate::Resize { channel_allocation } => match spec_relayout(
            state,
            channel_allocation.channel,
        ) {
            Some(action) => seq![action],
            None => Seq::empty(),
        },
        InterfaceUpdate::Align { channel_realignment } => match spec_relayout(
            state,
            channel_realignment.channel,
        ) {
            Some(action) => seq![action],
            None => Seq::empty(),
        },
        InterfaceUpdate::Close => seq![WindowAction::CloseAll],
    }
}

/// What a look at the queue of events came to.
pub struct Outlook {
    /// The record afterwards.
    pub state: DisplayState,
    /// The operations on the windows, in order.
    pub actions: Seq<WindowAction>,
    /// Whether the display has closed.
    pub closed: bool,
}

/// What handling the events of `updates` from place `at` on comes to. The
/// events are handled in order; the one that closes the display is the
/// last to be handled.
pub open spec fn spec_check_from(state: DisplayState, updates: Seq<InterfaceUpdate>, at: int) -> Outlook
    decreases updates.len() - at,
{
    if at < 0 || at >= updates.len() {
        Outlook { state, actions: Seq::empty(), closed: false }
    } else {
        let update = updates[at];
        let actions = spec_update_actions(state, update);
        let next = spec_after_update(state, update);
        if update is Close {
            Outlook { state: next, actions, closed: true }
        } else {
            let rest = spec_check_from(next, updates, at + 1);
            Outlook { actions: actions + rest.actions, ..rest }
        }
    }
}

/// What a look at the queue of events came to, for the embedding program
/// to carry out.
#[derive(Debug, PartialEq, Eq)]
pub struct DisplayStep {
    /// The operations on the windows, in order.
    pub actions: Vec<WindowAction>,
    /// Whether the display has closed, so that the queue is looked at no more.
    pub closed: bool,
}

/// The display: its record of windows and videos.
#[derive(Debug)]
pub struct GtkInterface {
    video_window: VideoWindow,
}

impl View for GtkInterface {
    type V = DisplayState;

    closed spec fn view(&self) -> DisplayState {
        self.video_window@
    }
}

impl GtkInterface {
    /// A display without windows.
    pub fn spawn_interface() -> (r: GtkInterface)
        ensures
            r@ == (DisplayState { windows: Set::empty(), channels: Map::empty() }),
    {
        GtkInterface { video_window: VideoWindow::new() }
    }

    /// The record of windows and videos.
    pub fn video_window(&self) -> (r: &VideoWindow)
        ensures
            r@ == self@,
    {
        &self.video_window
    }

    /// Handles one event.
    pub fn check_update(&mut self, update: InterfaceUpdate) -> (r: Vec<WindowAction>)
        ensures
            final(self)@ == spec_after_update(old(self)@, update),
            r@ == spec_update_actions(old(self)@, update),
    {
        match update {
            InterfaceUpdate::Window { window } => {
                let mut actions: Vec<WindowAction> = Vec::new();
                actions.push(self.video_window.define_window(window));
                actions
            },
            InterfaceUpdate::Video { video_stream } => self.video_window.add_new_video(video_stream),
            InterfaceUpdate::Resize { channel_allocation } => {
                let mut actions: Vec<WindowAction> = Vec::new();
                match self.video_window.change_allocation(channel_allocation) {
                    Some(action) => {
                        actions.push(action);
                    },
                    None => {},
                }
                actions
            },
            InterfaceUpdate::Align { channel_realignment } => {
                let mut actions: Vec<WindowAction> = Vec::new();
                match self.video_window.change_alignment(channel_realignment) {
                    Some(action) => {
                        actions.push(action);
                    },
                    None => {},
                }
                actions
            },
            InterfaceUpdate::Close => {
                let mut actions: Vec<WindowAction> = Vec::new();
                actions.push(self.video_window.clear_all());
                actions
            },
        }
    }

    /// Handles the events that have queued up, in order, up to and with
    /// the one that closes the display.
    pub fn check_updates(&mut self, updates: Vec<InterfaceUpdate>) -> (r: DisplayStep)
        ensures
            final(self)@ == spec_check_from(old(self)@, updates@, 0).state,
            r.actions@ == spec_check_from(old(self)@, updates@, 0).actions,
            r.closed == spec_check_from(old(self)@, updates@, 0).closed,
    {
        let mut actions: Vec<WindowAction> = Vec::new();
        let mut closed = false;
        let mut i: usize = 0;
        let ghost whole = spec_check_from(self@, updates@, 0);
        while i < updates.len() && !closed
            invariant
                i <= updates.len(),
                closed ==> whole == (Outlook { state: self@, actions: actions@, closed: true }),
                !closed ==> whole == (Outlook {
                    actions: actions@ + spec_check_from(self@, updates@, i as int).actions,
                    ..spec_check_from(self@, updates@, i as int)
                }),
            decreases updates.len() - i,
        {
            let update = updates[i];
            let ghost before = self@;
            let ghost so_far = actions@;
            let mut step = self.check_update(update);
            match update {
                InterfaceUpdate::Close => {
                    closed = true;
                },
                _ => {},
            }
            actions.append(&mut step);
            proof {
                let here = spec_check_from(before, updates@, i as int);
                let first = spec_update_actions(before, updates@[i as int]);
                if closed {
                    assert(actions@ =~= so_far + here.actions);
                } else {
                    let rest = spec_check_from(self@, updates@, i + 1);
                    assert(so_far + (first + rest.actions) =~= (so_far + first) + rest.actions);
                }
            }
            i += 1;
        }
        proof {
            if !closed {
                assert(actions@ + Seq::<WindowAction>::empty() =~= actions@);
            }
        }
        DisplayStep { actions, closed }
    }
}

} // verus!
