//! Requests, replies and the events sent to the display.

use vstd::prelude::*;
use crate::definitions::connections::{MediaCue, VideoStream};
use crate::definitions::media::{
    ChannelAllocation, ChannelRealignment, ChannelSeek, ChannelState, MediaChannel,
    WindowDefinition,
};

verus! {

/// A command for the node. Every request is answered by one reply.
#[derive(Debug, PartialEq, Eq)]
pub enum Request {
    /// Move the frame of a channel by one pixel.
    AlignChannel { channel_realignment: ChannelRealignment },
    /// Stop the media on every channel.
    AllStop,
    /// Define a window.
    DefineWindow { window: WindowDefinition },
    /// Define a channel.
    DefineChannel { media_channel: MediaChannel },
    /// Play media on a channel.
    CueMedia { media_cue: MediaCue },
    /// Run or hold the media of a channel.
    ChangeState { channel_state: ChannelState },
    /// Give the frame of a channel a new place and size.
    ResizeChannel { channel_allocation: ChannelAllocation },
    /// Move the media of a channel to a position.
    Seek { channel_seek: ChannelSeek },
    /// End the node.
    Close,
}

impl Clone for Request {
    fn clone(&self) -> (r: Self)
        ensures
            r == *self,
    {
        match self {
            Request::AlignChannel { channel_realignment } => Request::AlignChannel {
                channel_realignment: *channel_realignment,
            },
            Request::AllStop => Request::AllStop,
            Request::DefineWindow { window } => Request::DefineWindow { window: *window },
            Request::DefineChannel { media_channel } => Request::DefineChannel {
                media_channel: media_channel.clone(),
            },
            Request::CueMedia { media_cue } => Request::CueMedia { media_cue: media_cue.clone() },
            Request::ChangeState { channel_state } => Request::ChangeState {
                channel_state: *channel_state,
            },
            Request::ResizeChannel { channel_allocation } => Request::ResizeChannel {
                channel_allocation: *channel_allocation,
            },
            Request::Seek { channel_seek } => Request::Seek { channel_seek: *channel_seek },
            Request::Close => Request::Close,
        }
    }
}

/// What a reply says: whether the request was carried out, and a message.
pub struct ReplyView {
    pub is_valid: bool,
    pub message: Seq<char>,
}

/// The answer to a request.
#[derive(Debug, PartialEq, Eq)]
pub enum WebReply {
    Generic {
        /// Whether the request was carried out.
        is_valid: bool,
        /// What happened, in words.
        message: String,
    },
}

impl Clone for WebReply {
    fn clone(&self) -> (r: Self)
        ensures
            r == *self,
    {
        match self {
            WebReply::Generic { is_valid, message } => WebReply::Generic {
                is_valid: *is_valid,
                message: message.clone(),
            },
        }
    }
}

impl View for WebReply {
    type V = ReplyView;

    open spec fn view(&self) -> ReplyView {
        match *self {
            WebReply::Generic { is_valid, message } => ReplyView { is_valid, message: message@ },
        }
    }
}

/// The view of the reply to a request that was carried out.
pub open spec fn success_view() -> ReplyView {
    ReplyView { is_valid: true, message: "Request completed."@ }
}

/// The view of the reply to a request that failed for `reason`.
pub open spec fn failure_view(reason: Seq<char>) -> ReplyView {
    ReplyView { is_valid: false, message: reason }
}

impl WebReply {
    /// The reply to a request that was carried out.
    pub fn success() -> (r: WebReply)
        ensures
            r@ == success_view(),
    {
        WebReply::Generic { is_valid: true, message: "Request completed.".to_owned() }
    }

    /// The reply to a request that failed, with the reason.
    pub fn failure(reason: String) -> (r: WebReply)
        ensures
            r == (WebReply::Generic { is_valid: false, message: reason }),
            r@ == failure_view(reason@),
    {
        WebReply::Generic { is_valid: false, message: reason }
    }

    /// Whether the reply reports success.
    pub fn is_success(&self) -> (r: bool)
        ensures
            r == self@.is_valid,
    {
        match self {
            WebReply::Generic { is_valid, .. } => *is_valid,
        }
    }
}

/// An event for the display.
#[derive(Clone, Copy, Debug, PartialEq, Eq)]
pub enum InterfaceUpdate {
    /// A window was defined.
    Window { window: WindowDefinition },
    /// A channel with a video was defined.
    Video { video_stream: VideoStream },
    /// The frame of a channel got a new place and size.
    Resize { channel_allocation: ChannelAllocation },
    /// The frame of a channel moved by one pixel.
    Align { channel_realignment: ChannelRealignment },
    /// The node is closing.
    Close,
}

} // verus!
