//! The rules of the web interface: which path carries which request, and
//! how the outcome of a request is answered.

use vstd::prelude::*;
use vstd::std_specs::convert::FromSpecImpl;
use crate::definitions::communication::{failure_view, ReplyView, Request, WebReply};
use crate::definitions::connections::MediaCue;
use crate::definitions::media::{
    ChannelAllocation, ChannelRealignment, ChannelSeek, ChannelState, MediaChannel,
    WindowDefinition,
};

verus! {

/// The status that answers a request that was carried out.
pub const STATUS_OK: u16 = 200;

/// The status that answers a request that was refused.
pub const STATUS_BAD_REQUEST: u16 = 400;

/// The status that answers a request the node gave no reply to.
pub const STATUS_INTERNAL_SERVER_ERROR: u16 = 500;

/// The largest body of a request that is read, in bytes.
pub const CONTENT_LENGTH_LIMIT: u64 = 16384;

impl From<WindowDefinition> for Request {
    fn from(window: WindowDefinition) -> (r: Request) {
        Request::DefineWindow { window }
    }
}

impl FromSpecImpl<WindowDefinition> for Request {
    open spec fn obeys_from_spec() -> bool {
        true
    }

    open spec fn from_spec(window: WindowDefinition) -> Request {
        Request::DefineWindow { window }
    }
}

impl From<MediaChannel> for Request {
    fn from(media_channel: MediaChannel) -> (r: Request) {
        Request::DefineChannel { media_channel }
    }
}

impl FromSpecImpl<MediaChannel> for Request {
    open spec fn obeys_from_spec() -> bool {
        true
    }

    open spec fn from_spec(media_channel: MediaChannel) -> Request {
        Request::DefineChannel { media_channel }
    }
}

impl From<MediaCue> for Request {
    fn from(media_cue: MediaCue) -> (r: Request) {
        Request::CueMedia { media_cue }
    }
}

impl FromSpecImpl<MediaCue> for Request {
    open spec fn obeys_from_spec() -> bool {
        true
    }

    open spec fn from_spec(media_cue: MediaCue) -> Request {
        Request::CueMedia { media_cue }
    }
}

impl From<ChannelState> for Request {
    fn from(channel_state: ChannelState) -> (r: Request) {
        Request::ChangeState { channel_state }
    }
}

impl FromSpecImpl<ChannelState> for Request {
    open spec fn obeys_from_spec() -> bool {
        true
    }

    open spec fn from_spec(channel_state: ChannelState) -> Request {
        Request::ChangeState { channel_state }
    }
}

impl From<ChannelAllocation> for Request {
    fn from(channel_allocation: ChannelAllocation) -> (r: Request) {
        Request::ResizeChannel { channel_allocation }
    }
}

impl FromSpecImpl<ChannelAllocation> for Request {
    open spec fn obeys_from_spec() -> bool {
        true
    }

    open spec fn from_spec(channel_allocation: ChannelAllocation) -> Request {
        Request::ResizeChannel { channel_allocation }
    }
}

impl From<ChannelRealignment> for Request {
    fn from(channel_realignment: ChannelRealignment) -> (r: Request) {
        Request::AlignChannel { channel_realignment }
    }
}

impl FromSpecImpl<ChannelRealignment> for Request {
    open spec fn obeys_from_spec() -> bool {
        true
    }

    open spec fn from_spec(channel_realignment: ChannelRealignment) -> Request {
        Request::AlignChannel { channel_realignment }
    }
}

impl From<ChannelSeek> for Request {
    fn from(channel_seek: ChannelSeek) -> (r: Request) {
        Request::Seek { channel_seek }
    }
}

impl FromSpecImpl<ChannelSeek> for Request {
    open spec fn obeys_from_spec() -> bool {
        true
    }

    open spec fn from_spec(channel_seek: ChannelSeek) -> Request {
        Request::Seek { channel_seek }
    }
}

/// The kinds of request, one for each path of the web interface.
#[derive(Clone, Copy, Debug, PartialEq, Eq)]
pub enum Route {
    AlignChannel,
    AllStop,
    DefineWindow,
    DefineChannel,
    CueMedia,
    ChangeState,
    ResizeChannel,
    Seek,
    Close,
}

/// The path of each kind of request.
pub open spec fn spec_route_path(route: Route) -> Seq<char> {
    match route {
        Route::AlignChannel => "alignChannel"@,
        Route::AllStop => "allStop"@,
        Route::DefineWindow => "defineWindow"@,
        Route::DefineChannel => "defineChannel"@,
        Route::CueMedia => "cueMedia"@,
        Route::ChangeState => "changeState"@,
        Route::ResizeChannel => "resizeChannel"@,
        Route::Seek => "seek"@,
        Route::Close => "close"@,
    }
}

/// The kind of a request.
pub open spec fn spec_route_of(request: Request) -> Route {
    match request {
        Request::AlignChannel { .. } => Route::AlignChannel,
        Request::AllStop => Route::AllStop,
        Request::DefineWindow { .. } => Route::DefineWindow,
        Request::DefineChannel { .. } => Route::DefineChannel,
        Request::CueMedia { .. } => Route::CueMedia,
        Request::ChangeState { .. } => Route::ChangeState,
        Request::ResizeChannel { .. } => Route::ResizeChannel,
        Request::Seek { .. } => Route::Seek,
        Request::Close => Route::Close,
    }
}

/// The answer to a request: a status and a body.
#[derive(Debug, PartialEq, Eq)]
pub struct WebResponse {
    pub status: u16,
    pub body: WebReply,
}

/// The status and the body that answer a request, from the reply the node
/// gave, or `None` where it gave none.
pub open spec fn spec_response(reply: Option<ReplyView>) -> (u16, ReplyView) {
    match reply {
        Some(view) => if view.is_valid {
            (200u16, view)
        } else {
            (400u16, view)
        },
        None => (500u16, failure_view("Unable to process request."@)),
    }
}

/// The rules of the web interface.
pub struct WebInterface {}

impl WebInterface {
    /// The path under which requests of a kind are posted.
    pub fn path(route: Route) -> (r: &'static str)
        ensures
            r@ == spec_route_path(route),
    {
        match route {
            Route::AlignChannel => "alignChannel",
            Route::AllStop => "allStop",
            Route::DefineWindow => "defineWindow",
            Route::DefineChannel => "defineChannel",
            Route::CueMedia => "cueMedia",
            Route::ChangeState => "changeState",
            Route::ResizeChannel => "resizeChannel",
            Route::Seek => "seek",
            Route::Close => "close",
        }
    }

    /// The kind of a request.
    pub fn route_of(request: &Request) -> (r: Route)
        ensures
            r == spec_route_of(*request),
    {
        match request {
            Request::AlignChannel { .. } => Route::AlignChannel,
            Request::AllStop => Route::AllStop,
            Request::DefineWindow { .. } => Route::DefineWindow,
            Request::DefineChannel { .. } => Route::DefineChannel,
            Request::CueMedia { .. } => Route::CueMedia,
            Request::ChangeState { .. } => Route::ChangeState,
            Request::ResizeChannel { .. } => Route::ResizeChannel,
            Request::Seek { .. } => Route::Seek,
            Request::Close => Route::Close,
        }
    }

    /// Answers a request. A reply that reports success goes out as it is
    /// with the status for success, one that reports failure with the
    /// status for a bad request. Where the node gave no reply, the answer
    /// says so, with the status for a server error.
    pub fn handle_request(reply: Option<WebReply>) -> (r: WebResponse)
        ensures
            r.status == spec_response(
                match reply {
                    Some(given) => Some(given@),
                    None => None,
                },
            ).0,
            r.body@ == spec_response(
                match reply {
                    Some(given) => Some(given@),
                    None => None,
                },
            ).1,
            reply is Some ==> r.body == reply->0,
    {
        match reply {
            Some(given) => {
                if given.is_success() {
                    WebResponse { status: STATUS_OK, body: given }
                } else {
                    WebResponse { status: STATUS_BAD_REQUEST, body: given }
                }
            },
            None => WebResponse {
                status: STATUS_INTERNAL_SERVER_ERROR,
                body: WebReply::failure("Unable to process request.".to_owned()),
            },
        }
    }
}

} // verus!
