use apollo::definitions::{
    AudioDevice, ChannelSeek, ChannelState, Direction, DmxFade, Identifier, MediaChannel, MediaCue,
    MediaPlayback, MediaPlaylist, PlaybackState, Request, Span, VideoFrame, VideoFrameWithWindow,
    VideoStream, WebReply, WindowDefinition, DEFAULT_ADDRESS,
};
use apollo::web_interface::{Route, WebInterface};

#[test]
fn replies_report_success_and_failure() {
    let success = WebReply::success();
    assert!(success.is_success());
    assert_eq!(
        success,
        WebReply::Generic { is_valid: true, message: "Request completed.".to_string() }
    );
    let failure = WebReply::failure("No such thing.".to_string());
    assert!(!failure.is_success());
    assert_eq!(
        failure,
        WebReply::Generic { is_valid: false, message: "No such thing.".to_string() }
    );
    assert_eq!(failure.clone(), failure);
}

#[test]
fn responses_carry_the_status() {
    let ok = WebInterface::handle_request(Some(WebReply::success()));
    assert_eq!(ok.status, 200);
    assert_eq!(ok.body, WebReply::success());
    let bad = WebInterface::handle_request(Some(WebReply::failure("no".to_string())));
    assert_eq!(bad.status, 400);
    assert_eq!(bad.body, WebReply::failure("no".to_string()));
    let none = WebInterface::handle_request(None);
    assert_eq!(none.status, 500);
    assert_eq!(none.body, WebReply::failure("Unable to process request.".to_string()));
}

#[test]
fn every_route_has_its_path() {
    let paths = [
        (Route::AlignChannel, "alignChannel"),
        (Route::AllStop, "allStop"),
        (Route::DefineWindow, "defineWindow"),
        (Route::DefineChannel, "defineChannel"),
        (Route::CueMedia, "cueMedia"),
        (Route::ChangeState, "changeState"),
        (Route::ResizeChannel, "resizeChannel"),
        (Route::Seek, "seek"),
        (Route::Close, "close"),
    ];
    for (route, path) in paths {
        assert_eq!(WebInterface::path(route), path);
    }
    assert_eq!(WebInterface::route_of(&Request::AllStop), Route::AllStop);
    assert_eq!(WebInterface::route_of(&Request::Close), Route::Close);
}

#[test]
fn requests_are_made_from_their_payload() {
    let window = WindowDefinition { window_number: 1, fullscreen: true, dimensions: None };
    assert_eq!(Request::from(window), Request::DefineWindow { window });
    let seek = ChannelSeek { channel: 1, position: 2 };
    assert_eq!(Request::from(seek), Request::Seek { channel_seek: seek });
    let state = ChannelState { channel: 1, state: PlaybackState::Paused };
    assert_eq!(Request::from(state), Request::ChangeState { channel_state: state });
    let cue = MediaCue { channel: 1, uri: "a".to_string(), loop_media: None };
    assert_eq!(Request::from(cue.clone()), Request::CueMedia { media_cue: cue.clone() });
    assert_eq!(WebInterface::route_of(&Request::from(cue)), Route::CueMedia);
    let channel = MediaChannel {
        channel: 1,
        video_frame: None,
        audio_device: Some(AudioDevice::Jack),
        loop_media: Some("l".to_string()),
    };
    assert_eq!(
        Request::from(channel.clone()),
        Request::DefineChannel { media_channel: channel.clone() }
    );
    assert_eq!(channel.clone(), channel);
}

#[test]
fn spans_convert_and_add() {
    assert_eq!(Span::from_millis(1500), Span { secs: 1, nanos: 500_000_000 });
    assert_eq!(Span::from_millis(u64::MAX).as_millis(), u64::MAX as u128);
    assert_eq!(Span::from_secs(7), Span { secs: 7, nanos: 0 });
    assert_eq!(Span::from_parts(1, 999_999_999), Some(Span { secs: 1, nanos: 999_999_999 }));
    assert_eq!(Span::from_parts(1, 1_000_000_000), None);
    assert_eq!(Span { secs: 2, nanos: 999_999 }.as_millis(), 2000);
    assert_eq!(Span { secs: 2, nanos: 1_000_000 }.as_millis(), 2001);
    assert_eq!(
        Span { secs: 1, nanos: 600_000_000 }.saturating_add(Span { secs: 2, nanos: 500_000_000 }),
        Span { secs: 4, nanos: 100_000_000 }
    );
    assert_eq!(Span::max().saturating_add(Span { secs: 0, nanos: 1 }), Span::max());
    assert_eq!(Span::max().saturating_add(Span::max()), Span::max());
    assert_eq!(Span::zero().saturating_add(Span::zero()), Span::zero());
    assert_eq!(
        Span { secs: 0, nanos: 4_000_000_000 }.saturating_add(Span::zero()),
        Span { secs: 4, nanos: 0 }
    );
}

#[test]
fn frames_move_by_one_pixel_and_keep_their_window() {
    let frame = VideoFrameWithWindow { window_number: 3, top: 0, left: 0, height: 9, width: 9 };
    assert_eq!(frame.moved(Direction::Up).top, -1);
    assert_eq!(frame.moved(Direction::Down).top, 1);
    assert_eq!(frame.moved(Direction::Left).left, -1);
    assert_eq!(frame.moved(Direction::Right).left, 1);
    let edge = VideoFrameWithWindow { top: i32::MIN, left: i32::MAX, ..frame };
    assert_eq!(edge.moved(Direction::Up), edge);
    assert_eq!(edge.moved(Direction::Right), edge);
    assert_eq!(
        frame.resized(VideoFrame { top: 1, left: 2, height: 3, width: 4 }),
        VideoFrameWithWindow { window_number: 3, top: 1, left: 2, height: 3, width: 4 }
    );
    assert_eq!(
        VideoStream::new(5, frame),
        VideoStream { channel: 5, window_number: 3, x: 0, y: 0, width: 9, height: 9 }
    );
}

#[test]
fn playlist_keeps_one_record_per_channel() {
    let mut playlist = MediaPlaylist::new();
    assert_eq!(playlist.len(), 0);
    assert!(playlist.get(1).is_none());
    let first = MediaPlayback::started(MediaCue {
        channel: 1,
        uri: "a.mp4".to_string(),
        loop_media: None,
    });
    assert_eq!(first.seek_to, Span::zero());
    assert_eq!(first.state, PlaybackState::Playing);
    playlist.insert(1, first);
    playlist.insert(
        1,
        MediaPlayback::started(MediaCue { channel: 1, uri: "b.mp4".to_string(), loop_media: None }),
    );
    playlist.insert(
        2,
        MediaPlayback::started(MediaCue { channel: 2, uri: "c.mp4".to_string(), loop_media: None }),
    );
    assert_eq!(playlist.len(), 2);
    assert_eq!(playlist.get(1).unwrap().media_cue.uri, "b.mp4");
    let mut channels = playlist.channels();
    channels.sort();
    assert_eq!(channels, vec![1, 2]);
    playlist.advance(Span::from_millis(10));
    assert_eq!(playlist.get(1).unwrap().seek_to, Span { secs: 0, nanos: 10_000_000 });
    assert_eq!(playlist.get(2).unwrap().seek_to, Span { secs: 0, nanos: 10_000_000 });
    assert_eq!(playlist.clone(), playlist);
}

#[test]
fn plain_values_hold_what_they_are_given() {
    assert_eq!(Identifier { id: Some(4) }.id, Some(4));
    let fade = DmxFade { channel: 1, value: 255, duration: Some(Span::from_secs(1)) };
    assert_eq!(fade, fade.clone());
    assert!(PlaybackState::Playing.is_playing());
    assert!(!PlaybackState::Paused.is_playing());
    assert_eq!(DEFAULT_ADDRESS, "127.0.0.1:27655");
}

#[test]
fn identifiers_are_written_in_decimal() {
    assert_eq!(Identifier { id: None }.to_string(), "default");
    assert_eq!(Identifier { id: Some(0) }.to_string(), "0");
    assert_eq!(Identifier { id: Some(7) }.to_string(), "7");
    assert_eq!(Identifier { id: Some(10) }.to_string(), "10");
    assert_eq!(Identifier { id: Some(27655) }.to_string(), "27655");
    assert_eq!(Identifier { id: Some(u32::MAX) }.to_string(), "4294967295");
    assert_eq!(apollo::definitions::decimal(1_000_000), "1000000");
}
