use apollo::definitions::{
    ChannelAllocation, ChannelRealignment, ChannelSeek, ChannelState, Direction, InterfaceUpdate,
    MediaChannel, MediaCue, PlaybackState, Request, Span, VideoFrame, VideoFrameWithWindow,
    VideoStream, WebReply, WindowDefinition,
};
use apollo::system_interface::backup_handler::{Fetched, StoreKey};
use apollo::system_interface::{
    resume_position, stream_update, DriverCommand, DriverReply, SystemInterface,
};

fn window(number: u32) -> WindowDefinition {
    WindowDefinition { window_number: number, fullscreen: true, dimensions: None }
}

fn framed_channel(number: u32, window_number: u32) -> MediaChannel {
    MediaChannel {
        channel: number,
        video_frame: Some(VideoFrameWithWindow {
            window_number,
            top: 0,
            left: 0,
            height: 100,
            width: 200,
        }),
        audio_device: None,
        loop_media: None,
    }
}

fn cue(channel: u32, uri: &str) -> MediaCue {
    MediaCue { channel, uri: uri.to_string(), loop_media: None }
}

fn failure(reason: &str) -> WebReply {
    WebReply::failure(reason.to_string())
}

#[test]
fn a_window_is_accepted_once() {
    let mut system = SystemInterface::new("node".to_string(), true);
    let first = system.run_once(
        Request::DefineWindow { window: window(1) },
        DriverReply::Done,
        Span::zero(),
    );
    assert_eq!(first.reply, WebReply::success());
    assert_eq!(first.update, Some(InterfaceUpdate::Window { window: window(1) }));
    assert_eq!(first.write, Some(StoreKey::Windows));
    assert!(first.keep_running);
    assert!(!first.clock_used);

    let other = WindowDefinition { window_number: 1, fullscreen: false, dimensions: Some((3, 4)) };
    let second =
        system.run_once(Request::DefineWindow { window: other }, DriverReply::Done, Span::zero());
    assert_eq!(second.reply, failure("Window was already defined."));
    assert_eq!(second.update, None);
    assert_eq!(second.write, None);
    assert_eq!(system.backup_handler().window_list(), &vec![window(1)]);

    let third = system.run_once(
        Request::DefineWindow { window: window(2) },
        DriverReply::Done,
        Span::zero(),
    );
    assert_eq!(third.reply, WebReply::success());
    assert_eq!(system.backup_handler().window_list(), &vec![window(1), window(2)]);
}

#[test]
fn change_state_on_an_undefined_channel_fails() {
    let mut system = SystemInterface::new("node".to_string(), true);
    system.run_once(
        Request::CueMedia { media_cue: cue(1, "video.mp4") },
        DriverReply::Done,
        Span::zero(),
    );
    let before = system.backup_handler().media_playlist().clone();

    let refused_by_driver = system.run_once(
        Request::ChangeState {
            channel_state: ChannelState { channel: 9, state: PlaybackState::Paused },
        },
        DriverReply::Failed("Unable to change state: Channel not defined.".to_string()),
        Span::from_secs(2),
    );
    assert_eq!(refused_by_driver.reply, failure("Unable to change state: Channel not defined."));
    assert_eq!(refused_by_driver.write, None);
    assert!(!refused_by_driver.clock_used);
    assert_eq!(system.backup_handler().media_playlist(), &before);

    let without_record = system.run_once(
        Request::ChangeState {
            channel_state: ChannelState { channel: 9, state: PlaybackState::Paused },
        },
        DriverReply::Done,
        Span::from_secs(2),
    );
    assert_eq!(without_record.reply, failure("Unable to change state: Channel not defined."));
    assert_eq!(system.backup_handler().media_playlist(), &before);
}

#[test]
fn change_state_and_seek_touch_one_field() {
    let mut system = SystemInterface::new("node".to_string(), true);
    system.run_once(
        Request::CueMedia { media_cue: cue(1, "video.mp4") },
        DriverReply::Done,
        Span::zero(),
    );
    let paused = system.run_once(
        Request::ChangeState {
            channel_state: ChannelState { channel: 1, state: PlaybackState::Paused },
        },
        DriverReply::Done,
        Span::from_millis(1200),
    );
    assert_eq!(paused.reply, WebReply::success());
    assert_eq!(paused.write, Some(StoreKey::Media));
    assert!(paused.clock_used);
    {
        let record = system.backup_handler().media_playlist().get(1).unwrap();
        assert_eq!(record.state, PlaybackState::Paused);
        assert_eq!(record.seek_to, Span { secs: 1, nanos: 200_000_000 });
        assert_eq!(record.media_cue, cue(1, "video.mp4"));
    }
    let sought = system.run_once(
        Request::Seek { channel_seek: ChannelSeek { channel: 1, position: 61_005 } },
        DriverReply::Done,
        Span::from_secs(1),
    );
    assert_eq!(sought.reply, WebReply::success());
    assert_eq!(sought.write, Some(StoreKey::Media));
    let record = system.backup_handler().media_playlist().get(1).unwrap();
    assert_eq!(record.state, PlaybackState::Paused);
    assert_eq!(record.seek_to, Span { secs: 61, nanos: 5_000_000 });
}

#[test]
fn seek_without_a_record_succeeds_and_records_nothing() {
    let mut system = SystemInterface::new("node".to_string(), true);
    let sought = system.run_once(
        Request::Seek { channel_seek: ChannelSeek { channel: 1, position: 10 } },
        DriverReply::Done,
        Span::from_secs(1),
    );
    assert_eq!(sought.reply, WebReply::success());
    assert_eq!(sought.write, None);
    assert!(!sought.clock_used);
    assert_eq!(system.backup_handler().media_playlist().len(), 0);
}

#[test]
fn driver_errors_are_passed_on_verbatim() {
    let mut system = SystemInterface::new("node".to_string(), true);
    let stopped =
        system.run_once(Request::AllStop, DriverReply::Failed("Unable to stop media.".to_string()), Span::zero());
    assert_eq!(stopped.reply, failure("Unable to stop media."));
    let defined = system.run_once(
        Request::DefineChannel { media_channel: framed_channel(1, 1) },
        DriverReply::Failed("Channel is already defined.".to_string()),
        Span::zero(),
    );
    assert_eq!(defined.reply, failure("Channel is already defined."));
    assert_eq!(defined.update, None);
    assert!(system.backup_handler().channel_list().is_empty());
    let cued = system.run_once(
        Request::CueMedia { media_cue: cue(1, "a.mp4") },
        DriverReply::Failed("Unable to cue media: Channel not defined.".to_string()),
        Span::zero(),
    );
    assert_eq!(cued.reply, failure("Unable to cue media: Channel not defined."));
    assert_eq!(system.backup_handler().media_playlist().len(), 0);
}

#[test]
fn all_stop_changes_nothing() {
    let mut system = SystemInterface::new("node".to_string(), true);
    system.run_once(Request::CueMedia { media_cue: cue(1, "a.mp4") }, DriverReply::Done, Span::zero());
    let before = system.backup_handler().media_playlist().clone();
    let stopped = system.run_once(Request::AllStop, DriverReply::Done, Span::from_secs(5));
    assert_eq!(stopped.reply, WebReply::success());
    assert_eq!(stopped.write, None);
    assert_eq!(stopped.update, None);
    assert!(!stopped.clock_used);
    assert_eq!(system.backup_handler().media_playlist(), &before);
}

#[test]
fn define_channel_forwards_the_stream() {
    let mut system = SystemInterface::new("node".to_string(), true);
    let stream = VideoStream { channel: 1, window_number: 1, x: 0, y: 0, width: 200, height: 100 };
    let defined = system.run_once(
        Request::DefineChannel { media_channel: framed_channel(1, 1) },
        DriverReply::Stream(stream),
        Span::zero(),
    );
    assert_eq!(defined.reply, WebReply::success());
    assert_eq!(defined.update, Some(InterfaceUpdate::Video { video_stream: stream }));
    assert_eq!(defined.write, Some(StoreKey::Channels));
    assert_eq!(system.backup_handler().channel_list(), &vec![framed_channel(1, 1)]);
}

#[test]
fn align_and_resize_need_a_frame() {
    let mut system = SystemInterface::new("node".to_string(), true);
    let bare = MediaChannel { channel: 2, video_frame: None, audio_device: None, loop_media: None };
    system.run_once(
        Request::DefineChannel { media_channel: framed_channel(1, 1) },
        DriverReply::Done,
        Span::zero(),
    );
    system.run_once(Request::DefineChannel { media_channel: bare }, DriverReply::Done, Span::zero());

    let realignment = ChannelRealignment { channel: 1, direction: Direction::Down };
    let aligned = system.run_once(
        Request::AlignChannel { channel_realignment: realignment },
        DriverReply::Done,
        Span::zero(),
    );
    assert_eq!(aligned.reply, WebReply::success());
    assert_eq!(aligned.update, Some(InterfaceUpdate::Align { channel_realignment: realignment }));
    assert_eq!(aligned.write, Some(StoreKey::Channels));
    assert_eq!(system.backup_handler().channel_list()[0].video_frame.unwrap().top, 1);

    let allocation = ChannelAllocation {
        channel: 1,
        video_frame: VideoFrame { top: 5, left: 6, height: 7, width: 8 },
    };
    let resized = system.run_once(
        Request::ResizeChannel { channel_allocation: allocation },
        DriverReply::Done,
        Span::zero(),
    );
    assert_eq!(resized.reply, WebReply::success());
    assert_eq!(
        system.backup_handler().channel_list()[0].video_frame,
        Some(VideoFrameWithWindow { window_number: 1, top: 5, left: 6, height: 7, width: 8 })
    );

    let before = system.backup_handler().channel_list().clone();
    let refused = system.run_once(
        Request::AlignChannel {
            channel_realignment: ChannelRealignment { channel: 2, direction: Direction::Up },
        },
        DriverReply::Done,
        Span::zero(),
    );
    assert_eq!(refused.reply, failure("Unable to realign: Channel doesn't have existing frame."));
    assert_eq!(refused.write, None);
    let refused = system.run_once(
        Request::ResizeChannel {
            channel_allocation: ChannelAllocation { channel: 2, video_frame: allocation.video_frame },
        },
        DriverReply::Done,
        Span::zero(),
    );
    assert_eq!(refused.reply, failure("Unable to resize: Channel doesn't have existing frame."));
    assert_eq!(system.backup_handler().channel_list(), &before);
}

#[test]
fn close_ends_the_loop_and_deletes_every_key() {
    let mut system = SystemInterface::new("127.0.0.1:27655".to_string(), true);
    let closed = system.run_once(Request::Close, DriverReply::Done, Span::zero());
    assert_eq!(closed.reply, WebReply::success());
    assert_eq!(closed.update, Some(InterfaceUpdate::Close));
    assert!(!closed.keep_running);
    assert_eq!(closed.write, None);
    assert_eq!(
        closed.delete,
        vec![
            "127.0.0.1:27655:media".to_string(),
            "127.0.0.1:27655:channels".to_string(),
            "127.0.0.1:27655:windows".to_string()
        ]
    );
    assert!(!system.backup_handler().is_connected());
}

#[test]
fn driver_commands_follow_the_request() {
    assert_eq!(SystemInterface::driver_command(&Request::AllStop), Some(DriverCommand::AllStop));
    assert_eq!(
        SystemInterface::driver_command(&Request::CueMedia { media_cue: cue(3, "a.mp4") }),
        Some(DriverCommand::CueMedia { media_cue: cue(3, "a.mp4") })
    );
    assert_eq!(SystemInterface::driver_command(&Request::DefineWindow { window: window(1) }), None);
    assert_eq!(SystemInterface::driver_command(&Request::Close), None);
    assert_eq!(
        SystemInterface::driver_command(&Request::AlignChannel {
            channel_realignment: ChannelRealignment { channel: 1, direction: Direction::Left }
        }),
        None
    );
}

#[test]
fn end_to_end_last_cue_wins() {
    let mut system = SystemInterface::new("127.0.0.1:27655".to_string(), true);
    system.run_once(Request::DefineWindow { window: window(1) }, DriverReply::Done, Span::zero());
    system.run_once(
        Request::DefineChannel { media_channel: framed_channel(1, 1) },
        DriverReply::Done,
        Span::zero(),
    );
    system.run_once(
        Request::CueMedia { media_cue: cue(1, "video.mp4") },
        DriverReply::Done,
        Span::zero(),
    );
    system.run_once(
        Request::CueMedia { media_cue: cue(1, "new_video.mp4") },
        DriverReply::Done,
        Span::from_millis(40),
    );

    let stored = system.backup_handler();
    let mut restarted = SystemInterface::new("127.0.0.1:27655".to_string(), true);
    let recovery = restarted
        .recover(
            Fetched::Value(stored.media_playlist().clone()),
            Fetched::Value(stored.window_list().clone()),
            Fetched::Value(stored.channel_list().clone()),
        )
        .unwrap();

    assert_eq!(restarted.backup_handler().window_list(), &vec![window(1)]);
    assert_eq!(restarted.backup_handler().channel_list(), &vec![framed_channel(1, 1)]);
    let media = restarted.backup_handler().media_playlist();
    assert_eq!(media.len(), 1);
    let record = media.get(1).unwrap();
    assert_eq!(record.media_cue, cue(1, "new_video.mp4"));
    assert_eq!(record.seek_to, Span::zero());
    assert_eq!(record.state, PlaybackState::Playing);

    assert_eq!(recovery.windows, vec![InterfaceUpdate::Window { window: window(1) }]);
    assert_eq!(
        recovery.channels,
        vec![DriverCommand::DefineChannel { media_channel: framed_channel(1, 1) }]
    );
    assert_eq!(recovery.playlist.channels, vec![1]);
    assert_eq!(recovery.playlist.cues, vec![cue(1, "new_video.mp4")]);
    assert_eq!(recovery.playlist.settle_millis, 500);
    assert_eq!(recovery.playlist.seeks, vec![ChannelSeek { channel: 1, position: 500 }]);
    assert!(recovery.playlist.states.is_empty());

    let again = restarted.run_once(
        Request::DefineWindow { window: window(1) },
        DriverReply::Done,
        Span::zero(),
    );
    assert_eq!(again.reply, failure("Window was already defined."));
}

#[test]
fn replay_follows_the_stored_order() {
    let mut system = SystemInterface::new("node".to_string(), true);
    let windows = vec![window(3), window(1), window(2), window(1)];
    let channels = vec![framed_channel(3, 3), framed_channel(1, 1), framed_channel(2, 2)];
    let updates = system.restore_windows(&windows);
    assert_eq!(
        updates,
        vec![
            InterfaceUpdate::Window { window: window(3) },
            InterfaceUpdate::Window { window: window(1) },
            InterfaceUpdate::Window { window: window(2) },
        ]
    );
    let commands = SystemInterface::restore_channels(&channels);
    assert_eq!(
        commands,
        vec![
            DriverCommand::DefineChannel { media_channel: framed_channel(3, 3) },
            DriverCommand::DefineChannel { media_channel: framed_channel(1, 1) },
            DriverCommand::DefineChannel { media_channel: framed_channel(2, 2) },
        ]
    );

    let mut ordered = SystemInterface::new("node".to_string(), true);
    let in_order = vec![window(1), window(2), window(3)];
    let replayed = ordered.restore_windows(&in_order);
    assert_eq!(
        replayed,
        vec![
            InterfaceUpdate::Window { window: window(1) },
            InterfaceUpdate::Window { window: window(2) },
            InterfaceUpdate::Window { window: window(3) },
        ]
    );
}

#[test]
fn restore_plan_seeks_past_the_settle_time_and_holds_paused_media() {
    let mut system = SystemInterface::new("node".to_string(), true);
    system.run_once(Request::CueMedia { media_cue: cue(1, "a.mp4") }, DriverReply::Done, Span::zero());
    system.run_once(
        Request::CueMedia { media_cue: cue(2, "b.mp4") },
        DriverReply::Done,
        Span::from_millis(2250),
    );
    system.run_once(
        Request::ChangeState {
            channel_state: ChannelState { channel: 2, state: PlaybackState::Paused },
        },
        DriverReply::Done,
        Span { secs: 1, nanos: 999_999 },
    );
    let plan = SystemInterface::restore_playlist(system.backup_handler().media_playlist());
    let mut channels = plan.channels.clone();
    channels.sort();
    assert_eq!(channels, vec![1, 2]);
    assert_eq!(plan.cues.len(), 2);
    assert_eq!(plan.seeks.len(), 2);
    for (place, channel) in plan.channels.iter().enumerate() {
        assert_eq!(plan.cues[place].channel, *channel);
        assert_eq!(plan.seeks[place].channel, *channel);
        if *channel == 1 {
            assert_eq!(plan.cues[place].uri, "a.mp4");
            assert_eq!(plan.seeks[place].position, 3250 + 500);
        } else {
            assert_eq!(plan.cues[place].uri, "b.mp4");
            assert_eq!(plan.seeks[place].position, 1000 + 500);
        }
    }
    assert_eq!(plan.states, vec![ChannelState { channel: 2, state: PlaybackState::Paused }]);
    assert_eq!(plan.settle_millis, 500);
}

#[test]
fn resume_position_adds_the_settle_time() {
    assert_eq!(resume_position(Span::zero()), 500);
    assert_eq!(resume_position(Span { secs: 2, nanos: 999_999_999 }), 3499);
    assert_eq!(resume_position(Span::max()), u64::MAX);
}

#[test]
fn recover_without_a_playlist_changes_nothing() {
    let mut system = SystemInterface::new("node".to_string(), true);
    assert!(system
        .recover(Fetched::Absent, Fetched::Value(vec![window(1)]), Fetched::Absent)
        .is_none());
    let reply = system.run_once(
        Request::DefineWindow { window: window(1) },
        DriverReply::Done,
        Span::zero(),
    );
    assert_eq!(reply.reply, WebReply::success());
}

#[test]
fn stream_update_is_sent_for_a_stream_only() {
    let stream = VideoStream { channel: 1, window_number: 2, x: 3, y: 4, width: 5, height: 6 };
    assert_eq!(
        stream_update(&DriverReply::Stream(stream)),
        Some(InterfaceUpdate::Video { video_stream: stream })
    );
    assert_eq!(stream_update(&DriverReply::Done), None);
    assert_eq!(stream_update(&DriverReply::Failed("x".to_string())), None);
}
