use apollo::definitions::{
    AudioDevice, ChannelSeek, ChannelState, MediaChannel, MediaCue, PlaybackState,
    VideoFrameWithWindow, VideoStream,
};
use apollo::system_interface::media_playback::{seek_target, MediaPlayback, PlayerAction};
use apollo::system_interface::{DriverCommand, DriverReply};

fn channel(number: u32) -> MediaChannel {
    MediaChannel { channel: number, video_frame: None, audio_device: None, loop_media: None }
}

#[test]
fn define_channel_plans_the_player() {
    let driver = MediaPlayback::new();
    let full = MediaChannel {
        channel: 4,
        video_frame: Some(VideoFrameWithWindow {
            window_number: 2,
            top: 10,
            left: 20,
            height: 30,
            width: 40,
        }),
        audio_device: Some(AudioDevice::Pulse { device_name: "sink0".to_string() }),
        loop_media: Some("loop.mp4".to_string()),
    };
    let setup = driver.define_channel(&full).unwrap();
    assert_eq!(
        setup.actions,
        vec![
            PlayerAction::Create,
            PlayerAction::PulseSink { device_name: "sink0".to_string() },
            PlayerAction::Overlay,
            PlayerAction::Bus,
            PlayerAction::Watch,
            PlayerAction::SetUri { uri: "loop.mp4".to_string() },
            PlayerAction::Start,
        ]
    );
    assert_eq!(
        setup.video_stream,
        Some(VideoStream { channel: 4, window_number: 2, x: 20, y: 10, width: 40, height: 30 })
    );

    let plain = driver.define_channel(&channel(5)).unwrap();
    assert_eq!(plain.actions, vec![PlayerAction::Create, PlayerAction::Bus, PlayerAction::Watch]);
    assert_eq!(plain.video_stream, None);

    let jack = MediaChannel { audio_device: Some(AudioDevice::Jack), ..channel(6) };
    assert_eq!(
        driver.define_channel(&jack).unwrap().actions,
        vec![PlayerAction::Create, PlayerAction::Bus, PlayerAction::Watch]
    );
    let alsa = MediaChannel {
        audio_device: Some(AudioDevice::Alsa { device_name: "hw:0".to_string() }),
        ..channel(7)
    };
    assert_eq!(
        driver.define_channel(&alsa).unwrap().actions[1],
        PlayerAction::AlsaSink { device_name: "hw:0".to_string() }
    );
}

#[test]
fn a_channel_is_defined_once() {
    let mut driver = MediaPlayback::new();
    assert!(!driver.is_defined(1));
    driver.channel_defined(&channel(1));
    assert!(driver.is_defined(1));
    assert_eq!(driver.define_channel(&channel(1)), Err("Channel is already defined.".to_string()));
    assert!(driver.define_channel(&channel(2)).is_ok());
}

#[test]
fn operations_on_an_undefined_channel_are_refused() {
    let driver = MediaPlayback::new();
    let cue = MediaCue { channel: 1, uri: "a.mp4".to_string(), loop_media: None };
    assert_eq!(
        driver.cue_media(&cue),
        Err("Unable to cue media: Channel not defined.".to_string())
    );
    assert_eq!(
        driver.change_state(&ChannelState { channel: 1, state: PlaybackState::Paused }),
        Err("Unable to change state: Channel not defined.".to_string())
    );
    assert_eq!(
        driver.seek(&ChannelSeek { channel: 1, position: 5 }, Some(100)),
        Err("Unable to seek media: Channel not defined.".to_string())
    );
    assert!(driver.end_of_stream(1).is_empty());
    assert!(driver.all_stop().is_empty());
}

#[test]
fn cue_state_and_seek_on_a_defined_channel() {
    let mut driver = MediaPlayback::new();
    driver.channel_defined(&channel(1));
    let cue = MediaCue { channel: 1, uri: "a.mp4".to_string(), loop_media: None };
    assert_eq!(
        driver.cue_media(&cue),
        Ok(vec![
            PlayerAction::Stop,
            PlayerAction::SetUri { uri: "a.mp4".to_string() },
            PlayerAction::Start
        ])
    );
    assert_eq!(
        driver.change_state(&ChannelState { channel: 1, state: PlaybackState::Paused }),
        Ok(PlayerAction::Pause)
    );
    assert_eq!(
        driver.change_state(&ChannelState { channel: 1, state: PlaybackState::Playing }),
        Ok(PlayerAction::Play)
    );
    assert_eq!(
        driver.seek(&ChannelSeek { channel: 1, position: 5 }, None),
        Err("Unable to seek media: No media playing.".to_string())
    );
    assert_eq!(
        driver.seek(&ChannelSeek { channel: 1, position: 5_000 }, Some(60_000)),
        Ok(PlayerAction::SeekTo { position: 5_000 })
    );
    assert_eq!(
        driver.seek(&ChannelSeek { channel: 1, position: 60_000 }, Some(60_000)),
        Ok(PlayerAction::SeekTo { position: 60_000 })
    );
    assert_eq!(
        driver.seek(&ChannelSeek { channel: 1, position: 60_001 }, Some(60_000)),
        Ok(PlayerAction::SeekTo { position: 59_700 })
    );
    assert_eq!(driver.all_stop(), vec![1]);
}

#[test]
fn seek_target_keeps_a_margin_from_the_end() {
    assert_eq!(seek_target(1000, 999), 999);
    assert_eq!(seek_target(1000, 1000), 1000);
    assert_eq!(seek_target(1000, 1001), 700);
    assert_eq!(seek_target(1000, u64::MAX), 700);
    assert_eq!(seek_target(300, 400), 0);
    assert_eq!(seek_target(301, 400), 1);
    assert_eq!(seek_target(299, 400), 0);
    assert_eq!(seek_target(0, 0), 0);
    assert_eq!(seek_target(0, 1), 0);
}

#[test]
fn the_loop_follows_the_last_cue() {
    let mut driver = MediaPlayback::new();
    driver.channel_defined(&MediaChannel { loop_media: Some("idle.mp4".to_string()), ..channel(1) });
    driver.channel_defined(&channel(2));
    let looped = |uri: &str| {
        vec![PlayerAction::Stop, PlayerAction::SetUri { uri: uri.to_string() }, PlayerAction::Start]
    };
    assert_eq!(driver.end_of_stream(1), looped("idle.mp4"));
    assert!(driver.end_of_stream(2).is_empty());

    driver.media_cued(&MediaCue {
        channel: 1,
        uri: "a.mp4".to_string(),
        loop_media: Some("after_a.mp4".to_string()),
    });
    assert_eq!(driver.end_of_stream(1), looped("after_a.mp4"));
    driver.media_cued(&MediaCue { channel: 1, uri: "b.mp4".to_string(), loop_media: None });
    assert_eq!(driver.end_of_stream(1), looped("idle.mp4"));
    driver.media_cued(&MediaCue { channel: 2, uri: "b.mp4".to_string(), loop_media: None });
    assert!(driver.end_of_stream(2).is_empty());
    driver.media_cued(&MediaCue { channel: 3, uri: "b.mp4".to_string(), loop_media: None });
    assert!(!driver.is_defined(3));

    driver.channel_defined(&MediaChannel { loop_media: Some("other.mp4".to_string()), ..channel(1) });
    assert_eq!(driver.end_of_stream(1), looped("idle.mp4"));
}

#[test]
fn failure_messages_name_the_operation() {
    assert_eq!(PlayerAction::Create.failure_message(), Some("Unable to create playbin.".to_string()));
    assert_eq!(
        PlayerAction::AlsaSink { device_name: "x".to_string() }.failure_message(),
        Some("Unable to create alsasink.".to_string())
    );
    assert_eq!(
        PlayerAction::PulseSink { device_name: "x".to_string() }.failure_message(),
        Some("Unable to create pulsesink.".to_string())
    );
    assert_eq!(
        PlayerAction::Overlay.failure_message(),
        Some("Unable to create video stream.".to_string())
    );
    assert_eq!(
        PlayerAction::Bus.failure_message(),
        Some("Unable to set loop media: Invalid bus.".to_string())
    );
    assert_eq!(
        PlayerAction::Watch.failure_message(),
        Some("Unable to set loop media: Duplicate watch.".to_string())
    );
    assert_eq!(PlayerAction::SetUri { uri: "x".to_string() }.failure_message(), None);
    assert_eq!(PlayerAction::Stop.failure_message(), Some("Unable to stop media.".to_string()));
    assert_eq!(
        PlayerAction::Start.failure_message(),
        Some("Unable to start playing media.".to_string())
    );
    assert_eq!(PlayerAction::Play.failure_message(), Some("Unable to play media.".to_string()));
    assert_eq!(PlayerAction::Pause.failure_message(), Some("Unable to pause media.".to_string()));
    assert_eq!(
        PlayerAction::SeekTo { position: 1 }.failure_message(),
        Some("Unable to seek media.".to_string())
    );
}

#[test]
fn driver_replies_are_built_from_outcomes() {
    assert_eq!(
        DriverReply::failed_at(&PlayerAction::Stop),
        DriverReply::Failed("Unable to stop media.".to_string())
    );
    assert_eq!(
        DriverReply::failed_at(&PlayerAction::SetUri { uri: "a".to_string() }),
        DriverReply::Done
    );
    assert_eq!(DriverReply::refused("no".to_string()), DriverReply::Failed("no".to_string()));
    let stream = VideoStream { channel: 1, window_number: 2, x: 3, y: 4, width: 5, height: 6 };
    assert_eq!(DriverReply::defined(Some(stream)), DriverReply::Stream(stream));
    assert_eq!(DriverReply::defined(None), DriverReply::Done);
}

#[test]
fn the_driver_takes_note_of_answered_calls() {
    let mut driver = MediaPlayback::new();
    let define = DriverCommand::DefineChannel {
        media_channel: MediaChannel { loop_media: Some("idle.mp4".to_string()), ..channel(1) },
    };
    driver.command_answered(&define, &DriverReply::Failed("Unable to create playbin.".to_string()));
    assert!(!driver.is_defined(1));
    driver.command_answered(&define, &DriverReply::Done);
    assert!(driver.is_defined(1));

    let cue = DriverCommand::CueMedia {
        media_cue: MediaCue {
            channel: 1,
            uri: "a.mp4".to_string(),
            loop_media: Some("after_a.mp4".to_string()),
        },
    };
    driver.command_answered(&cue, &DriverReply::Failed("Unable to stop media.".to_string()));
    assert_eq!(driver.end_of_stream(1)[1], PlayerAction::SetUri { uri: "idle.mp4".to_string() });
    driver.command_answered(&cue, &DriverReply::Done);
    assert_eq!(
        driver.end_of_stream(1)[1],
        PlayerAction::SetUri { uri: "after_a.mp4".to_string() }
    );
    driver.command_answered(&DriverCommand::AllStop, &DriverReply::Done);
    assert_eq!(driver.all_stop(), vec![1]);
    assert_eq!(
        driver.end_of_stream(1)[1],
        PlayerAction::SetUri { uri: "after_a.mp4".to_string() }
    );
}
