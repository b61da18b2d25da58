use apollo::definitions::{
    ChannelAllocation, ChannelRealignment, Direction, InterfaceUpdate, VideoFrame, VideoStream,
    WindowDefinition,
};
use apollo::gtk_interface::video_window::{Rectangle, VideoWindow, WindowAction};
use apollo::gtk_interface::GtkInterface;

fn stream(channel: u32, window_number: u32) -> VideoStream {
    VideoStream { channel, window_number, x: 10, y: 20, width: 300, height: 200 }
}

#[test]
fn a_video_opens_its_window_if_need_be() {
    let mut display = VideoWindow::new();
    assert_eq!(
        display.define_window(WindowDefinition {
            window_number: 1,
            fullscreen: false,
            dimensions: Some((640, 480))
        }),
        WindowAction::Open { window_number: 1, fullscreen: false, dimensions: Some((640, 480)) }
    );
    assert_eq!(
        display.add_new_video(stream(7, 1)),
        vec![WindowAction::AddVideo { window_number: 1, channel: 7 }]
    );
    assert_eq!(
        display.add_new_video(stream(8, 2)),
        vec![
            WindowAction::Open { window_number: 2, fullscreen: true, dimensions: None },
            WindowAction::AddVideo { window_number: 2, channel: 8 }
        ]
    );
    assert_eq!(
        display.child_position(7),
        Some(Rectangle { x: 10, y: 20, width: 300, height: 200 })
    );
    assert_eq!(display.child_position(9), None);
}

#[test]
fn allocation_and_alignment_change_the_rectangle() {
    let mut display = VideoWindow::new();
    display.add_new_video(stream(7, 1));
    let resized = display.change_allocation(ChannelAllocation {
        channel: 7,
        video_frame: VideoFrame { top: 1, left: 2, height: 3, width: 4 },
    });
    assert_eq!(resized, Some(WindowAction::Resize { window_number: 1 }));
    assert_eq!(display.child_position(7), Some(Rectangle { x: 2, y: 1, width: 4, height: 3 }));

    let moves = [
        (Direction::Up, Rectangle { x: 2, y: 0, width: 4, height: 3 }),
        (Direction::Left, Rectangle { x: 1, y: 0, width: 4, height: 3 }),
        (Direction::Down, Rectangle { x: 1, y: 1, width: 4, height: 3 }),
        (Direction::Right, Rectangle { x: 2, y: 1, width: 4, height: 3 }),
    ];
    for (direction, expected) in moves {
        let moved = display.change_alignment(ChannelRealignment { channel: 7, direction });
        assert_eq!(moved, Some(WindowAction::Resize { window_number: 1 }));
        assert_eq!(display.child_position(7), Some(expected));
    }

    assert_eq!(
        display.change_alignment(ChannelRealignment { channel: 9, direction: Direction::Up }),
        None
    );
    assert_eq!(
        display.change_allocation(ChannelAllocation {
            channel: 9,
            video_frame: VideoFrame { top: 1, left: 2, height: 3, width: 4 },
        }),
        None
    );
    assert_eq!(display.child_position(9), None);
}

#[test]
fn a_rectangle_stops_at_the_edge() {
    let edge = Rectangle { x: i32::MIN, y: i32::MAX, width: 1, height: 1 };
    assert_eq!(edge.moved(Direction::Left), edge);
    assert_eq!(edge.moved(Direction::Down), edge);
    assert_eq!(edge.moved(Direction::Right).x, i32::MIN + 1);
    assert_eq!(edge.moved(Direction::Up).y, i32::MAX - 1);
}

#[test]
fn clear_all_forgets_everything() {
    let mut display = VideoWindow::new();
    display.add_new_video(stream(7, 1));
    assert_eq!(display.clear_all(), WindowAction::CloseAll);
    assert_eq!(display.child_position(7), None);
    assert_eq!(display.add_new_video(stream(7, 1)).len(), 2);
}

#[test]
fn updates_are_handled_in_order_until_close() {
    let mut display = GtkInterface::spawn_interface();
    let step = display.check_updates(vec![
        InterfaceUpdate::Window {
            window: WindowDefinition { window_number: 1, fullscreen: true, dimensions: None },
        },
        InterfaceUpdate::Video { video_stream: stream(7, 1) },
        InterfaceUpdate::Align {
            channel_realignment: ChannelRealignment { channel: 7, direction: Direction::Right },
        },
        InterfaceUpdate::Resize {
            channel_allocation: ChannelAllocation {
                channel: 3,
                video_frame: VideoFrame { top: 0, left: 0, height: 1, width: 1 },
            },
        },
    ]);
    assert!(!step.closed);
    assert_eq!(
        step.actions,
        vec![
            WindowAction::Open { window_number: 1, fullscreen: true, dimensions: None },
            WindowAction::AddVideo { window_number: 1, channel: 7 },
            WindowAction::Resize { window_number: 1 },
        ]
    );
    assert_eq!(
        display.video_window().child_position(7),
        Some(Rectangle { x: 11, y: 20, width: 300, height: 200 })
    );

    let last = display.check_updates(vec![
        InterfaceUpdate::Close,
        InterfaceUpdate::Video { video_stream: stream(8, 1) },
    ]);
    assert!(last.closed);
    assert_eq!(last.actions, vec![WindowAction::CloseAll]);
    assert_eq!(display.video_window().child_position(7), None);
    assert_eq!(display.video_window().child_position(8), None);

    let empty = display.check_updates(Vec::new());
    assert!(!empty.closed);
    assert!(empty.actions.is_empty());
}
