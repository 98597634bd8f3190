use laser_pointer::cursor::{CursorError, CursorImage};
use laser_pointer::ingest::{classify, classify_image, ThreadPacket};
use laser_pointer::server::{create_server_window, Applied, Server};
use laser_pointer::session::{
    screen_position, Rejection, RenderIntent, UserData, UserWindow, OFFSCREEN,
};
use laser_pointer::shared::{
    Animation, Frame, MousePosition, UserAnimationStates, UserPacket, UserState,
};

const SECOND: u64 = 1_000_000;

fn shade(x: u32, y: u32, tint: u8) -> [u8; 4] {
    [(x % 251) as u8, (y % 241) as u8, tint, 255]
}

fn picture(width: u32, height: u32, tint: u8) -> Vec<u8> {
    let picture = image::RgbaImage::from_fn(width, height, |x, y| image::Rgba(shade(x, y, tint)));
    let mut bytes: Vec<u8> = Vec::new();
    image::DynamicImage::ImageRgba8(picture)
        .write_to(&mut std::io::Cursor::new(&mut bytes), image::ImageOutputFormat::Png)
        .unwrap();
    bytes
}

fn frame_of(frame: u32, tint: u8) -> Vec<[u8; 4]> {
    let mut pixels = Vec::new();
    for index in 0..(64 * 64) as u32 {
        pixels.push(shade(frame * 64 + index % 64, index / 64, tint));
    }
    pixels
}

fn stock() -> CursorImage {
    CursorImage::decode(&picture(128, 64, 1)).unwrap()
}

fn watcher() -> Server {
    Server::new(stock())
}

fn pose(owner: u64, state: UserState) -> ThreadPacket {
    ThreadPacket { owner, data: UserData::State(state) }
}

fn shown(x: u32, y: u32) -> UserState {
    UserState::Visible(MousePosition { x, y })
}

fn flashing(x: u32, y: u32) -> UserState {
    UserState::Flashing(MousePosition { x, y })
}

fn track(frames: &[(u32, u64)]) -> Animation {
    Animation::from_frames(
        frames.iter().map(|(index, duration)| Frame { index: *index, duration: *duration }).collect(),
    )
    .unwrap()
}

fn tracks(idle: &[(u32, u64)], visible: &[(u32, u64)], flashing: &[(u32, u64)]) -> UserAnimationStates {
    UserAnimationStates { idle: track(idle), visible: track(visible), flashing: track(flashing) }
}

fn quiet() -> Applied {
    Applied { opened: None, intent: None, rejected: None }
}

#[test]
fn idle_overlay_is_parked_off_screen() {
    assert_eq!(OFFSCREEN, -1000);
    assert_eq!(screen_position(&UserState::Idle, 1920, 1080), (-1000, -1000));
    assert_eq!(screen_position(&UserState::Idle, 0, 0), (-1000, -1000));
}

#[test]
fn position_is_the_fraction_of_the_monitor() {
    assert_eq!(screen_position(&shown(500_000, 250_000), 1920, 1080), (960, 270));
    assert_eq!(screen_position(&flashing(500_000, 250_000), 1920, 1080), (960, 270));
    assert_eq!(screen_position(&shown(0, 0), 1920, 1080), (0, 0));
    assert_eq!(screen_position(&shown(1_000_000, 1_000_000), 1920, 1080), (1920, 1080));
    assert_eq!(screen_position(&shown(333_333, 999_999), 1920, 1080), (639, 1079));
    assert_eq!(screen_position(&shown(2_000_000, 1), 1920, 1080), (3840, 0));
}

#[test]
fn position_of_the_largest_values_fits() {
    assert_eq!(
        screen_position(&shown(u32::MAX, u32::MAX), u32::MAX, 1),
        (18_446_744_065_119, 4294)
    );
}

#[test]
fn structured_pose_is_forwarded_as_it_is() {
    let state = shown(10, 20);
    let packet = classify(3, Some(UserPacket::State(state)), b"whatever the bytes").unwrap();
    assert_eq!(packet.owner, 3);
    match packet.data {
        UserData::State(got) => assert_eq!(got, state),
        _ => panic!("a pose was expected"),
    }
}

#[test]
fn structured_tracks_are_forwarded_as_they_are() {
    let set = tracks(&[(0, 5)], &[(1, 5), (2, 5)], &[(3, 5)]);
    let packet = classify(4, Some(UserPacket::AnimationSet(set.clone())), &[]).unwrap();
    assert_eq!(packet.owner, 4);
    match packet.data {
        UserData::AnimationStates(got) => assert_eq!(got, set),
        _ => panic!("tracks were expected"),
    }
}

#[test]
fn structured_message_wins_over_picture_bytes() {
    let bytes = picture(64, 64, 0);
    let packet = classify(2, Some(UserPacket::State(UserState::Idle)), &bytes).unwrap();
    assert!(matches!(packet.data, UserData::State(UserState::Idle)));
}

#[test]
fn picture_of_the_right_size_is_forwarded() {
    let bytes = picture(192, 64, 7);
    let packet = classify(5, None, &bytes).unwrap();
    assert_eq!(packet.owner, 5);
    match packet.data {
        UserData::Image(image) => {
            assert_eq!(image.width(), 192);
            assert_eq!(image.height(), 64);
            assert_eq!(image.set_frame(2), Some(frame_of(2, 7)));
        },
        _ => panic!("a picture was expected"),
    }
}

#[test]
fn picture_of_the_wrong_width_is_dropped() {
    assert_eq!(classify(5, None, &picture(65, 64, 7)).err(), Some(CursorError::Width));
}

#[test]
fn picture_of_the_wrong_height_is_dropped() {
    assert_eq!(classify(5, None, &picture(64, 65, 7)).err(), Some(CursorError::Height));
}

#[test]
fn picture_wrong_both_ways_is_dropped_for_its_width() {
    assert_eq!(classify(5, None, &picture(70, 70, 7)).err(), Some(CursorError::Width));
}

#[test]
fn garbage_is_dropped() {
    assert_eq!(classify(5, None, b"neither this nor that").err(), Some(CursorError::Unreadable));
    assert_eq!(classify(5, None, &[]).err(), Some(CursorError::Unreadable));
}

#[test]
fn classify_image_judges_a_decoded_picture() {
    assert_eq!(classify_image(9, None).err(), Some(CursorError::Unreadable));
    let wide = CursorImage::decode(&picture(100, 64, 0));
    assert_eq!(classify_image(9, wide).err(), Some(CursorError::Width));
    let tall = CursorImage::decode(&picture(128, 100, 0));
    assert_eq!(classify_image(9, tall).err(), Some(CursorError::Height));
    let good = CursorImage::decode(&picture(128, 64, 0));
    let packet = classify_image(9, good).unwrap();
    assert_eq!(packet.owner, 9);
    assert!(matches!(packet.data, UserData::Image(_)));
}

#[test]
fn garbage_among_poses_forwards_exactly_the_poses() {
    let poses: u64 = 5;
    let failures: u64 = 8;
    for shift in 0..(poses + failures) {
        let mut forwarded: Vec<ThreadPacket> = Vec::new();
        let mut sent: u64 = 0;
        for slot in 0..(poses + failures) {
            let is_pose = (slot + shift) % (poses + failures) < poses;
            let outcome = if is_pose {
                sent += 1;
                classify(slot, Some(UserPacket::State(shown(sent as u32, 0))), b"{}")
            } else {
                classify(slot, None, b"\x00\x01garbage")
            };
            if let Ok(packet) = outcome {
                forwarded.push(packet);
            }
        }
        assert_eq!(forwarded.len() as u64, poses);
        for (place, packet) in forwarded.iter().enumerate() {
            match packet.data {
                UserData::State(state) => assert_eq!(state, shown(place as u32 + 1, 0)),
                _ => panic!("only poses were sent"),
            }
        }
    }
}

#[test]
fn new_watcher_has_no_sessions() {
    let server = watcher();
    assert_eq!(server.len(), 0);
    assert!(server.owners().is_empty());
    assert!(!server.contains(1));
    assert!(server.window(1).is_none());
}

#[test]
fn new_window_is_idle_on_frame_zero() {
    let pointer = stock();
    let window = create_server_window(&pointer);
    assert_eq!(window.frame, Some(0));
    assert_eq!(window.state, UserState::Idle);
    assert_eq!(window.animation_set, UserAnimationStates::new());
    assert_eq!(window.image.width(), 128);
    assert_eq!(window.image.set_frame(1), pointer.set_frame(1));
    assert_eq!(
        window.opening(11),
        RenderIntent { owner: 11, position: Some((-1000, -1000)), pixels: Some(frame_of(0, 1)) }
    );
}

#[test]
fn every_new_holder_starts_with_the_stock_pointer() {
    let mut server = watcher();
    for owner in [3u64, 4, 5] {
        let applied = server.apply(pose(owner, flashing(0, 0)), 0, 100, 100);
        assert_eq!(
            applied.opened,
            Some(RenderIntent { owner, position: Some((-1000, -1000)), pixels: Some(frame_of(0, 1)) })
        );
        assert_eq!(
            applied.intent,
            Some(RenderIntent { owner, position: Some((0, 0)), pixels: Some(frame_of(1, 1)) })
        );
    }
    let image = CursorImage::decode(&picture(64, 64, 9)).unwrap();
    server.apply(ThreadPacket { owner: 4, data: UserData::Image(image) }, 0, 100, 100);
    let late = server.apply(pose(6, UserState::Idle), 0, 100, 100);
    assert_eq!(late.opened.unwrap().pixels, Some(frame_of(0, 1)));
    assert_eq!(server.window(3).unwrap().image.set_frame(0), Some(frame_of(0, 1)));
    assert_eq!(server.window(4).unwrap().image.set_frame(0), Some(frame_of(0, 9)));
}

#[test]
fn first_pose_makes_one_session_and_the_next_reuses_it() {
    let mut server = watcher();
    let first = server.apply(pose(7, shown(500_000, 250_000)), 0, 1920, 1080);
    assert_eq!(
        first.opened,
        Some(RenderIntent { owner: 7, position: Some((-1000, -1000)), pixels: Some(frame_of(0, 1)) })
    );
    assert_eq!(first.intent, Some(RenderIntent { owner: 7, position: Some((960, 270)), pixels: None }));
    assert_eq!(first.rejected, None);
    assert_eq!(server.len(), 1);
    assert_eq!(server.owners(), vec![7]);
    assert!(server.contains(7));

    let second = server.apply(pose(7, shown(600_000, 250_000)), 10, 1920, 1080);
    assert_eq!(second.opened, None);
    assert_eq!(second.intent, Some(RenderIntent { owner: 7, position: Some((1152, 270)), pixels: None }));
    assert_eq!(server.len(), 1);
    assert_eq!(server.owners(), vec![7]);
    assert_eq!(server.window(7).unwrap().state, shown(600_000, 250_000));
}

#[test]
fn each_holder_has_a_session_of_its_own() {
    let mut server = watcher();
    server.apply(pose(1, shown(100_000, 100_000)), 0, 1000, 1000);
    server.apply(pose(2, UserState::Idle), 0, 1000, 1000);
    server.apply(pose(1, shown(200_000, 100_000)), 0, 1000, 1000);
    assert_eq!(server.len(), 2);
    let mut owners = server.owners();
    owners.sort();
    assert_eq!(owners, vec![1, 2]);
    assert_eq!(server.window(1).unwrap().state, shown(200_000, 100_000));
    assert_eq!(server.window(2).unwrap().state, UserState::Idle);
}

#[test]
fn idle_pose_from_a_new_holder_only_opens_its_overlay() {
    let mut server = watcher();
    let applied = server.apply(pose(3, UserState::Idle), 0, 1920, 1080);
    assert!(applied.opened.is_some());
    assert_eq!(applied.intent, None);
    assert_eq!(applied.rejected, None);
}

#[test]
fn repeated_pose_is_silent() {
    let mut server = watcher();
    let first = server.apply(pose(7, shown(500_000, 250_000)), 0, 1920, 1080);
    assert!(first.intent.is_some());
    let again = server.apply(pose(7, shown(500_000, 250_000)), 20_000, 1920, 1080);
    assert_eq!(again, quiet());
    let and_again = server.apply(pose(7, shown(500_000, 250_000)), 7 * SECOND, 1920, 1080);
    assert_eq!(and_again, quiet());
}

#[test]
fn pose_to_idle_parks_the_overlay() {
    let mut server = watcher();
    server.apply(pose(7, shown(500_000, 250_000)), 0, 1920, 1080);
    let hidden = server.apply(pose(7, UserState::Idle), 1, 1920, 1080);
    assert_eq!(hidden.intent, Some(RenderIntent { owner: 7, position: Some((-1000, -1000)), pixels: None }));
    assert_eq!(server.apply(pose(7, UserState::Idle), 2, 1920, 1080), quiet());
}

#[test]
fn flashing_pose_fills_the_overlay_with_the_flash_frame() {
    let mut server = watcher();
    let applied = server.apply(pose(7, flashing(500_000, 500_000)), 0, 800, 600);
    assert_eq!(
        applied.intent,
        Some(RenderIntent { owner: 7, position: Some((400, 300)), pixels: Some(frame_of(1, 1)) })
    );
    assert_eq!(server.window(7).unwrap().frame, Some(1));
    let back = server.apply(pose(7, shown(500_000, 500_000)), 0, 800, 600);
    assert_eq!(
        back.intent,
        Some(RenderIntent { owner: 7, position: Some((400, 300)), pixels: Some(frame_of(0, 1)) })
    );
}

#[test]
fn frame_outside_the_strip_is_recorded_but_not_drawn() {
    let mut server = watcher();
    server.apply(
        ThreadPacket { owner: 7, data: UserData::AnimationStates(tracks(&[(0, 1)], &[(5, 1)], &[(1, 1)])) },
        0,
        800,
        600,
    );
    let applied = server.apply(pose(7, shown(0, 0)), 0, 800, 600);
    assert_eq!(applied.intent, Some(RenderIntent { owner: 7, position: Some((0, 0)), pixels: None }));
    assert_eq!(server.window(7).unwrap().frame, Some(5));
    assert_eq!(server.apply(pose(7, shown(0, 0)), 0, 800, 600), quiet());
}

#[test]
fn new_tracks_alone_draw_nothing_but_the_next_tick_does() {
    let mut server = watcher();
    server.apply(pose(7, shown(500_000, 250_000)), 0, 1920, 1080);
    let update = ThreadPacket {
        owner: 7,
        data: UserData::AnimationStates(tracks(&[(0, SECOND)], &[(0, SECOND), (1, SECOND)], &[(1, SECOND)])),
    };
    assert_eq!(server.apply(update, SECOND + SECOND / 2, 1920, 1080), quiet());
    assert_eq!(server.window(7).unwrap().frame, Some(0));
    assert_eq!(server.window(7).unwrap().state, shown(500_000, 250_000));

    assert_eq!(server.update_windows(2 * SECOND + 1), Vec::new());
    assert_eq!(
        server.update_windows(3 * SECOND + SECOND / 2),
        vec![RenderIntent { owner: 7, position: None, pixels: Some(frame_of(1, 1)) }]
    );
    assert_eq!(server.window(7).unwrap().frame, Some(1));
    assert_eq!(server.update_windows(3 * SECOND + SECOND / 2 + 1), Vec::new());
    assert_eq!(
        server.update_windows(4 * SECOND),
        vec![RenderIntent { owner: 7, position: None, pixels: Some(frame_of(0, 1)) }]
    );
}

#[test]
fn tick_leaves_idle_holders_alone() {
    let mut server = watcher();
    server.apply(pose(7, UserState::Idle), 0, 1920, 1080);
    let update = ThreadPacket {
        owner: 7,
        data: UserData::AnimationStates(tracks(&[(1, SECOND)], &[(1, SECOND)], &[(1, SECOND)])),
    };
    server.apply(update, 0, 1920, 1080);
    assert_eq!(server.update_windows(5), Vec::new());
    assert_eq!(server.window(7).unwrap().frame, Some(0));
}

#[test]
fn tick_visits_every_holder_on_show() {
    let mut server = watcher();
    let cycle = tracks(&[(0, SECOND)], &[(0, SECOND), (1, SECOND)], &[(1, SECOND), (0, SECOND)]);
    for owner in [1u64, 2, 3, 4] {
        server.apply(pose(owner, UserState::Idle), 0, 1920, 1080);
        server.apply(
            ThreadPacket { owner, data: UserData::AnimationStates(cycle.clone()) },
            0,
            1920,
            1080,
        );
    }
    server.apply(pose(1, shown(1, 1)), 0, 1920, 1080);
    server.apply(pose(2, flashing(1, 1)), 0, 1920, 1080);
    server.apply(pose(3, shown(1, 1)), 0, 1920, 1080);
    assert_eq!(server.window(2).unwrap().frame, Some(1));

    let mut intents = server.update_windows(SECOND);
    intents.sort_by_key(|intent| intent.owner);
    assert_eq!(
        intents,
        vec![
            RenderIntent { owner: 1, position: None, pixels: Some(frame_of(1, 1)) },
            RenderIntent { owner: 2, position: None, pixels: Some(frame_of(0, 1)) },
            RenderIntent { owner: 3, position: None, pixels: Some(frame_of(1, 1)) },
        ]
    );
    assert_eq!(server.window(1).unwrap().frame, Some(1));
    assert_eq!(server.window(2).unwrap().frame, Some(0));
    assert_eq!(server.window(3).unwrap().frame, Some(1));
    assert_eq!(server.window(4).unwrap().frame, Some(0));
    assert_eq!(server.len(), 4);
}

#[test]
fn accepted_picture_replaces_the_cursor_and_forces_a_redraw() {
    let mut server = watcher();
    server.apply(pose(7, shown(500_000, 250_000)), 0, 1920, 1080);
    let image = CursorImage::decode(&picture(192, 64, 9)).unwrap();
    let applied = server.apply(ThreadPacket { owner: 7, data: UserData::Image(image) }, 5, 1920, 1080);
    assert_eq!(applied.opened, None);
    assert_eq!(applied.intent, Some(RenderIntent { owner: 7, position: None, pixels: Some(frame_of(0, 9)) }));
    assert_eq!(applied.rejected, None);
    assert_eq!(server.window(7).unwrap().frame, None);
    assert_eq!(server.window(7).unwrap().image.width(), 192);

    let again = server.apply(pose(7, shown(500_000, 250_000)), 6, 1920, 1080);
    assert_eq!(
        again.intent,
        Some(RenderIntent { owner: 7, position: Some((960, 270)), pixels: Some(frame_of(0, 9)) })
    );
    assert_eq!(server.window(7).unwrap().frame, Some(0));
    assert_eq!(server.apply(pose(7, shown(500_000, 250_000)), 7, 1920, 1080), quiet());
}

#[test]
fn accepted_picture_is_redrawn_by_the_next_tick() {
    let mut server = watcher();
    server.apply(pose(7, shown(500_000, 250_000)), 0, 1920, 1080);
    let image = CursorImage::decode(&picture(64, 64, 9)).unwrap();
    server.apply(ThreadPacket { owner: 7, data: UserData::Image(image) }, 5, 1920, 1080);
    assert_eq!(
        server.update_windows(6),
        vec![RenderIntent { owner: 7, position: None, pixels: Some(frame_of(0, 9)) }]
    );
    assert_eq!(server.update_windows(7), Vec::new());
}

#[test]
fn picture_of_the_wrong_size_leaves_the_session_as_it_was() {
    let mut server = watcher();
    server.apply(pose(7, flashing(500_000, 250_000)), 0, 1920, 1080);
    let wide = CursorImage::decode(&picture(100, 64, 9)).unwrap();
    let applied = server.apply(ThreadPacket { owner: 7, data: UserData::Image(wide) }, 5, 1920, 1080);
    assert_eq!(
        applied,
        Applied { opened: None, intent: None, rejected: Some(Rejection::Cursor(CursorError::Width)) }
    );
    let tall = CursorImage::decode(&picture(128, 65, 9)).unwrap();
    let applied = server.apply(ThreadPacket { owner: 7, data: UserData::Image(tall) }, 5, 1920, 1080);
    assert_eq!(applied.rejected, Some(Rejection::Cursor(CursorError::Height)));
    let window = server.window(7).unwrap();
    assert_eq!(window.frame, Some(1));
    assert_eq!(window.state, flashing(500_000, 250_000));
    assert_eq!(window.image.width(), 128);
    assert_eq!(window.image.set_frame(0), Some(frame_of(0, 1)));
}

#[test]
fn rejected_picture_from_a_new_holder_still_opens_its_session() {
    let mut server = watcher();
    let wide = CursorImage::decode(&picture(100, 64, 9)).unwrap();
    let applied = server.apply(ThreadPacket { owner: 7, data: UserData::Image(wide) }, 5, 1920, 1080);
    assert!(applied.opened.is_some());
    assert_eq!(applied.intent, None);
    assert_eq!(applied.rejected, Some(Rejection::Cursor(CursorError::Width)));
    assert_eq!(server.len(), 1);
    assert_eq!(server.window(7).unwrap().frame, Some(0));
}

#[test]
fn tracks_without_time_are_set_aside() {
    let mut server = watcher();
    server.apply(pose(7, shown(1, 1)), 0, 1920, 1080);
    let dead = tracks(&[(0, SECOND)], &[(3, 0)], &[(1, SECOND)]);
    let update = ThreadPacket { owner: 7, data: UserData::AnimationStates(dead) };
    let applied = server.apply(update, 0, 1920, 1080);
    assert_eq!(applied, Applied { opened: None, intent: None, rejected: Some(Rejection::Animation) });
    assert_eq!(server.window(7).unwrap().animation_set, UserAnimationStates::new());
}

#[test]
fn window_applies_updates_on_its_own() {
    let image = CursorImage::decode(&picture(128, 64, 4)).unwrap();
    let mut window = UserWindow::new(image);
    let (intent, rejected) = window.apply(1, UserData::State(flashing(0, 500_000)), 0, 100, 200);
    assert_eq!(
        intent,
        Some(RenderIntent { owner: 1, position: Some((0, 100)), pixels: Some(frame_of(1, 4)) })
    );
    assert_eq!(rejected, None);
    assert_eq!(window.tick(1, 10), None);
    window.frame = None;
    assert_eq!(
        window.tick(1, 10),
        Some(RenderIntent { owner: 1, position: None, pixels: Some(frame_of(1, 4)) })
    );
    assert_eq!(window.frame, Some(1));
}

#[test]
fn losing_an_unknown_holder_changes_nothing() {
    let mut server = watcher();
    assert_eq!(server.lost(7, 0), None);
    assert_eq!(server.lost(7, 1), None);
    assert_eq!(server.len(), 0);
    assert!(!server.contains(7));
}

#[test]
fn losing_a_holder_parks_its_overlay_once() {
    let mut server = watcher();
    server.apply(pose(7, shown(500_000, 250_000)), 0, 1920, 1080);
    server.apply(pose(8, shown(1, 1)), 0, 1920, 1080);
    assert_eq!(
        server.lost(7, 5),
        Some(RenderIntent { owner: 7, position: Some((-1000, -1000)), pixels: None })
    );
    assert_eq!(server.window(7).unwrap().state, UserState::Idle);
    assert_eq!(server.window(8).unwrap().state, shown(1, 1));
    assert_eq!(server.lost(7, 6), None);
    assert_eq!(server.len(), 2);
}
