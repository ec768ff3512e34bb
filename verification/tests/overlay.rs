use hermes::{
    rgba_to_bgra, view, window_step, DotStatus, PanelView, ActiveRoom, Participant, RoomState, StubBackend, VoiceEvent,
    WindowAction, WindowEvent, BYTES_PER_PIXEL,
};

fn s(x: &str) -> String {
    x.to_string()
}

fn joined(room: &RoomState) -> Vec<(String, bool, bool)> {
    match &room.active_room {
        None => Vec::new(),
        Some(r) => r
            .participants
            .iter()
            .map(|p| (p.user_id.clone(), p.speaking, p.muted))
            .collect(),
    }
}

#[test]
fn publisher_script_drives_the_room() {
    let mut state = RoomState::new();
    state.apply(VoiceEvent::RoomJoined { room_id: s("r1"), room_name: s("general") });
    state.apply(VoiceEvent::UserJoined { user_id: s("u1"), display_name: s("Alice") });
    state.apply(VoiceEvent::UserJoined { user_id: s("u2"), display_name: s("Bob") });
    state.apply(VoiceEvent::UserSpeaking { user_id: s("u1"), speaking: true });
    assert_eq!(joined(&state), vec![(s("u1"), true, false), (s("u2"), false, false)]);
    state.apply(VoiceEvent::UserSpeaking { user_id: s("u1"), speaking: false });
    state.apply(VoiceEvent::UserMuted { user_id: s("u2"), muted: true });
    state.apply(VoiceEvent::UserJoined { user_id: s("u3"), display_name: s("Carol") });
    assert_eq!(
        joined(&state),
        vec![(s("u1"), false, false), (s("u2"), false, true), (s("u3"), false, false)]
    );
    state.apply(VoiceEvent::UserLeft { user_id: s("u2") });
    assert_eq!(joined(&state), vec![(s("u1"), false, false), (s("u3"), false, false)]);
    let room = state.active_room.clone().unwrap();
    assert_eq!(room.id, "r1");
    assert_eq!(room.name, "general");
    state.apply(VoiceEvent::RoomLeft);
    assert!(state.active_room.is_none());
}

#[test]
fn events_without_a_room_change_nothing() {
    let mut state = RoomState::default();
    state.apply(VoiceEvent::UserJoined { user_id: s("u1"), display_name: s("Alice") });
    state.apply(VoiceEvent::UserSpeaking { user_id: s("u1"), speaking: true });
    assert_eq!(state, RoomState::new());
}

#[test]
fn joining_twice_keeps_one_participant() {
    let mut state = RoomState::new();
    state.apply(VoiceEvent::RoomJoined { room_id: s("r"), room_name: s("n") });
    state.apply(VoiceEvent::UserJoined { user_id: s("u1"), display_name: s("Alice") });
    let once = state.clone();
    state.apply(VoiceEvent::UserJoined { user_id: s("u1"), display_name: s("Other name") });
    assert_eq!(state, once);
}

#[test]
fn leaving_undoes_joining() {
    let mut state = RoomState::new();
    state.apply(VoiceEvent::RoomJoined { room_id: s("r"), room_name: s("n") });
    state.apply(VoiceEvent::UserJoined { user_id: s("u1"), display_name: s("Alice") });
    let before = state.clone();
    state.apply(VoiceEvent::UserJoined { user_id: s("u9"), display_name: s("Zed") });
    state.apply(VoiceEvent::UserLeft { user_id: s("u9") });
    assert_eq!(state, before);
}

#[test]
fn speaking_twice_is_speaking_once() {
    let mut state = RoomState::new();
    state.apply(VoiceEvent::RoomJoined { room_id: s("r"), room_name: s("n") });
    state.apply(VoiceEvent::UserJoined { user_id: s("u1"), display_name: s("Alice") });
    state.apply(VoiceEvent::UserMuted { user_id: s("u1"), muted: true });
    let once = state.clone();
    state.apply(VoiceEvent::UserMuted { user_id: s("u1"), muted: true });
    assert_eq!(state, once);
}

#[test]
fn room_state_is_a_plain_value() {
    let room = ActiveRoom {
        id: s("r"),
        name: s("n"),
        participants: vec![Participant {
            user_id: s("u"),
            display_name: s("d"),
            speaking: false,
            muted: false,
        }],
    };
    let state = RoomState { active_room: Some(room) };
    assert_eq!(joined(&state), vec![(s("u"), false, false)]);
}

fn pixel(buf: &[u8], w: u32, x: u32, y: u32) -> [u8; 4] {
    let i = ((y * w + x) * BYTES_PER_PIXEL) as usize;
    [buf[i], buf[i + 1], buf[i + 2], buf[i + 3]]
}

#[test]
fn stub_render_paints_status_and_bars() {
    let backend = StubBackend { width: 40, height: 10 };
    let mut state = RoomState::new();
    state.apply(VoiceEvent::RoomJoined { room_id: s("r"), room_name: s("n") });
    state.apply(VoiceEvent::UserJoined { user_id: s("a"), display_name: s("A") });
    state.apply(VoiceEvent::UserJoined { user_id: s("b"), display_name: s("B") });
    state.apply(VoiceEvent::UserJoined { user_id: s("c"), display_name: s("C") });
    let buf = backend.render(&state);
    assert_eq!(buf.len(), 40 * 10 * 4);
    let bg = [90, 180, 40, 180];
    let bar = [255, 255, 255, 255];
    assert_eq!(pixel(&buf, 40, 0, 0), bg);
    assert_eq!(pixel(&buf, 40, 4, 0), bar);
    assert_eq!(pixel(&buf, 40, 11, 5), bar);
    assert_eq!(pixel(&buf, 40, 12, 0), bg);
    assert_eq!(pixel(&buf, 40, 16, 0), bar);
    // only two bars fit across forty pixels
    assert_eq!(pixel(&buf, 40, 28, 0), bg);
    assert_eq!(pixel(&buf, 40, 4, 6), bg);
    assert_eq!(pixel(&buf, 40, 39, 9), bg);
}

#[test]
fn stub_render_without_a_room_is_red() {
    let backend = StubBackend { width: 3, height: 2 };
    let buf = backend.render(&RoomState::new());
    assert_eq!(buf.len(), 3 * 2 * 4);
    for chunk in buf.chunks(4) {
        assert_eq!(chunk, &[40, 40, 200, 180]);
    }
}

#[test]
fn stub_render_of_a_zero_sized_surface_is_one_pixel() {
    let backend = StubBackend { width: 0, height: 0 };
    let buf = backend.render(&RoomState::new());
    assert_eq!(buf, vec![40, 40, 200, 180]);
}

#[test]
fn swizzle_swaps_red_and_blue() {
    assert_eq!(rgba_to_bgra(vec![1, 2, 3, 4, 5, 6, 7, 8]), vec![3, 2, 1, 4, 7, 6, 5, 8]);
    assert_eq!(rgba_to_bgra(vec![1, 2, 3, 4, 5, 6]), vec![3, 2, 1, 4, 5, 6]);
    assert_eq!(rgba_to_bgra(Vec::new()), Vec::<u8>::new());
}

#[test]
fn window_events_open_resize_and_close() {
    assert_eq!(
        window_step(7, false, WindowEvent::Added { width: 0, height: 300 }),
        WindowAction::Open { window_id: 7, width: 1, height: 300 }
    );
    assert_eq!(
        window_step(7, true, WindowEvent::Resized { width: 640, height: 0 }),
        WindowAction::Resize { width: 640, height: 1 }
    );
    assert_eq!(
        window_step(7, false, WindowEvent::Resized { width: 640, height: 480 }),
        WindowAction::Ignore
    );
    assert_eq!(window_step(7, true, WindowEvent::Destroyed), WindowAction::Close);
    assert_eq!(window_step(7, true, WindowEvent::Input), WindowAction::Ignore);
}

#[test]
fn swizzling_twice_gives_the_frame_back() {
    let frame: Vec<u8> = (0..23u8).collect();
    assert_eq!(rgba_to_bgra(rgba_to_bgra(frame.clone())), frame);
}

#[test]
fn stub_backend_resizes() {
    let mut backend = StubBackend { width: 10, height: 10 };
    backend.resize(64, 32);
    assert_eq!(backend.width(), 64);
    assert_eq!(backend.render(&RoomState::new()).len(), 64 * 32 * 4);
}

#[test]
fn panel_shows_the_room() {
    match view(&RoomState::new()) {
        PanelView::Idle { title, subtitle } => {
            assert_eq!(title, "Hermes");
            assert_eq!(subtitle, "not in a voice room");
        }
        other => panic!("unexpected {:?}", other),
    }
    let mut state = RoomState::new();
    state.apply(VoiceEvent::RoomJoined { room_id: s("r1"), room_name: s("general") });
    for i in 0..12 {
        state.apply(VoiceEvent::UserJoined { user_id: format!("u{i}"), display_name: format!("User {i}") });
    }
    state.apply(VoiceEvent::UserSpeaking { user_id: s("u0"), speaking: true });
    state.apply(VoiceEvent::UserMuted { user_id: s("u0"), muted: true });
    state.apply(VoiceEvent::UserMuted { user_id: s("u1"), muted: true });
    match view(&state) {
        PanelView::Room { title, subtitle, rows } => {
            assert_eq!(title, "# general");
            assert_eq!(subtitle, "12 in call");
            assert_eq!(rows.len(), 12);
            assert_eq!(rows[0].status, DotStatus::Speaking);
            assert_eq!(rows[1].status, DotStatus::Muted);
            assert_eq!(rows[2].status, DotStatus::Quiet);
            assert_eq!(rows[11].display_name, "User 11");
        }
        other => panic!("unexpected {:?}", other),
    }
}
