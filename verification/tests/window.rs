use lwar::input::{Key, MouseButton, RawKeyFrame};
use lwar::window::{
    wheel_detents, Event, OsMessage, PlatformAction, Window, MIN_TRACK_HEIGHT, MIN_TRACK_WIDTH,
};

fn fresh_window() -> Window {
    Window::new(7, 800, 600)
}

#[test]
fn new_window_records_handle_and_size() {
    let window = fresh_window();
    assert_eq!(window.hwnd(), 7);
    assert_eq!(window.size(), (800, 600));
    assert!(!window.has_focus);
    assert!(!window.cursor_inside);
}

#[test]
fn close_request_is_translated_and_window_survives() {
    let mut window = fresh_window();
    let out = window.pump(&vec![OsMessage::Close]);
    assert_eq!(out.events, vec![Event::CloseRequested]);
    assert_eq!(window.hwnd(), 7);
}

#[test]
fn size_change_emits_exactly_one_trailing_resized() {
    let mut window = fresh_window();
    let out = window.pump(&vec![OsMessage::Size(1024, 768), OsMessage::Size(640, 480)]);
    assert_eq!(out.events, vec![Event::Resized(640, 480)]);
    assert_eq!(window.size(), (640, 480));
}

#[test]
fn unchanged_size_emits_no_resized() {
    let mut window = fresh_window();
    let out = window.pump(&vec![OsMessage::Size(800, 600)]);
    assert_eq!(out.events, vec![]);
}

#[test]
fn size_bouncing_back_within_one_pump_emits_no_resized() {
    let mut window = fresh_window();
    let out = window.pump(&vec![OsMessage::Size(1024, 768), OsMessage::Size(800, 600)]);
    assert_eq!(out.events, vec![]);
    assert_eq!(window.size(), (800, 600));
}

#[test]
fn focus_change_emits_exactly_one_trailing_focused() {
    let mut window = fresh_window();
    let out = window.pump(&vec![OsMessage::Activate(true)]);
    assert_eq!(out.events, vec![Event::Focused(true)]);
    assert!(window.has_focus);

    let out = window.pump(&vec![OsMessage::Activate(false), OsMessage::Activate(true)]);
    assert_eq!(out.events, vec![]);
}

#[test]
fn size_and_focus_synthesis_order_is_resized_then_focused() {
    let mut window = fresh_window();
    let out = window.pump(&vec![OsMessage::Activate(true), OsMessage::Size(1024, 768)]);
    assert_eq!(out.events, vec![Event::Resized(1024, 768), Event::Focused(true)]);
}

#[test]
fn mouse_enter_move_leave_cycle() {
    let mut window = fresh_window();
    let out = window.pump(&vec![
        OsMessage::MouseMove(10, 10),
        OsMessage::MouseMove(11, 12),
        OsMessage::MouseLeave,
        OsMessage::MouseMove(5, 5),
    ]);
    assert_eq!(
        out.events,
        vec![Event::MouseEntered, Event::MouseMoved(11, 12), Event::MouseLeft, Event::MouseEntered]
    );
    assert_eq!(
        out.actions,
        vec![PlatformAction::TrackMouseLeave, PlatformAction::TrackMouseLeave]
    );
    assert!(window.cursor_inside);
}

#[test]
fn leave_without_prior_enter_is_ignored() {
    let mut window = fresh_window();
    let out = window.pump(&vec![OsMessage::MouseLeave]);
    assert_eq!(out.events, vec![]);
    assert_eq!(out.actions, vec![]);
}

#[test]
fn buttons_wheel_and_text_translate_directly() {
    let mut window = fresh_window();
    let out = window.pump(&vec![
        OsMessage::ButtonDown(MouseButton::Left),
        OsMessage::ButtonUp(MouseButton::Left),
        OsMessage::ButtonDown(MouseButton::XButton2),
        OsMessage::Wheel(-1),
        OsMessage::Text('a'),
    ]);
    assert_eq!(
        out.events,
        vec![
            Event::MousePressed(MouseButton::Left),
            Event::MouseReleased(MouseButton::Left),
            Event::MousePressed(MouseButton::XButton2),
            Event::MouseWheel(-1),
            Event::CharacterEntered('a'),
        ]
    );
}

#[test]
fn raw_input_translates_to_key_events() {
    let mut window = fresh_window();
    let press = RawKeyFrame {
        keyboard: true,
        virtual_key: 0x41,
        scan_code: 0x1E,
        extended: false,
        e1: false,
        released: false,
    };
    let release = RawKeyFrame { released: true, ..press };
    let undecodable = RawKeyFrame { virtual_key: 0x07, ..press };
    let out = window.pump(&vec![
        OsMessage::RawInput(press),
        OsMessage::RawInput(release),
        OsMessage::RawInput(undecodable),
    ]);
    assert_eq!(
        out.events,
        vec![Event::KeyPressed(Key::A, 0x1E), Event::KeyReleased(Key::A, 0x1E)]
    );
}

#[test]
fn alt_enter_chord_requests_fullscreen_toggle_once() {
    let mut window = fresh_window();
    let out = window.pump(&vec![
        // A fresh press of Enter with Alt held.
        OsMessage::SysKeyDown { virtual_key: 0x0D, keystroke_flags: 0x20000000 },
        // A repeat of the same chord: the key was already down.
        OsMessage::SysKeyDown { virtual_key: 0x0D, keystroke_flags: 0x60000000 },
        // A fresh press of another key with Alt held.
        OsMessage::SysKeyDown { virtual_key: 0x46, keystroke_flags: 0x20000000 },
        // Enter without the Alt context code.
        OsMessage::SysKeyDown { virtual_key: 0x0D, keystroke_flags: 0 },
        OsMessage::SysMenu,
    ]);
    assert_eq!(out.events, vec![]);
    assert_eq!(out.actions, vec![PlatformAction::ToggleFullscreen]);
}

#[test]
fn destroy_clears_the_handle_and_is_safe_twice() {
    let mut window = fresh_window();
    window.destroy();
    assert_eq!(window.hwnd(), 0);
    window.destroy();
    assert_eq!(window.hwnd(), 0);
}

#[test]
fn minimum_track_size_constants() {
    assert_eq!(MIN_TRACK_WIDTH, 640);
    assert_eq!(MIN_TRACK_HEIGHT, 480);
}

#[test]
fn wheel_rotation_converts_to_whole_detents() {
    assert_eq!(wheel_detents(0), 0);
    assert_eq!(wheel_detents(120), 1);
    assert_eq!(wheel_detents(240), 2);
    assert_eq!(wheel_detents(-120), -1);
    assert_eq!(wheel_detents(-360), -3);
    assert_eq!(wheel_detents(119), 0);
    assert_eq!(wheel_detents(-119), 0);
}
