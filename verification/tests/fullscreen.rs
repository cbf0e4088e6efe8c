use lwar::fullscreen::{Placement, WS_OVERLAPPED_WINDOW, WS_THICKFRAME};
use lwar::primitives::Rectangle;

fn rect(left: i32, top: i32, width: i32, height: i32) -> Rectangle<i32> {
    Rectangle { left, top, width, height }
}

const WS_VISIBLE: u32 = 0x10000000;

#[test]
fn toggle_enters_fullscreen_borderless_over_the_monitor() {
    let windowed_bounds = rect(100, 100, 800, 600);
    let monitor = rect(0, 0, 1920, 1080);
    let mut placement = Placement {
        style: WS_OVERLAPPED_WINDOW | WS_VISIBLE,
        maximized: false,
        bounds: windowed_bounds,
        restore_bounds: windowed_bounds,
    };

    placement.toggle(monitor);

    assert!(!placement.is_windowed());
    assert_eq!(placement.style & WS_OVERLAPPED_WINDOW, 0);
    assert_eq!(placement.style & WS_VISIBLE, WS_VISIBLE);
    assert!(!placement.maximized);
    assert_eq!(placement.bounds, monitor);
    assert_eq!(placement.restore_bounds, windowed_bounds);
}

#[test]
fn toggle_twice_restores_style_and_bounds() {
    let windowed_bounds = rect(100, 100, 800, 600);
    let monitor = rect(0, 0, 1920, 1080);
    let original = Placement {
        style: WS_OVERLAPPED_WINDOW | WS_VISIBLE,
        maximized: false,
        bounds: windowed_bounds,
        restore_bounds: windowed_bounds,
    };

    let mut placement = original;
    placement.toggle(monitor);
    placement.toggle(monitor);

    assert_eq!(placement, original);
}

#[test]
fn maximized_window_is_unmaximized_on_entering_fullscreen() {
    let remembered = rect(100, 100, 800, 600);
    let maximized_bounds = rect(0, 0, 1920, 1040);
    let monitor = rect(0, 0, 1920, 1080);
    let mut placement = Placement {
        style: WS_OVERLAPPED_WINDOW,
        maximized: true,
        bounds: maximized_bounds,
        restore_bounds: remembered,
    };

    placement.toggle(monitor);
    assert!(!placement.maximized);
    assert_eq!(placement.bounds, monitor);
    assert_eq!(placement.restore_bounds, remembered);

    placement.toggle(monitor);
    assert!(placement.is_windowed());
    assert!(!placement.maximized);
    assert_eq!(placement.bounds, remembered);
}

#[test]
fn windowed_mode_is_judged_by_the_sizing_frame_bit() {
    let bounds = rect(0, 0, 1, 1);
    let with_frame = Placement {
        style: WS_THICKFRAME,
        maximized: false,
        bounds,
        restore_bounds: bounds,
    };
    let without_frame = Placement { style: WS_VISIBLE, ..with_frame };
    assert!(with_frame.is_windowed());
    assert!(!without_frame.is_windowed());
}
