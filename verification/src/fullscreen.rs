//! The fullscreen toggle: a state machine over the window's style bits and
//! placement. Entering fullscreen removes the bordered, overlapped style
//! bits and stretches the window over the monitor's work area, unmaximizing
//! it first when it was maximized; leaving fullscreen restores the bordered
//! style and the remembered windowed placement. The platform calls that
//! apply a style or a placement live outside the library.

use vstd::prelude::*;

use crate::primitives::Rectangle;

verus! {

/// The full bordered, overlapped-resizable style: caption, system menu,
/// sizing frame and the minimize and maximize boxes.
pub const WS_OVERLAPPED_WINDOW: u32 = 0x00CF0000;

/// The sizing-frame style bit; a window is in windowed mode exactly while
/// it carries this bit.
pub const WS_THICKFRAME: u32 = 0x00040000;

/// The window's placement as the toggle sees it: the current style bits,
/// whether the window is maximized, its current bounds, and the windowed
/// bounds to restore when leaving fullscreen.
#[derive(Clone, Copy, Debug, PartialEq, Eq, Structural)]
pub struct Placement {
    pub style: u32,
    pub maximized: bool,
    pub bounds: Rectangle<i32>,
    pub restore_bounds: Rectangle<i32>,
}

/// Whether a style is the windowed one: it carries the sizing-frame bit.
pub open spec fn is_windowed_spec(style: u32) -> bool {
    style & WS_THICKFRAME != 0
}

/// A placement of a window in ordinary windowed, non-maximized mode keeps
/// its current bounds as the bounds to restore.
pub open spec fn windowed_inv(p: Placement) -> bool {
    is_windowed_spec(p.style) && !p.maximized ==> p.bounds == p.restore_bounds
}

/// The placement after one toggle against a monitor work area. A windowed
/// placement loses the bordered style bits, is unmaximized first when it
/// was maximized, and takes exactly the monitor rectangle; the remembered
/// windowed bounds are kept for the way back. A fullscreen placement gets
/// the bordered style bits back and returns to the remembered windowed,
/// non-maximized bounds.
pub open spec fn toggle_spec(p: Placement, monitor: Rectangle<i32>) -> Placement {
    if is_windowed_spec(p.style) {
        Placement {
            style: p.style & !WS_OVERLAPPED_WINDOW,
            maximized: false,
            bounds: monitor,
            restore_bounds: if p.maximized {
                p.restore_bounds
            } else {
                p.bounds
            },
        }
    } else {
        Placement {
            style: p.style | WS_OVERLAPPED_WINDOW,
            maximized: false,
            bounds: p.restore_bounds,
            restore_bounds: p.restore_bounds,
        }
    }
}

impl Placement {
    /// Whether this placement is in windowed mode.
    pub fn is_windowed(&self) -> (r: bool)
        ensures
            r == is_windowed_spec(self.style),
    {
        self.style & WS_THICKFRAME != 0
    }

    /// Flips the placement between bordered-windowed and
    /// fullscreen-borderless, exactly as `toggle_spec` states, and keeps
    /// the windowed-placement invariant.
    pub fn toggle(&mut self, monitor: Rectangle<i32>)
        ensures
            *final(self) == toggle_spec(*old(self), monitor),
            windowed_inv(*old(self)) ==> windowed_inv(*final(self)),
    {
        let ghost style_before: u32 = self.style;
        if self.is_windowed() {
            if !self.maximized {
                self.restore_bounds = self.bounds;
            }
            self.maximized = false;
            self.style = self.style & !WS_OVERLAPPED_WINDOW;
            self.bounds = monitor;
            proof {
                let style_after = self.style;
                assert(style_after & 0x00040000u32 == 0) by (bit_vector)
                    requires
                        style_after == style_before & !0x00CF0000u32,
                ;
            }
        } else {
            self.style = self.style | WS_OVERLAPPED_WINDOW;
            self.maximized = false;
            self.bounds = self.restore_bounds;
            proof {
                let style_after = self.style;
                assert(style_after & 0x00040000u32 != 0) by (bit_vector)
                    requires
                        style_after == style_before | 0x00CF0000u32,
                ;
            }
        }
    }
}

/// Toggling twice is the identity on a placement that starts windowed with
/// the full bordered style and non-maximized: the original style bits and
/// the original bounds come back, whatever monitor rectangles the two
/// toggles saw.
pub proof fn lemma_toggle_twice_restores(
    p: Placement,
    first_monitor: Rectangle<i32>,
    second_monitor: Rectangle<i32>,
)
    requires
        p.style & WS_OVERLAPPED_WINDOW == WS_OVERLAPPED_WINDOW,
        !p.maximized,
        windowed_inv(p),
    ensures
        toggle_spec(toggle_spec(p, first_monitor), second_monitor) == p,
{
    let s = p.style;
    assert(s & 0x00040000u32 != 0 && (s & !0x00CF0000u32) & 0x00040000u32 == 0 && (s
        & !0x00CF0000u32) | 0x00CF0000u32 == s) by (bit_vector)
        requires
            s & 0x00CF0000u32 == 0x00CF0000u32,
    ;
}

} // verus!
