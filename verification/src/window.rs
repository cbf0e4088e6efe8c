//! The window event translator: a state machine over the window's mutable
//! state (size, focus, cursor-inside flag) that turns one batch of pending
//! operating-system messages into a sequence of normalized events, and
//! synthesizes edge-triggered Resized and Focused events by diffing the
//! state before and after the batch. The calls that fetch messages from the
//! operating system and apply window actions live outside the library; this
//! module owns every decision between a message and an event.

use vstd::prelude::*;

use crate::input::Key;
use crate::input::MouseButton;
use crate::input::RawKeyFrame;
use crate::input::VK_RETURN;
use crate::input::parse_spec;
use crate::input::parse_key_frame;

verus! {

/// A normalized application event, produced transiently during one pump.
#[derive(Clone, Copy, Debug, PartialEq, Eq, Structural)]
pub enum Event {
    CloseRequested,
    Resized(u32, u32),
    Focused(bool),
    KeyPressed(Key, u32),
    KeyReleased(Key, u32),
    CharacterEntered(char),
    MouseEntered,
    MouseLeft,
    MouseMoved(u32, u32),
    MousePressed(MouseButton),
    MouseReleased(MouseButton),
    MouseWheel(i32),
}

/// One pending operating-system message, reduced to the plain values the
/// translator reads.
#[derive(Clone, Copy, Debug, PartialEq, Eq, Structural)]
pub enum OsMessage {
    /// The user asked to close the window.
    Close,
    /// The client area now has this size.
    Size(u32, u32),
    /// The window gained or lost focus.
    Activate(bool),
    /// The cursor moved to this client-area position.
    MouseMove(u32, u32),
    /// The one-shot leave notification fired: the cursor left the window.
    MouseLeave,
    ButtonDown(MouseButton),
    ButtonUp(MouseButton),
    /// Wheel rotation in whole detents.
    Wheel(i32),
    /// A translated character.
    Text(char),
    /// A raw keyboard input notification.
    RawInput(RawKeyFrame),
    /// A system key went down, with the raw keystroke flags: bit 29 is the
    /// context code (Alt is held) and bit 30 the previous key state.
    SysKeyDown { virtual_key: u32, keystroke_flags: u32 },
    /// The system menu was about to open from the keyboard; suppressed.
    SysMenu,
}

/// A side effect the platform must perform for the translator: requests
/// that only the operating system can carry out, decided here.
#[derive(Clone, Copy, Debug, PartialEq, Eq, Structural)]
pub enum PlatformAction {
    /// Register a one-shot notification for the cursor leaving the window.
    TrackMouseLeave,
    /// Flip the window between bordered and fullscreen-borderless.
    ToggleFullscreen,
}

/// The smallest width the window may be resized to.
pub const MIN_TRACK_WIDTH: u32 = 640;

/// The smallest height the window may be resized to.
pub const MIN_TRACK_HEIGHT: u32 = 480;

/// Turns a raw wheel rotation into whole detents: the platform reports
/// rotation in 120ths of a detent, and the quotient truncates toward zero.
pub fn wheel_detents(delta: i16) -> (d: i32)
    ensures
        delta >= 0 ==> d == delta as int / 120,
        delta < 0 ==> d == -((-(delta as int)) / 120),
{
    let wide: i32 = delta as i32;
    if wide >= 0 {
        wide / 120
    } else {
        -((-wide) / 120)
    }
}

/// The events and platform actions one pump produced, in order.
pub struct PumpOutput {
    pub events: Vec<Event>,
    pub actions: Vec<PlatformAction>,
}

/// The window's mutable state. The handle is an opaque tag for the native
/// window: nonzero after creation, zero after destruction.
#[derive(Clone, Copy, Debug, PartialEq, Eq, Structural)]
pub struct Window {
    pub handle: u64,
    pub width: u32,
    pub height: u32,
    pub has_focus: bool,
    pub cursor_inside: bool,
}

/// The window state after one message: size and focus follow the last
/// notification, and the cursor-inside flag is true exactly between a mouse
/// move and the matching leave notification.
pub open spec fn step_state(s: Window, m: OsMessage) -> Window {
    match m {
        OsMessage::Size(w, h) => Window { width: w, height: h, ..s },
        OsMessage::Activate(f) => Window { has_focus: f, ..s },
        OsMessage::MouseMove(x, y) => Window { cursor_inside: true, ..s },
        OsMessage::MouseLeave => Window { cursor_inside: false, ..s },
        _ => s,
    }
}

/// The events one message translates to directly. Size and focus changes
/// yield nothing here: they are synthesized once per pump from the state
/// diff. The first mouse move while the cursor is outside yields
/// MouseEntered in place of MouseMoved; a leave notification yields
/// MouseLeft only while the cursor is inside.
pub open spec fn step_events(s: Window, m: OsMessage) -> Seq<Event> {
    match m {
        OsMessage::Close => seq![Event::CloseRequested],
        OsMessage::MouseMove(x, y) => if s.cursor_inside {
            seq![Event::MouseMoved(x, y)]
        } else {
            seq![Event::MouseEntered]
        },
        OsMessage::MouseLeave => if s.cursor_inside {
            seq![Event::MouseLeft]
        } else {
            Seq::empty()
        },
        OsMessage::ButtonDown(b) => seq![Event::MousePressed(b)],
        OsMessage::ButtonUp(b) => seq![Event::MouseReleased(b)],
        OsMessage::Wheel(d) => seq![Event::MouseWheel(d)],
        OsMessage::Text(c) => seq![Event::CharacterEntered(c)],
        OsMessage::RawInput(frame) => match parse_spec(frame) {
            Some(stroke) => if stroke.released {
                seq![Event::KeyReleased(stroke.key, stroke.scan_code)]
            } else {
                seq![Event::KeyPressed(stroke.key, stroke.scan_code)]
            },
            None => Seq::empty(),
        },
        _ => Seq::empty(),
    }
}

/// Whether a system keystroke is the fullscreen chord: Return pressed
/// while Alt is held and the key was up before — a fresh Alt+Enter, not a
/// repeat.
pub open spec fn is_alt_enter_chord(virtual_key: u32, keystroke_flags: u32) -> bool {
    virtual_key == VK_RETURN && keystroke_flags & 0x60000000 == 0x20000000
}

/// The platform actions one message decides: entering the window registers
/// the one-shot leave notification anew each time, and the Alt+Enter chord
/// (a fresh press, not a repeat) toggles fullscreen.
pub open spec fn step_actions(s: Window, m: OsMessage) -> Seq<PlatformAction> {
    match m {
        OsMessage::MouseMove(x, y) => if s.cursor_inside {
            Seq::empty()
        } else {
            seq![PlatformAction::TrackMouseLeave]
        },
        OsMessage::SysKeyDown { virtual_key, keystroke_flags } => if is_alt_enter_chord(
            virtual_key,
            keystroke_flags,
        ) {
            seq![PlatformAction::ToggleFullscreen]
        } else {
            Seq::empty()
        },
        _ => Seq::empty(),
    }
}

/// The window state after a whole batch of messages.
pub open spec fn pump_state(s: Window, ms: Seq<OsMessage>) -> Window
    decreases ms.len(),
{
    if ms.len() == 0 {
        s
    } else {
        step_state(pump_state(s, ms.drop_last()), ms.last())
    }
}

/// The directly translated events of a whole batch, in message order.
pub open spec fn pump_events(s: Window, ms: Seq<OsMessage>) -> Seq<Event>
    decreases ms.len(),
{
    if ms.len() == 0 {
        Seq::empty()
    } else {
        pump_events(s, ms.drop_last()) + step_events(pump_state(s, ms.drop_last()), ms.last())
    }
}

/// The platform actions of a whole batch, in message order.
pub open spec fn pump_actions(s: Window, ms: Seq<OsMessage>) -> Seq<PlatformAction>
    decreases ms.len(),
{
    if ms.len() == 0 {
        Seq::empty()
    } else {
        pump_actions(s, ms.drop_last()) + step_actions(pump_state(s, ms.drop_last()), ms.last())
    }
}

/// The trailing events one pump synthesizes from the before/after diff: a
/// single Resized when the size changed over the batch, then a single
/// Focused when the focus changed, each carrying the final value.
pub open spec fn synthesized_events(before: Window, after: Window) -> Seq<Event> {
    (if after.width != before.width || after.height != before.height {
        seq![Event::Resized(after.width, after.height)]
    } else {
        Seq::empty()
    }) + (if after.has_focus != before.has_focus {
        seq![Event::Focused(after.has_focus)]
    } else {
        Seq::empty()
    })
}

/// How many Resized events a sequence holds.
pub open spec fn count_resized(events: Seq<Event>) -> nat
    decreases events.len(),
{
    if events.len() == 0 {
        0nat
    } else {
        count_resized(events.drop_last()) + (if events.last() is Resized {
            1nat
        } else {
            0nat
        })
    }
}

/// How many MouseEntered events a sequence holds.
pub open spec fn count_mouse_entered(events: Seq<Event>) -> nat
    decreases events.len(),
{
    if events.len() == 0 {
        0nat
    } else {
        count_mouse_entered(events.drop_last()) + (if events.last() is MouseEntered {
            1nat
        } else {
            0nat
        })
    }
}

/// How many MouseLeft events a sequence holds.
pub open spec fn count_mouse_left(events: Seq<Event>) -> nat
    decreases events.len(),
{
    if events.len() == 0 {
        0nat
    } else {
        count_mouse_left(events.drop_last()) + (if events.last() is MouseLeft {
            1nat
        } else {
            0nat
        })
    }
}

/// How many leave-tracking registrations a sequence of actions holds.
pub open spec fn count_track_leave(actions: Seq<PlatformAction>) -> nat
    decreases actions.len(),
{
    if actions.len() == 0 {
        0nat
    } else {
        count_track_leave(actions.drop_last()) + (if actions.last() is TrackMouseLeave {
            1nat
        } else {
            0nat
        })
    }
}

/// Counting Resized events distributes over concatenation.
pub proof fn lemma_count_resized_add(a: Seq<Event>, b: Seq<Event>)
    ensures
        count_resized(a + b) == count_resized(a) + count_resized(b),
    decreases b.len(),
{
    if b.len() == 0 {
        assert(a + b =~= a);
    } else {
        lemma_count_resized_add(a, b.drop_last());
        assert((a + b).drop_last() =~= a + b.drop_last());
    }
}

/// Counting MouseEntered events distributes over concatenation.
pub proof fn lemma_count_mouse_entered_add(a: Seq<Event>, b: Seq<Event>)
    ensures
        count_mouse_entered(a + b) == count_mouse_entered(a) + count_mouse_entered(b),
    decreases b.len(),
{
    if b.len() == 0 {
        assert(a + b =~= a);
    } else {
        lemma_count_mouse_entered_add(a, b.drop_last());
        assert((a + b).drop_last() =~= a + b.drop_last());
    }
}

/// Counting leave-tracking registrations distributes over concatenation.
pub proof fn lemma_count_track_leave_add(a: Seq<PlatformAction>, b: Seq<PlatformAction>)
    ensures
        count_track_leave(a + b) == count_track_leave(a) + count_track_leave(b),
    decreases b.len(),
{
    if b.len() == 0 {
        assert(a + b =~= a);
    } else {
        lemma_count_track_leave_add(a, b.drop_last());
        assert((a + b).drop_last() =~= a + b.drop_last());
    }
}

/// The count of Resized events in a sequence of at most one event.
proof fn lemma_count_resized_short(events: Seq<Event>)
    requires
        events.len() <= 1,
    ensures
        count_resized(events) == (if events.len() == 1 && events[0] is Resized {
            1nat
        } else {
            0nat
        }),
{
    reveal_with_fuel(count_resized, 2);
    if events.len() == 1 {
        assert(events.drop_last() =~= Seq::<Event>::empty());
        assert(events.last() == events[0]);
    }
}

/// The count of MouseEntered events in a sequence of at most one event.
proof fn lemma_count_mouse_entered_short(events: Seq<Event>)
    requires
        events.len() <= 1,
    ensures
        count_mouse_entered(events) == (if events.len() == 1 && events[0] is MouseEntered {
            1nat
        } else {
            0nat
        }),
{
    reveal_with_fuel(count_mouse_entered, 2);
    if events.len() == 1 {
        assert(events.drop_last() =~= Seq::<Event>::empty());
        assert(events.last() == events[0]);
    }
}

/// The count of leave-tracking registrations in at most one action.
proof fn lemma_count_track_leave_short(actions: Seq<PlatformAction>)
    requires
        actions.len() <= 1,
    ensures
        count_track_leave(actions) == (if actions.len() == 1 && actions[0] is TrackMouseLeave {
            1nat
        } else {
            0nat
        }),
{
    reveal_with_fuel(count_track_leave, 2);
    if actions.len() == 1 {
        assert(actions.drop_last() =~= Seq::<PlatformAction>::empty());
        assert(actions.last() == actions[0]);
    }
}

/// The direct translation of a batch never emits a Resized event: size
/// changes surface only through the trailing synthesis.
pub proof fn lemma_pump_events_no_resized(s: Window, ms: Seq<OsMessage>)
    ensures
        count_resized(pump_events(s, ms)) == 0,
    decreases ms.len(),
{
    if ms.len() > 0 {
        lemma_pump_events_no_resized(s, ms.drop_last());
        lemma_count_resized_add(
            pump_events(s, ms.drop_last()),
            step_events(pump_state(s, ms.drop_last()), ms.last()),
        );
        lemma_count_resized_short(step_events(pump_state(s, ms.drop_last()), ms.last()));
    }
}

/// One pump emits exactly one Resized event when the batch changed the size
/// and none otherwise: the drain itself emits none, so the trailing
/// synthesis never doubles up within a pump.
pub proof fn lemma_resized_exactly_once_per_pump(s: Window, ms: Seq<OsMessage>)
    ensures
        count_resized(pump_events(s, ms) + synthesized_events(s, pump_state(s, ms))) == (
        if pump_state(s, ms).width != s.width || pump_state(s, ms).height != s.height {
            1nat
        } else {
            0nat
        }),
{
    let after = pump_state(s, ms);
    lemma_pump_events_no_resized(s, ms);
    lemma_count_resized_add(pump_events(s, ms), synthesized_events(s, after));
    let sized: Seq<Event> = if after.width != s.width || after.height != s.height {
        seq![Event::Resized(after.width, after.height)]
    } else {
        Seq::empty()
    };
    let focused: Seq<Event> = if after.has_focus != s.has_focus {
        seq![Event::Focused(after.has_focus)]
    } else {
        Seq::empty()
    };
    lemma_count_resized_add(sized, focused);
    lemma_count_resized_short(sized);
    lemma_count_resized_short(focused);
}

/// Every MouseEntered event of a batch comes with its own leave-tracking
/// registration: the one-shot notification is requested anew on each entry,
/// never once globally.
pub proof fn lemma_enter_registers_leave_tracking(s: Window, ms: Seq<OsMessage>)
    ensures
        count_mouse_entered(pump_events(s, ms)) == count_track_leave(pump_actions(s, ms)),
    decreases ms.len(),
{
    if ms.len() > 0 {
        lemma_enter_registers_leave_tracking(s, ms.drop_last());
        lemma_count_mouse_entered_add(
            pump_events(s, ms.drop_last()),
            step_events(pump_state(s, ms.drop_last()), ms.last()),
        );
        lemma_count_track_leave_add(
            pump_actions(s, ms.drop_last()),
            step_actions(pump_state(s, ms.drop_last()), ms.last()),
        );
        lemma_count_mouse_entered_short(step_events(pump_state(s, ms.drop_last()), ms.last()));
        lemma_count_track_leave_short(step_actions(pump_state(s, ms.drop_last()), ms.last()));
    }
}

/// Counting MouseLeft events distributes over concatenation.
pub proof fn lemma_count_mouse_left_add(a: Seq<Event>, b: Seq<Event>)
    ensures
        count_mouse_left(a + b) == count_mouse_left(a) + count_mouse_left(b),
    decreases b.len(),
{
    if b.len() == 0 {
        assert(a + b =~= a);
    } else {
        lemma_count_mouse_left_add(a, b.drop_last());
        assert((a + b).drop_last() =~= a + b.drop_last());
    }
}

/// The count of MouseLeft events in a sequence of at most one event.
proof fn lemma_count_mouse_left_short(events: Seq<Event>)
    requires
        events.len() <= 1,
    ensures
        count_mouse_left(events) == (if events.len() == 1 && events[0] is MouseLeft {
            1nat
        } else {
            0nat
        }),
{
    reveal_with_fuel(count_mouse_left, 2);
    if events.len() == 1 {
        assert(events.drop_last() =~= Seq::<Event>::empty());
        assert(events.last() == events[0]);
    }
}

/// Enter and leave events alternate exactly: over any batch, the entries
/// plus a cursor already inside at the start balance the leaves plus a
/// cursor still inside at the end. In particular a batch that starts and
/// ends with the cursor outside emits exactly as many MouseLeft events as
/// MouseEntered events, one leave per entry.
pub proof fn lemma_enter_leave_alternate(s: Window, ms: Seq<OsMessage>)
    ensures
        count_mouse_entered(pump_events(s, ms)) + (if s.cursor_inside {
            1nat
        } else {
            0nat
        }) == count_mouse_left(pump_events(s, ms)) + (if pump_state(s, ms).cursor_inside {
            1nat
        } else {
            0nat
        }),
    decreases ms.len(),
{
    if ms.len() > 0 {
        lemma_enter_leave_alternate(s, ms.drop_last());
        let mid = pump_state(s, ms.drop_last());
        lemma_count_mouse_entered_add(pump_events(s, ms.drop_last()), step_events(mid, ms.last()));
        lemma_count_mouse_left_add(pump_events(s, ms.drop_last()), step_events(mid, ms.last()));
        lemma_count_mouse_entered_short(step_events(mid, ms.last()));
        lemma_count_mouse_left_short(step_events(mid, ms.last()));
    }
}

/// The trailing synthesis only ever adds Resized and Focused events, so the
/// full output of a pump holds exactly as many MouseEntered events as the
/// batch registered leave notifications.
pub proof fn lemma_enter_registration_full_output(s: Window, ms: Seq<OsMessage>)
    ensures
        count_mouse_entered(
            pump_events(s, ms) + synthesized_events(s, pump_state(s, ms)),
        ) == count_track_leave(pump_actions(s, ms)),
{
    let after = pump_state(s, ms);
    lemma_enter_registers_leave_tracking(s, ms);
    lemma_count_mouse_entered_add(pump_events(s, ms), synthesized_events(s, after));
    let sized: Seq<Event> = if after.width != s.width || after.height != s.height {
        seq![Event::Resized(after.width, after.height)]
    } else {
        Seq::empty()
    };
    let focused: Seq<Event> = if after.has_focus != s.has_focus {
        seq![Event::Focused(after.has_focus)]
    } else {
        Seq::empty()
    };
    lemma_count_mouse_entered_add(sized, focused);
    lemma_count_mouse_entered_short(sized);
    lemma_count_mouse_entered_short(focused);
}

impl Window {
    /// A window as recorded right after creation: the native handle and the
    /// initial client-area size; no focus notification has arrived yet and
    /// the cursor is outside.
    pub fn new(handle: u64, width: u32, height: u32) -> (w: Window)
        requires
            handle != 0,
        ensures
            w == (Window { handle, width, height, has_focus: false, cursor_inside: false }),
    {
        Window { handle, width, height, has_focus: false, cursor_inside: false }
    }

    /// The native window handle.
    pub fn hwnd(&self) -> (h: u64)
        ensures
            h == self.handle,
    {
        self.handle
    }

    /// The client-area size as of the last size notification.
    pub fn size(&self) -> (s: (u32, u32))
        ensures
            s.0 == self.width && s.1 == self.height,
    {
        (self.width, self.height)
    }

    /// Releases the native window: the handle becomes zero. Safe to call
    /// when creation never yielded a handle; it is a no-op then.
    pub fn destroy(&mut self)
        ensures
            *final(self) == (Window { handle: 0, ..*old(self) }),
    {
        self.handle = 0;
    }

    /// Drains one batch of pending messages: translates each message in
    /// order, then synthesizes the trailing Resized and Focused events from
    /// the state diff, exactly once each and only when something changed.
    pub fn pump(&mut self, messages: &Vec<OsMessage>) -> (out: PumpOutput)
        ensures
            *final(self) == pump_state(*old(self), messages@),
            out.events@ == pump_events(*old(self), messages@) + synthesized_events(
                *old(self),
                pump_state(*old(self), messages@),
            ),
            out.actions@ == pump_actions(*old(self), messages@),
    {
        let ghost s0 = *self;
        let old_width: u32 = self.width;
        let old_height: u32 = self.height;
        let old_focus: bool = self.has_focus;
        let mut events: Vec<Event> = Vec::new();
        let mut actions: Vec<PlatformAction> = Vec::new();
        let mut i: usize = 0;
        while i < messages.len()
            invariant
                i <= messages.len(),
                *self == pump_state(s0, messages@.take(i as int)),
                events@ == pump_events(s0, messages@.take(i as int)),
                actions@ == pump_actions(s0, messages@.take(i as int)),
            decreases messages.len() - i,
        {
            proof {
                assert(messages@.take(i + 1).drop_last() =~= messages@.take(i as int));
                assert(messages@.take(i + 1).last() == messages@[i as int]);
            }
            let message = messages[i];
            match message {
                OsMessage::Close => {
                    events.push(Event::CloseRequested);
                },
                OsMessage::Size(w, h) => {
                    self.width = w;
                    self.height = h;
                },
                OsMessage::Activate(f) => {
                    self.has_focus = f;
                },
                OsMessage::MouseMove(x, y) => {
                    if self.cursor_inside {
                        events.push(Event::MouseMoved(x, y));
                    } else {
                        self.cursor_inside = true;
                        events.push(Event::MouseEntered);
                        actions.push(PlatformAction::TrackMouseLeave);
                    }
                },
                OsMessage::MouseLeave => {
                    if self.cursor_inside {
                        self.cursor_inside = false;
                        events.push(Event::MouseLeft);
                    }
                },
                OsMessage::ButtonDown(b) => {
                    events.push(Event::MousePressed(b));
                },
                OsMessage::ButtonUp(b) => {
                    events.push(Event::MouseReleased(b));
                },
                OsMessage::Wheel(d) => {
                    events.push(Event::MouseWheel(d));
                },
                OsMessage::Text(c) => {
                    events.push(Event::CharacterEntered(c));
                },
                OsMessage::RawInput(frame) => {
                    match parse_key_frame(&frame) {
                        Some(stroke) => {
                            if stroke.released {
                                events.push(Event::KeyReleased(stroke.key, stroke.scan_code));
                            } else {
                                events.push(Event::KeyPressed(stroke.key, stroke.scan_code));
                            }
                        },
                        None => {},
                    }
                },
                OsMessage::SysKeyDown { virtual_key, keystroke_flags } => {
                    if virtual_key == VK_RETURN && keystroke_flags & 0x60000000 == 0x20000000 {
                        actions.push(PlatformAction::ToggleFullscreen);
                    }
                },
                OsMessage::SysMenu => {},
            }
            i += 1;
        }
        proof {
            assert(messages@.take(messages@.len() as int) =~= messages@);
        }
        if self.width != old_width || self.height != old_height {
            events.push(Event::Resized(self.width, self.height));
        }
        if self.has_focus != old_focus {
            events.push(Event::Focused(self.has_focus));
        }
        proof {
            assert(events@ =~= pump_events(s0, messages@) + synthesized_events(
                s0,
                pump_state(s0, messages@),
            ));
        }
        PumpOutput { events, actions }
    }
}

} // verus!
