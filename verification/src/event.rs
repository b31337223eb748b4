//! Events, their model, and how they are read from and written to raw
//! event records.

use vstd::prelude::*;

use crate::event_type::EventType;
use crate::keys::{key_code, scan_code, spec_key_code, spec_scan_code};
use crate::raw::{
    RAW_EVENT_SIZE, c_string_bytes, copy_bytes, i16_at, i32_at, i64_at, le_u32, push_u32,
    push_zeros, read_i16, read_i32, read_i64, read_u16, read_u32, read_u64, u16_at, u32_at,
    u64_at, zeros,
};
use crate::text::{lossy_utf8, utf8_lossy};
use crate::window_event::WindowEventId;

verus! {

/// Different event types.
///
/// Windows are named by their id; key codes and scan codes by SDL's
/// numbers for them, 0 for `Unknown`; modifier bits, mouse buttons and
/// states, hat states and controller axes and buttons by the numbers that
/// raw event records carry; 32-bit floats by their bit patterns.
#[derive(Clone, Debug, PartialEq)]
pub enum Event {
    /// No event.
    NoEvent,
    /// (timestamp)
    Quit(u32),
    AppTerminating(u32),
    AppLowMemory(u32),
    AppWillEnterBackground(u32),
    AppDidEnterBackground(u32),
    AppWillEnterForeground(u32),
    AppDidEnterForeground(u32),
    /// (timestamp, window id, window event id, data1, data2)
    Window(u32, u32, WindowEventId, i32, i32),
    /// (timestamp, window id, key code, scan code, key modifier bits, repeat);
    /// key and scan codes that SDL does not define are reported as 0, `Unknown`
    KeyDown(u32, u32, i32, u32, u16, bool),
    KeyUp(u32, u32, i32, u32, u16, bool),
    /// (timestamp, window id, text, start, length)
    TextEditing(u32, u32, String, i32, i32),
    /// (timestamp, window id, text)
    TextInput(u32, u32, String),
    /// (timestamp, window id, which, mouse button state bits, x, y, xrel, yrel)
    MouseMotion(u32, u32, u32, u32, i32, i32, i32, i32),
    /// (timestamp, window id, which, mouse button, x, y)
    MouseButtonDown(u32, u32, u32, u8, i32, i32),
    MouseButtonUp(u32, u32, u32, u8, i32, i32),
    /// (timestamp, window id, which, x, y)
    MouseWheel(u32, u32, u32, i32, i32),
    /// (timestamp, which, axis index, value)
    JoyAxisMotion(u32, i32, u8, i16),
    /// (timestamp, which, ball index, xrel, yrel)
    JoyBallMotion(u32, i32, u8, i16, i16),
    /// (timestamp, which, hat index, hat state bits)
    JoyHatMotion(u32, i32, u8, u8),
    /// (timestamp, which, button index)
    JoyButtonDown(u32, i32, u8),
    JoyButtonUp(u32, i32, u8),
    /// (timestamp, which)
    JoyDeviceAdded(u32, i32),
    JoyDeviceRemoved(u32, i32),
    /// (timestamp, which, axis, value)
    ControllerAxisMotion(u32, i32, u8, i16),
    /// (timestamp, which, button)
    ControllerButtonDown(u32, i32, u8),
    ControllerButtonUp(u32, i32, u8),
    /// (timestamp, which)
    ControllerDeviceAdded(u32, i32),
    ControllerDeviceRemoved(u32, i32),
    ControllerDeviceRemapped(u32, i32),
    /// (timestamp, touch id, finger id, x, y, dx, dy, pressure); the last five are
    /// the bit patterns of 32-bit floats
    FingerDown(u32, i64, i64, u32, u32, u32, u32, u32),
    FingerUp(u32, i64, i64, u32, u32, u32, u32, u32),
    FingerMotion(u32, i64, i64, u32, u32, u32, u32, u32),
    /// (timestamp, touch id, gesture id, number of fingers, error, x, y); the last
    /// three are the bit patterns of 32-bit floats
    DollarGesture(u32, i64, i64, u32, u32, u32, u32),
    DollarRecord(u32, i64, i64, u32, u32, u32, u32),
    /// (timestamp, touch id, dTheta, dDist, x, y, number of fingers); the four in
    /// between are the bit patterns of 32-bit floats
    MultiGesture(u32, i64, u32, u32, u32, u32, u16),
    /// (timestamp)
    ClipboardUpdate(u32),
    /// (timestamp, file name)
    DropFile(u32, String),
    /// (timestamp, window id, type, code)
    User(u32, u32, u32, i32),
}

/// The mathematical model of an [`Event`]: the same variants, with text
/// as a sequence of characters.
pub enum EventView {
    NoEvent,
    Quit(u32),
    AppTerminating(u32),
    AppLowMemory(u32),
    AppWillEnterBackground(u32),
    AppDidEnterBackground(u32),
    AppWillEnterForeground(u32),
    AppDidEnterForeground(u32),
    Window(u32, u32, WindowEventId, i32, i32),
    KeyDown(u32, u32, i32, u32, u16, bool),
    KeyUp(u32, u32, i32, u32, u16, bool),
    TextEditing(u32, u32, Seq<char>, i32, i32),
    TextInput(u32, u32, Seq<char>),
    MouseMotion(u32, u32, u32, u32, i32, i32, i32, i32),
    MouseButtonDown(u32, u32, u32, u8, i32, i32),
    MouseButtonUp(u32, u32, u32, u8, i32, i32),
    MouseWheel(u32, u32, u32, i32, i32),
    JoyAxisMotion(u32, i32, u8, i16),
    JoyBallMotion(u32, i32, u8, i16, i16),
    JoyHatMotion(u32, i32, u8, u8),
    JoyButtonDown(u32, i32, u8),
    JoyButtonUp(u32, i32, u8),
    JoyDeviceAdded(u32, i32),
    JoyDeviceRemoved(u32, i32),
    ControllerAxisMotion(u32, i32, u8, i16),
    ControllerButtonDown(u32, i32, u8),
    ControllerButtonUp(u32, i32, u8),
    ControllerDeviceAdded(u32, i32),
    ControllerDeviceRemoved(u32, i32),
    ControllerDeviceRemapped(u32, i32),
    FingerDown(u32, i64, i64, u32, u32, u32, u32, u32),
    FingerUp(u32, i64, i64, u32, u32, u32, u32, u32),
    FingerMotion(u32, i64, i64, u32, u32, u32, u32, u32),
    DollarGesture(u32, i64, i64, u32, u32, u32, u32),
    DollarRecord(u32, i64, i64, u32, u32, u32, u32),
    MultiGesture(u32, i64, u32, u32, u32, u32, u16),
    ClipboardUpdate(u32),
    DropFile(u32, Seq<char>),
    User(u32, u32, u32, i32),
}

impl View for Event {
    type V = EventView;

    open spec fn view(&self) -> EventView {
        match self {
            Event::NoEvent => EventView::NoEvent,
            Event::Quit(x0) => EventView::Quit(*x0),
            Event::AppTerminating(x0) => EventView::AppTerminating(*x0),
            Event::AppLowMemory(x0) => EventView::AppLowMemory(*x0),
            Event::AppWillEnterBackground(x0) => EventView::AppWillEnterBackground(*x0),
            Event::AppDidEnterBackground(x0) => EventView::AppDidEnterBackground(*x0),
            Event::AppWillEnterForeground(x0) => EventView::AppWillEnterForeground(*x0),
            Event::AppDidEnterForeground(x0) => EventView::AppDidEnterForeground(*x0),
            Event::Window(x0, x1, x2, x3, x4) => EventView::Window(*x0, *x1, *x2, *x3, *x4),
            Event::KeyDown(x0, x1, x2, x3, x4, x5) => {
                EventView::KeyDown(*x0, *x1, *x2, *x3, *x4, *x5)
            },
            Event::KeyUp(x0, x1, x2, x3, x4, x5) => EventView::KeyUp(*x0, *x1, *x2, *x3, *x4, *x5),
            Event::TextEditing(x0, x1, x2, x3, x4) => {
                EventView::TextEditing(*x0, *x1, x2@, *x3, *x4)
            },
            Event::TextInput(x0, x1, x2) => EventView::TextInput(*x0, *x1, x2@),
            Event::MouseMotion(x0, x1, x2, x3, x4, x5, x6, x7) => {
                EventView::MouseMotion(*x0, *x1, *x2, *x3, *x4, *x5, *x6, *x7)
            },
            Event::MouseButtonDown(x0, x1, x2, x3, x4, x5) => {
                EventView::MouseButtonDown(*x0, *x1, *x2, *x3, *x4, *x5)
            },
            Event::MouseButtonUp(x0, x1, x2, x3, x4, x5) => {
                EventView::MouseButtonUp(*x0, *x1, *x2, *x3, *x4, *x5)
            },
            Event::MouseWheel(x0, x1, x2, x3, x4) => EventView::MouseWheel(*x0, *x1, *x2, *x3, *x4),
            Event::JoyAxisMotion(x0, x1, x2, x3) => EventView::JoyAxisMotion(*x0, *x1, *x2, *x3),
            Event::JoyBallMotion(x0, x1, x2, x3, x4) => {
                EventView::JoyBallMotion(*x0, *x1, *x2, *x3, *x4)
            },
            Event::JoyHatMotion(x0, x1, x2, x3) => EventView::JoyHatMotion(*x0, *x1, *x2, *x3),
            Event::JoyButtonDown(x0, x1, x2) => EventView::JoyButtonDown(*x0, *x1, *x2),
            Event::JoyButtonUp(x0, x1, x2) => EventView::JoyButtonUp(*x0, *x1, *x2),
            Event::JoyDeviceAdded(x0, x1) => EventView::JoyDeviceAdded(*x0, *x1),
            Event::JoyDeviceRemoved(x0, x1) => EventView::JoyDeviceRemoved(*x0, *x1),
            Event::ControllerAxisMotion(x0, x1, x2, x3) => {
                EventView::ControllerAxisMotion(*x0, *x1, *x2, *x3)
            },
            Event::ControllerButtonDown(x0, x1, x2) => {
                EventView::ControllerButtonDown(*x0, *x1, *x2)
            },
            Event::ControllerButtonUp(x0, x1, x2) => EventView::ControllerButtonUp(*x0, *x1, *x2),
            Event::ControllerDeviceAdded(x0, x1) => EventView::ControllerDeviceAdded(*x0, *x1),
            Event::ControllerDeviceRemoved(x0, x1) => EventView::ControllerDeviceRemoved(*x0, *x1),
            Event::ControllerDeviceRemapped(x0, x1) => {
                EventView::ControllerDeviceRemapped(*x0, *x1)
            },
            Event::FingerDown(x0, x1, x2, x3, x4, x5, x6, x7) => {
                EventView::FingerDown(*x0, *x1, *x2, *x3, *x4, *x5, *x6, *x7)
            },
            Event::FingerUp(x0, x1, x2, x3, x4, x5, x6, x7) => {
                EventView::FingerUp(*x0, *x1, *x2, *x3, *x4, *x5, *x6, *x7)
            },
            Event::FingerMotion(x0, x1, x2, x3, x4, x5, x6, x7) => {
                EventView::FingerMotion(*x0, *x1, *x2, *x3, *x4, *x5, *x6, *x7)
            },
            Event::DollarGesture(x0, x1, x2, x3, x4, x5, x6) => {
                EventView::DollarGesture(*x0, *x1, *x2, *x3, *x4, *x5, *x6)
            },
            Event::DollarRecord(x0, x1, x2, x3, x4, x5, x6) => {
                EventView::DollarRecord(*x0, *x1, *x2, *x3, *x4, *x5, *x6)
            },
            Event::MultiGesture(x0, x1, x2, x3, x4, x5, x6) => {
                EventView::MultiGesture(*x0, *x1, *x2, *x3, *x4, *x5, *x6)
            },
            Event::ClipboardUpdate(x0) => EventView::ClipboardUpdate(*x0),
            Event::DropFile(x0, x1) => EventView::DropFile(*x0, x1@),
            Event::User(x0, x1, x2, x3) => EventView::User(*x0, *x1, *x2, *x3),
        }
    }
}

/// The kind of event that a raw record holds: the kind its type field
/// names, and `User` where that number names no kind.
pub open spec fn spec_kind(r: Seq<u8>) -> EventType {
    match EventType::spec_from_u32(u32_at(r, 0)) {
        Some(k) => k,
        None => EventType::User,
    }
}

/// Whether the event in a raw record names a window that must exist for
/// the event to be delivered, and which one.
pub open spec fn spec_window_to_look_up(r: Seq<u8>) -> Option<u32> {
    match spec_kind(r) {
        EventType::Window | EventType::KeyDown | EventType::KeyUp | EventType::TextEditing
        | EventType::TextInput | EventType::MouseMotion | EventType::MouseButtonDown
        | EventType::MouseButtonUp | EventType::MouseWheel => Some(u32_at(r, 8)),
        EventType::User => if u32_at(r, 0) >= 0x8000 {
            Some(u32_at(r, 8))
        } else {
            None
        },
        _ => None,
    }
}

/// The bytes from which the text of an event is made: the C string in
/// the text field of text events, the file name (read by the caller from
/// the record's pointer) for dropped files, nothing for other events.
pub open spec fn spec_text_source(r: Seq<u8>, dropped_file: Seq<u8>) -> Seq<u8> {
    match spec_kind(r) {
        EventType::TextEditing | EventType::TextInput => crate::raw::take_until_nul(
            r.subrange(12, 44),
        ),
        EventType::DropFile => dropped_file,
        _ => Seq::empty(),
    }
}

/// The raw records that can be decoded without a panic: 56 bytes long;
/// the key modifier bits of a key event whose window exists hold no bit
/// outside the known modifiers; the state of a hat event holds no bit
/// outside the four directions.
pub open spec fn spec_decodable(r: Seq<u8>, window_found: bool) -> bool {
    &&& r.len() == RAW_EVENT_SIZE
    &&& (window_found && (spec_kind(r) == EventType::KeyDown || spec_kind(r) == EventType::KeyUp))
        ==> u16_at(r, 24) & 0x3Cu16 == 0
    &&& spec_kind(r) == EventType::JoyHatMotion ==> r[13] < 16
}

/// The event that a raw record holds, given whether the window it names
/// exists and the text made for it.
pub open spec fn spec_decode(r: Seq<u8>, window_found: bool, text: Seq<char>) -> EventView {
    let code = u32_at(r, 0);
    match spec_kind(r) {
        EventType::Quit => EventView::Quit(u32_at(r, 4)),
        EventType::AppTerminating => EventView::AppTerminating(u32_at(r, 4)),
        EventType::AppLowMemory => EventView::AppLowMemory(u32_at(r, 4)),
        EventType::AppWillEnterBackground => EventView::AppWillEnterBackground(u32_at(r, 4)),
        EventType::AppDidEnterBackground => EventView::AppDidEnterBackground(u32_at(r, 4)),
        EventType::AppWillEnterForeground => EventView::AppWillEnterForeground(u32_at(r, 4)),
        EventType::AppDidEnterForeground => EventView::AppDidEnterForeground(u32_at(r, 4)),
        EventType::Window => if window_found {
            EventView::Window(
                u32_at(r, 4),
                u32_at(r, 8),
                WindowEventId::spec_from_ll(r[12]),
                i32_at(r, 16),
                i32_at(r, 20),
            )
        } else {
            EventView::NoEvent
        },
        EventType::KeyDown => if window_found {
            EventView::KeyDown(
                u32_at(r, 4),
                u32_at(r, 8),
                spec_key_code(i32_at(r, 20)),
                spec_scan_code(u32_at(r, 16)),
                u16_at(r, 24),
                r[13] != 0,
            )
        } else {
            EventView::NoEvent
        },
        EventType::KeyUp => if window_found {
            EventView::KeyUp(
                u32_at(r, 4),
                u32_at(r, 8),
                spec_key_code(i32_at(r, 20)),
                spec_scan_code(u32_at(r, 16)),
                u16_at(r, 24),
                r[13] != 0,
            )
        } else {
            EventView::NoEvent
        },
        EventType::TextEditing => if window_found {
            EventView::TextEditing(
                u32_at(r, 4),
                u32_at(r, 8),
                text,
                i32_at(r, 44),
                i32_at(r, 48),
            )
        } else {
            EventView::NoEvent
        },
        EventType::TextInput => if window_found {
            EventView::TextInput(u32_at(r, 4), u32_at(r, 8), text)
        } else {
            EventView::NoEvent
        },
        EventType::MouseMotion => if window_found {
            EventView::MouseMotion(
                u32_at(r, 4),
                u32_at(r, 8),
                u32_at(r, 12),
                u32_at(r, 16) & 0x1F,
                i32_at(r, 20),
                i32_at(r, 24),
                i32_at(r, 28),
                i32_at(r, 32),
            )
        } else {
            EventView::NoEvent
        },
        EventType::MouseButtonDown => if window_found {
            EventView::MouseButtonDown(
                u32_at(r, 4),
                u32_at(r, 8),
                u32_at(r, 12),
                r[16],
                i32_at(r, 20),
                i32_at(r, 24),
            )
        } else {
            EventView::NoEvent
        },
        EventType::MouseButtonUp => if window_found {
            EventView::MouseButtonUp(
                u32_at(r, 4),
                u32_at(r, 8),
                u32_at(r, 12),
                r[16],
                i32_at(r, 20),
                i32_at(r, 24),
            )
        } else {
            EventView::NoEvent
        },
        EventType::MouseWheel => if window_found {
            EventView::MouseWheel(
                u32_at(r, 4),
                u32_at(r, 8),
                u32_at(r, 12),
                i32_at(r, 16),
                i32_at(r, 20),
            )
        } else {
            EventView::NoEvent
        },
        EventType::JoyAxisMotion => EventView::JoyAxisMotion(
                u32_at(r, 4),
                i32_at(r, 8),
                r[12],
                i16_at(r, 16),
            ),
        EventType::JoyBallMotion => EventView::JoyBallMotion(
                u32_at(r, 4),
                i32_at(r, 8),
                r[12],
                i16_at(r, 16),
                i16_at(r, 18),
            ),
        EventType::JoyHatMotion => EventView::JoyHatMotion(
                u32_at(r, 4),
                i32_at(r, 8),
                r[12],
                r[13],
            ),
        EventType::JoyButtonDown => EventView::JoyButtonDown(u32_at(r, 4), i32_at(r, 8), r[12]),
        EventType::JoyButtonUp => EventView::JoyButtonUp(u32_at(r, 4), i32_at(r, 8), r[12]),
        EventType::JoyDeviceAdded => EventView::JoyDeviceAdded(u32_at(r, 4), i32_at(r, 8)),
        EventType::JoyDeviceRemoved => EventView::JoyDeviceRemoved(u32_at(r, 4), i32_at(r, 8)),
        EventType::ControllerAxisMotion => EventView::ControllerAxisMotion(
                u32_at(r, 4),
                i32_at(r, 8),
                r[12],
                i16_at(r, 16),
            ),
        EventType::ControllerButtonDown => EventView::ControllerButtonDown(
                u32_at(r, 4),
                i32_at(r, 8),
                r[12],
            ),
        EventType::ControllerButtonUp => EventView::ControllerButtonUp(
                u32_at(r, 4),
                i32_at(r, 8),
                r[12],
            ),
        EventType::ControllerDeviceAdded => EventView::ControllerDeviceAdded(
                u32_at(r, 4),
                i32_at(r, 8),
            ),
        EventType::ControllerDeviceRemoved => EventView::ControllerDeviceRemoved(
                u32_at(r, 4),
                i32_at(r, 8),
            ),
        EventType::ControllerDeviceRemapped => EventView::ControllerDeviceRemapped(
                u32_at(r, 4),
                i32_at(r, 8),
            ),
        EventType::FingerDown => EventView::FingerDown(
                u32_at(r, 4),
                i64_at(r, 8),
                i64_at(r, 16),
                u32_at(r, 24),
                u32_at(r, 28),
                u32_at(r, 32),
                u32_at(r, 36),
                u32_at(r, 40),
            ),
        EventType::FingerUp => EventView::FingerUp(
                u32_at(r, 4),
                i64_at(r, 8),
                i64_at(r, 16),
                u32_at(r, 24),
                u32_at(r, 28),
                u32_at(r, 32),
                u32_at(r, 36),
                u32_at(r, 40),
            ),
        EventType::FingerMotion => EventView::FingerMotion(
                u32_at(r, 4),
                i64_at(r, 8),
                i64_at(r, 16),
                u32_at(r, 24),
                u32_at(r, 28),
                u32_at(r, 32),
                u32_at(r, 36),
                u32_at(r, 40),
            ),
        EventType::DollarGesture => EventView::DollarGesture(
                u32_at(r, 4),
                i64_at(r, 8),
                i64_at(r, 16),
                u32_at(r, 24),
                u32_at(r, 28),
                u32_at(r, 32),
                u32_at(r, 36),
            ),
        EventType::DollarRecord => EventView::DollarRecord(
                u32_at(r, 4),
                i64_at(r, 8),
                i64_at(r, 16),
                u32_at(r, 24),
                u32_at(r, 28),
                u32_at(r, 32),
                u32_at(r, 36),
            ),
        EventType::MultiGesture => EventView::MultiGesture(
                u32_at(r, 4),
                i64_at(r, 8),
                u32_at(r, 16),
                u32_at(r, 20),
                u32_at(r, 24),
                u32_at(r, 28),
                u16_at(r, 32),
            ),
        EventType::ClipboardUpdate => EventView::ClipboardUpdate(u32_at(r, 4)),
        EventType::DropFile => EventView::DropFile(u32_at(r, 4), text),
        EventType::First | EventType::Last => EventView::NoEvent,
        EventType::User => if code < 0x8000 || !window_found {
            EventView::NoEvent
        } else {
            EventView::User(u32_at(r, 4), u32_at(r, 8), code, i32_at(r, 12))
        },
    }
}

/// The name under which an event is shown, `Event::` and its variant.
pub open spec fn spec_name(e: EventView) -> Seq<char> {
    match e {
        EventView::NoEvent => "Event::None"@,
        EventView::Quit(..) => "Event::Quit"@,
        EventView::AppTerminating(..) => "Event::AppTerminating"@,
        EventView::AppLowMemory(..) => "Event::AppLowMemory"@,
        EventView::AppWillEnterBackground(..) => "Event::AppWillEnterBackground"@,
        EventView::AppDidEnterBackground(..) => "Event::AppDidEnterBackground"@,
        EventView::AppWillEnterForeground(..) => "Event::AppWillEnterForeground"@,
        EventView::AppDidEnterForeground(..) => "Event::AppDidEnterForeground"@,
        EventView::Window(..) => "Event::Window"@,
        EventView::KeyDown(..) => "Event::KeyDown"@,
        EventView::KeyUp(..) => "Event::KeyUp"@,
        EventView::TextEditing(..) => "Event::TextEditing"@,
        EventView::TextInput(..) => "Event::TextInput"@,
        EventView::MouseMotion(..) => "Event::MouseMotion"@,
        EventView::MouseButtonDown(..) => "Event::MouseButtonDown"@,
        EventView::MouseButtonUp(..) => "Event::MouseButtonUp"@,
        EventView::MouseWheel(..) => "Event::MouseWheel"@,
        EventView::JoyAxisMotion(..) => "Event::JoyAxisMotion"@,
        EventView::JoyBallMotion(..) => "Event::JoyBallMotion"@,
        EventView::JoyHatMotion(..) => "Event::JoyHatMotion"@,
        EventView::JoyButtonDown(..) => "Event::JoyButtonDown"@,
        EventView::JoyButtonUp(..) => "Event::JoyButtonUp"@,
        EventView::JoyDeviceAdded(..) => "Event::JoyDeviceAdded"@,
        EventView::JoyDeviceRemoved(..) => "Event::JoyDeviceRemoved"@,
        EventView::ControllerAxisMotion(..) => "Event::ControllerAxisMotion"@,
        EventView::ControllerButtonDown(..) => "Event::ControllerButtonDown"@,
        EventView::ControllerButtonUp(..) => "Event::ControllerButtonUp"@,
        EventView::ControllerDeviceAdded(..) => "Event::ControllerDeviceAdded"@,
        EventView::ControllerDeviceRemoved(..) => "Event::ControllerDeviceRemoved"@,
        EventView::ControllerDeviceRemapped(..) => "Event::ControllerDeviceRemapped"@,
        EventView::FingerDown(..) => "Event::FingerDown"@,
        EventView::FingerUp(..) => "Event::FingerUp"@,
        EventView::FingerMotion(..) => "Event::FingerMotion"@,
        EventView::DollarGesture(..) => "Event::DollarGesture"@,
        EventView::DollarRecord(..) => "Event::DollarRecord"@,
        EventView::MultiGesture(..) => "Event::MultiGesture"@,
        EventView::ClipboardUpdate(..) => "Event::ClipboardUpdate"@,
        EventView::DropFile(..) => "Event::DropFile"@,
        EventView::User(..) => "Event::User"@,
    }
}

/// The kind of an event; no kind for `NoEvent`.
pub open spec fn spec_event_kind(e: EventView) -> Option<EventType> {
    match e {
        EventView::NoEvent => None,
        EventView::Quit(..) => Some(EventType::Quit),
        EventView::AppTerminating(..) => Some(EventType::AppTerminating),
        EventView::AppLowMemory(..) => Some(EventType::AppLowMemory),
        EventView::AppWillEnterBackground(..) => Some(EventType::AppWillEnterBackground),
        EventView::AppDidEnterBackground(..) => Some(EventType::AppDidEnterBackground),
        EventView::AppWillEnterForeground(..) => Some(EventType::AppWillEnterForeground),
        EventView::AppDidEnterForeground(..) => Some(EventType::AppDidEnterForeground),
        EventView::Window(..) => Some(EventType::Window),
        EventView::KeyDown(..) => Some(EventType::KeyDown),
        EventView::KeyUp(..) => Some(EventType::KeyUp),
        EventView::TextEditing(..) => Some(EventType::TextEditing),
        EventView::TextInput(..) => Some(EventType::TextInput),
        EventView::MouseMotion(..) => Some(EventType::MouseMotion),
        EventView::MouseButtonDown(..) => Some(EventType::MouseButtonDown),
        EventView::MouseButtonUp(..) => Some(EventType::MouseButtonUp),
        EventView::MouseWheel(..) => Some(EventType::MouseWheel),
        EventView::JoyAxisMotion(..) => Some(EventType::JoyAxisMotion),
        EventView::JoyBallMotion(..) => Some(EventType::JoyBallMotion),
        EventView::JoyHatMotion(..) => Some(EventType::JoyHatMotion),
        EventView::JoyButtonDown(..) => Some(EventType::JoyButtonDown),
        EventView::JoyButtonUp(..) => Some(EventType::JoyButtonUp),
        EventView::JoyDeviceAdded(..) => Some(EventType::JoyDeviceAdded),
        EventView::JoyDeviceRemoved(..) => Some(EventType::JoyDeviceRemoved),
        EventView::ControllerAxisMotion(..) => Some(EventType::ControllerAxisMotion),
        EventView::ControllerButtonDown(..) => Some(EventType::ControllerButtonDown),
        EventView::ControllerButtonUp(..) => Some(EventType::ControllerButtonUp),
        EventView::ControllerDeviceAdded(..) => Some(EventType::ControllerDeviceAdded),
        EventView::ControllerDeviceRemoved(..) => Some(EventType::ControllerDeviceRemoved),
        EventView::ControllerDeviceRemapped(..) => Some(EventType::ControllerDeviceRemapped),
        EventView::FingerDown(..) => Some(EventType::FingerDown),
        EventView::FingerUp(..) => Some(EventType::FingerUp),
        EventView::FingerMotion(..) => Some(EventType::FingerMotion),
        EventView::DollarGesture(..) => Some(EventType::DollarGesture),
        EventView::DollarRecord(..) => Some(EventType::DollarRecord),
        EventView::MultiGesture(..) => Some(EventType::MultiGesture),
        EventView::ClipboardUpdate(..) => Some(EventType::ClipboardUpdate),
        EventView::DropFile(..) => Some(EventType::DropFile),
        EventView::User(..) => Some(EventType::User),
    }
}

/// The raw record of a user event: its type, a zero timestamp, its window
/// id, its code, null data pointers, and zero bytes to the end.
pub open spec fn spec_user_record(typ: u32, window: u32, code: i32) -> Seq<u8> {
    le_u32(typ) + le_u32(0) + le_u32(window) + le_u32(code as u32) + zeros(40)
}

/// The raw record that an event is written to: only user events have
/// one.
pub open spec fn spec_to_ll(e: EventView) -> Option<Seq<u8>> {
    match e {
        EventView::User(_, window, typ, code) => Some(spec_user_record(typ, window, code)),
        _ => None,
    }
}

/// The kind of event that a raw record holds.
pub fn raw_kind(raw: &[u8]) -> (k: EventType)
    requires
        raw@.len() == RAW_EVENT_SIZE,
    ensures
        k == spec_kind(raw@),
{
    match EventType::from_u32(read_u32(raw, 0)) {
        Some(k) => k,
        None => EventType::User,
    }
}

/// The window that must exist for the event in a raw record to be
/// delivered, if the event names one.
pub fn window_to_look_up(raw: &[u8]) -> (w: Option<u32>)
    requires
        raw@.len() == RAW_EVENT_SIZE,
    ensures
        w == spec_window_to_look_up(raw@),
{
    let kind = raw_kind(raw);
    match kind {
        EventType::Window | EventType::KeyDown | EventType::KeyUp | EventType::TextEditing
        | EventType::TextInput | EventType::MouseMotion | EventType::MouseButtonDown
        | EventType::MouseButtonUp | EventType::MouseWheel => Some(read_u32(raw, 8)),
        EventType::User => if read_u32(raw, 0) >= 0x8000 {
            Some(read_u32(raw, 8))
        } else {
            None
        },
        _ => None,
    }
}

/// The address of the file name that a dropped-file record points to; the
/// caller reads the name there and frees it.
pub fn dropped_file_address(raw: &[u8]) -> (a: Option<u64>)
    requires
        raw@.len() == RAW_EVENT_SIZE,
    ensures
        a == (if spec_kind(raw@) == EventType::DropFile {
            Some(u64_at(raw@, 8))
        } else {
            None
        }),
{
    if raw_kind(raw) == EventType::DropFile {
        Some(read_u64(raw, 8))
    } else {
        None
    }
}

/// Whether a raw record can be decoded (see [`spec_decodable`]).
pub fn is_decodable(raw: &[u8], window_found: bool) -> (b: bool)
    ensures
        b == spec_decodable(raw@, window_found),
{
    if raw.len() != RAW_EVENT_SIZE {
        return false;
    }
    let kind = raw_kind(raw);
    if window_found && (kind == EventType::KeyDown || kind == EventType::KeyUp) && read_u16(raw, 24)
        & 0x3Cu16 != 0 {
        return false;
    }
    if kind == EventType::JoyHatMotion && raw[13] >= 16 {
        return false;
    }
    true
}

/// The bytes from which the text of the event in a raw record is made.
pub fn text_source(raw: &[u8], dropped_file: &[u8]) -> (t: Vec<u8>)
    requires
        raw@.len() == RAW_EVENT_SIZE,
    ensures
        t@ == spec_text_source(raw@, dropped_file@),
{
    match raw_kind(raw) {
        EventType::TextEditing | EventType::TextInput => c_string_bytes(raw, 12, 44),
        EventType::DropFile => copy_bytes(dropped_file),
        _ => Vec::new(),
    }
}

impl Event {
    /// Decodes a raw record, given whether the window it names exists
    /// and the text made for it.
    #[verifier::rlimit(50)]
    pub fn from_ll_decoded(raw: &[u8], window_found: bool, text: String) -> (e: Event)
        requires
            spec_decodable(raw@, window_found),
        ensures
            e@ == spec_decode(raw@, window_found, text@),
    {
        let code = read_u32(raw, 0);
        let kind = raw_kind(raw);
        match kind {
            EventType::Quit => Event::Quit(read_u32(raw, 4)),
            EventType::AppTerminating => Event::AppTerminating(read_u32(raw, 4)),
            EventType::AppLowMemory => Event::AppLowMemory(read_u32(raw, 4)),
            EventType::AppWillEnterBackground => Event::AppWillEnterBackground(
                    read_u32(raw, 4),
                ),
            EventType::AppDidEnterBackground => Event::AppDidEnterBackground(read_u32(raw, 4)),
            EventType::AppWillEnterForeground => Event::AppWillEnterForeground(
                    read_u32(raw, 4),
                ),
            EventType::AppDidEnterForeground => Event::AppDidEnterForeground(read_u32(raw, 4)),
            EventType::Window => if window_found {
                Event::Window(
                    read_u32(raw, 4),
                    read_u32(raw, 8),
                    WindowEventId::from_ll(raw[12]),
                    read_i32(raw, 16),
                    read_i32(raw, 20),
                )
            } else {
                Event::NoEvent
            },
            EventType::KeyDown => if window_found {
                Event::KeyDown(
                    read_u32(raw, 4),
                    read_u32(raw, 8),
                    key_code(read_i32(raw, 20)),
                    scan_code(read_u32(raw, 16)),
                    read_u16(raw, 24),
                    raw[13] != 0,
                )
            } else {
                Event::NoEvent
            },
            EventType::KeyUp => if window_found {
                Event::KeyUp(
                    read_u32(raw, 4),
                    read_u32(raw, 8),
                    key_code(read_i32(raw, 20)),
                    scan_code(read_u32(raw, 16)),
                    read_u16(raw, 24),
                    raw[13] != 0,
                )
            } else {
                Event::NoEvent
            },
            EventType::TextEditing => if window_found {
                Event::TextEditing(
                    read_u32(raw, 4),
                    read_u32(raw, 8),
                    text,
                    read_i32(raw, 44),
                    read_i32(raw, 48),
                )
            } else {
                Event::NoEvent
            },
            EventType::TextInput => if window_found {
                Event::TextInput(read_u32(raw, 4), read_u32(raw, 8), text)
            } else {
                Event::NoEvent
            },
            EventType::MouseMotion => if window_found {
                Event::MouseMotion(
                    read_u32(raw, 4),
                    read_u32(raw, 8),
                    read_u32(raw, 12),
                    read_u32(raw, 16) & 0x1F,
                    read_i32(raw, 20),
                    read_i32(raw, 24),
                    read_i32(raw, 28),
                    read_i32(raw, 32),
                )
            } else {
                Event::NoEvent
            },
            EventType::MouseButtonDown => if window_found {
                Event::MouseButtonDown(
                    read_u32(raw, 4),
                    read_u32(raw, 8),
                    read_u32(raw, 12),
                    raw[16],
                    read_i32(raw, 20),
                    read_i32(raw, 24),
                )
            } else {
                Event::NoEvent
            },
            EventType::MouseButtonUp => if window_found {
                Event::MouseButtonUp(
                    read_u32(raw, 4),
                    read_u32(raw, 8),
                    read_u32(raw, 12),
                    raw[16],
                    read_i32(raw, 20),
                    read_i32(raw, 24),
                )
            } else {
                Event::NoEvent
            },
            EventType::MouseWheel => if window_found {
                Event::MouseWheel(
                    read_u32(raw, 4),
                    read_u32(raw, 8),
                    read_u32(raw, 12),
                    read_i32(raw, 16),
                    read_i32(raw, 20),
                )
            } else {
                Event::NoEvent
            },
            EventType::JoyAxisMotion => Event::JoyAxisMotion(
                    read_u32(raw, 4),
                    read_i32(raw, 8),
                    raw[12],
                    read_i16(raw, 16),
                ),
            EventType::JoyBallMotion => Event::JoyBallMotion(
                    read_u32(raw, 4),
                    read_i32(raw, 8),
                    raw[12],
                    read_i16(raw, 16),
                    read_i16(raw, 18),
                ),
            EventType::JoyHatMotion => Event::JoyHatMotion(
                    read_u32(raw, 4),
                    read_i32(raw, 8),
                    raw[12],
                    raw[13],
                ),
            EventType::JoyButtonDown => Event::JoyButtonDown(
                    read_u32(raw, 4),
                    read_i32(raw, 8),
                    raw[12],
                ),
            EventType::JoyButtonUp => Event::JoyButtonUp(
                    read_u32(raw, 4),
                    read_i32(raw, 8),
                    raw[12],
                ),
            EventType::JoyDeviceAdded => Event::JoyDeviceAdded(
                    read_u32(raw, 4),
                    read_i32(raw, 8),
                ),
            EventType::JoyDeviceRemoved => Event::JoyDeviceRemoved(
                    read_u32(raw, 4),
                    read_i32(raw, 8),
                ),
            EventType::ControllerAxisMotion => Event::ControllerAxisMotion(
                    read_u32(raw, 4),
                    read_i32(raw, 8),
                    raw[12],
                    read_i16(raw, 16),
                ),
            EventType::ControllerButtonDown => Event::ControllerButtonDown(
                    read_u32(raw, 4),
                    read_i32(raw, 8),
                    raw[12],
                ),
            EventType::ControllerButtonUp => Event::ControllerButtonUp(
                    read_u32(raw, 4),
                    read_i32(raw, 8),
                    raw[12],
                ),
            EventType::ControllerDeviceAdded => Event::ControllerDeviceAdded(
                    read_u32(raw, 4),
                    read_i32(raw, 8),
                ),
            EventType::ControllerDeviceRemoved => Event::ControllerDeviceRemoved(
                    read_u32(raw, 4),
                    read_i32(raw, 8),
                ),
            EventType::ControllerDeviceRemapped => Event::ControllerDeviceRemapped(
                    read_u32(raw, 4),
                    read_i32(raw, 8),
                ),
            EventType::FingerDown => Event::FingerDown(
                    read_u32(raw, 4),
                    read_i64(raw, 8),
                    read_i64(raw, 16),
                    read_u32(raw, 24),
                    read_u32(raw, 28),
                    read_u32(raw, 32),
                    read_u32(raw, 36),
                    read_u32(raw, 40),
                ),
            EventType::FingerUp => Event::FingerUp(
                    read_u32(raw, 4),
                    read_i64(raw, 8),
                    read_i64(raw, 16),
                    read_u32(raw, 24),
                    read_u32(raw, 28),
                    read_u32(raw, 32),
                    read_u32(raw, 36),
                    read_u32(raw, 40),
                ),
            EventType::FingerMotion => Event::FingerMotion(
                    read_u32(raw, 4),
                    read_i64(raw, 8),
                    read_i64(raw, 16),
                    read_u32(raw, 24),
                    read_u32(raw, 28),
                    read_u32(raw, 32),
                    read_u32(raw, 36),
                    read_u32(raw, 40),
                ),
            EventType::DollarGesture => Event::DollarGesture(
                    read_u32(raw, 4),
                    read_i64(raw, 8),
                    read_i64(raw, 16),
                    read_u32(raw, 24),
                    read_u32(raw, 28),
                    read_u32(raw, 32),
                    read_u32(raw, 36),
                ),
            EventType::DollarRecord => Event::DollarRecord(
                    read_u32(raw, 4),
                    read_i64(raw, 8),
                    read_i64(raw, 16),
                    read_u32(raw, 24),
                    read_u32(raw, 28),
                    read_u32(raw, 32),
                    read_u32(raw, 36),
                ),
            EventType::MultiGesture => Event::MultiGesture(
                    read_u32(raw, 4),
                    read_i64(raw, 8),
                    read_u32(raw, 16),
                    read_u32(raw, 20),
                    read_u32(raw, 24),
                    read_u32(raw, 28),
                    read_u16(raw, 32),
                ),
            EventType::ClipboardUpdate => Event::ClipboardUpdate(read_u32(raw, 4)),
            EventType::DropFile => Event::DropFile(read_u32(raw, 4), text),
            EventType::First | EventType::Last => Event::NoEvent,
            EventType::User => if code < 0x8000 || !window_found {
                Event::NoEvent
            } else {
                Event::User(
                    read_u32(raw, 4),
                    read_u32(raw, 8),
                    code,
                    read_i32(raw, 12),
                )
            },
        }
    }

    /// Decodes a raw record, given whether the window it names exists
    /// and, for a dropped file, the bytes of the file name.
    pub fn from_ll(raw: &[u8], window_found: bool, dropped_file: &[u8]) -> (e: Event)
        requires
            spec_decodable(raw@, window_found),
        ensures
            e@ == spec_decode(
                raw@,
                window_found,
                lossy_utf8(spec_text_source(raw@, dropped_file@)),
            ),
    {
        let bytes = text_source(raw, dropped_file);
        let text = utf8_lossy(bytes.as_slice());
        Event::from_ll_decoded(raw, window_found, text)
    }

    /// Writes a user event to a raw record, with a zero timestamp; other
    /// events have none.
    pub fn to_ll(&self) -> (r: Option<Vec<u8>>)
        ensures
            r matches Some(b) ==> spec_to_ll(self@) == Some(b@),
            r is None <==> spec_to_ll(self@) is None,
    {
        match self {
            Event::User(_, window, typ, code) => {
                let mut out: Vec<u8> = Vec::new();
                push_u32(&mut out, *typ);
                push_u32(&mut out, 0);
                push_u32(&mut out, *window);
                push_u32(&mut out, *code as u32);
                push_zeros(&mut out, 40);
                Some(out)
            },
            _ => None,
        }
    }

    /// The name under which the event is shown.
    pub fn name(&self) -> (s: String)
        ensures
            s@ == spec_name(self@),
    {
        let n: &str = match self {
            Event::NoEvent => "Event::None",
            Event::Quit(..) => "Event::Quit",
            Event::AppTerminating(..) => "Event::AppTerminating",
            Event::AppLowMemory(..) => "Event::AppLowMemory",
            Event::AppWillEnterBackground(..) => "Event::AppWillEnterBackground",
            Event::AppDidEnterBackground(..) => "Event::AppDidEnterBackground",
            Event::AppWillEnterForeground(..) => "Event::AppWillEnterForeground",
            Event::AppDidEnterForeground(..) => "Event::AppDidEnterForeground",
            Event::Window(..) => "Event::Window",
            Event::KeyDown(..) => "Event::KeyDown",
            Event::KeyUp(..) => "Event::KeyUp",
            Event::TextEditing(..) => "Event::TextEditing",
            Event::TextInput(..) => "Event::TextInput",
            Event::MouseMotion(..) => "Event::MouseMotion",
            Event::MouseButtonDown(..) => "Event::MouseButtonDown",
            Event::MouseButtonUp(..) => "Event::MouseButtonUp",
            Event::MouseWheel(..) => "Event::MouseWheel",
            Event::JoyAxisMotion(..) => "Event::JoyAxisMotion",
            Event::JoyBallMotion(..) => "Event::JoyBallMotion",
            Event::JoyHatMotion(..) => "Event::JoyHatMotion",
            Event::JoyButtonDown(..) => "Event::JoyButtonDown",
            Event::JoyButtonUp(..) => "Event::JoyButtonUp",
            Event::JoyDeviceAdded(..) => "Event::JoyDeviceAdded",
            Event::JoyDeviceRemoved(..) => "Event::JoyDeviceRemoved",
            Event::ControllerAxisMotion(..) => "Event::ControllerAxisMotion",
            Event::ControllerButtonDown(..) => "Event::ControllerButtonDown",
            Event::ControllerButtonUp(..) => "Event::ControllerButtonUp",
            Event::ControllerDeviceAdded(..) => "Event::ControllerDeviceAdded",
            Event::ControllerDeviceRemoved(..) => "Event::ControllerDeviceRemoved",
            Event::ControllerDeviceRemapped(..) => "Event::ControllerDeviceRemapped",
            Event::FingerDown(..) => "Event::FingerDown",
            Event::FingerUp(..) => "Event::FingerUp",
            Event::FingerMotion(..) => "Event::FingerMotion",
            Event::DollarGesture(..) => "Event::DollarGesture",
            Event::DollarRecord(..) => "Event::DollarRecord",
            Event::MultiGesture(..) => "Event::MultiGesture",
            Event::ClipboardUpdate(..) => "Event::ClipboardUpdate",
            Event::DropFile(..) => "Event::DropFile",
            Event::User(..) => "Event::User",
        };
        n.to_owned()
    }
}

} // verus!
