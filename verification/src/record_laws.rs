//! The layout of every kind of raw event record, stated byte by byte:
//! which bytes each field of the decoded event comes from.

use vstd::prelude::*;

use crate::event::{EventView, spec_decode, spec_window_to_look_up};
use crate::laws::{byte_word16, byte_word32};
use crate::raw::{RAW_EVENT_SIZE, u16_at, u32_at, u64_at};

verus! {

/// The two's-complement 16-bit number in bytes `off` and `off + 1` of `r`.
pub open spec fn signed_word16(r: Seq<u8>, off: int) -> int {
    let w = byte_word16(r, off);
    if w >= 0x8000 {
        w - 0x10000
    } else {
        w
    }
}

/// The two's-complement 32-bit number in bytes `off` to `off + 3` of `r`.
pub open spec fn signed_word32(r: Seq<u8>, off: int) -> int {
    let w = byte_word32(r, off);
    if w >= 0x80000000 {
        w - 0x100000000
    } else {
        w
    }
}

/// The two's-complement 64-bit number in bytes `off` to `off + 7` of `r`.
pub open spec fn signed_word64(r: Seq<u8>, off: int) -> int {
    let w = byte_word32(r, off) + byte_word32(r, off + 4) * 0x100000000;
    if w >= 0x8000000000000000 {
        w - 0x10000000000000000
    } else {
        w
    }
}

/// Reading two bytes as a signed number gives their two's-complement value.
pub(crate) proof fn lemma_signed16(r: Seq<u8>, off: int)
    requires
        0 <= off,
        off + 2 <= r.len(),
    ensures
        (u16_at(r, off) as i16) as int == signed_word16(r, off),
{
    let u = u16_at(r, off);
    assert((u as i16) as int == (if u >= 0x8000u16 {
        u - 0x10000
    } else {
        u as int
    })) by (bit_vector);
}

/// Reading four bytes as a signed number gives their two's-complement value.
pub(crate) proof fn lemma_signed32(r: Seq<u8>, off: int)
    requires
        0 <= off,
        off + 4 <= r.len(),
    ensures
        (u32_at(r, off) as i32) as int == signed_word32(r, off),
{
    let u = u32_at(r, off);
    assert((u as i32) as int == (if u >= 0x80000000u32 {
        u - 0x100000000
    } else {
        u as int
    })) by (bit_vector);
}

/// Reading eight bytes as a signed number gives their two's-complement value.
pub(crate) proof fn lemma_signed64(r: Seq<u8>, off: int)
    requires
        0 <= off,
        off + 8 <= r.len(),
    ensures
        (u64_at(r, off) as i64) as int == signed_word64(r, off),
{
    let u = u64_at(r, off);
    assert((u as i64) as int == (if u >= 0x8000000000000000u64 {
        u - 0x10000000000000000
    } else {
        u as int
    })) by (bit_vector);
}

/// Keeping the low five bits of a number is taking it modulo 32.
pub(crate) proof fn lemma_low_five_bits(u: u32)
    ensures
        (u & 0x1F) as int == u % 32,
{
    assert((u & 0x1F) == u % 32) by (bit_vector);
}

/// A record of type 0x100 names no window and, whether or not a window exists, reads as `Quit` with
/// its fields taken from the record, in order: the 32-bit number at 4.
pub proof fn lemma_quit_record(r: Seq<u8>, window_found: bool, text: Seq<char>)
    requires
        r.len() == RAW_EVENT_SIZE,
        byte_word32(r, 0) == 0x100,
    ensures
        spec_window_to_look_up(r) is None,
        spec_decode(r, window_found, text)
            matches EventView::Quit(x0)
            && x0 as int == byte_word32(r, 4),
{
}

/// A record of type 0x101 names no window and, whether or not a window exists, reads as
/// `AppTerminating` with its fields taken from the record, in order: the 32-bit number at 4.
pub proof fn lemma_app_terminating_record(r: Seq<u8>, window_found: bool, text: Seq<char>)
    requires
        r.len() == RAW_EVENT_SIZE,
        byte_word32(r, 0) == 0x101,
    ensures
        spec_window_to_look_up(r) is None,
        spec_decode(r, window_found, text)
            matches EventView::AppTerminating(x0)
            && x0 as int == byte_word32(r, 4),
{
}

/// A record of type 0x102 names no window and, whether or not a window exists, reads as
/// `AppLowMemory` with its fields taken from the record, in order: the 32-bit number at 4.
pub proof fn lemma_app_low_memory_record(r: Seq<u8>, window_found: bool, text: Seq<char>)
    requires
        r.len() == RAW_EVENT_SIZE,
        byte_word32(r, 0) == 0x102,
    ensures
        spec_window_to_look_up(r) is None,
        spec_decode(r, window_found, text)
            matches EventView::AppLowMemory(x0)
            && x0 as int == byte_word32(r, 4),
{
}

/// A record of type 0x103 names no window and, whether or not a window exists, reads as
/// `AppWillEnterBackground` with its fields taken from the record, in order: the 32-bit number at
/// 4.
pub proof fn lemma_app_will_enter_background_record(r: Seq<u8>, window_found: bool, text: Seq<char>)
    requires
        r.len() == RAW_EVENT_SIZE,
        byte_word32(r, 0) == 0x103,
    ensures
        spec_window_to_look_up(r) is None,
        spec_decode(r, window_found, text)
            matches EventView::AppWillEnterBackground(x0)
            && x0 as int == byte_word32(r, 4),
{
}

/// A record of type 0x104 names no window and, whether or not a window exists, reads as
/// `AppDidEnterBackground` with its fields taken from the record, in order: the 32-bit number at 4.
pub proof fn lemma_app_did_enter_background_record(r: Seq<u8>, window_found: bool, text: Seq<char>)
    requires
        r.len() == RAW_EVENT_SIZE,
        byte_word32(r, 0) == 0x104,
    ensures
        spec_window_to_look_up(r) is None,
        spec_decode(r, window_found, text)
            matches EventView::AppDidEnterBackground(x0)
            && x0 as int == byte_word32(r, 4),
{
}

/// A record of type 0x105 names no window and, whether or not a window exists, reads as
/// `AppWillEnterForeground` with its fields taken from the record, in order: the 32-bit number at
/// 4.
pub proof fn lemma_app_will_enter_foreground_record(r: Seq<u8>, window_found: bool, text: Seq<char>)
    requires
        r.len() == RAW_EVENT_SIZE,
        byte_word32(r, 0) == 0x105,
    ensures
        spec_window_to_look_up(r) is None,
        spec_decode(r, window_found, text)
            matches EventView::AppWillEnterForeground(x0)
            && x0 as int == byte_word32(r, 4),
{
}

/// A record of type 0x106 names no window and, whether or not a window exists, reads as
/// `AppDidEnterForeground` with its fields taken from the record, in order: the 32-bit number at 4.
pub proof fn lemma_app_did_enter_foreground_record(r: Seq<u8>, window_found: bool, text: Seq<char>)
    requires
        r.len() == RAW_EVENT_SIZE,
        byte_word32(r, 0) == 0x106,
    ensures
        spec_window_to_look_up(r) is None,
        spec_decode(r, window_found, text)
            matches EventView::AppDidEnterForeground(x0)
            && x0 as int == byte_word32(r, 4),
{
}

/// A record of type 0x900 names no window and, whether or not a window exists, reads as
/// `ClipboardUpdate` with its fields taken from the record, in order: the 32-bit number at 4.
pub proof fn lemma_clipboard_update_record(r: Seq<u8>, window_found: bool, text: Seq<char>)
    requires
        r.len() == RAW_EVENT_SIZE,
        byte_word32(r, 0) == 0x900,
    ensures
        spec_window_to_look_up(r) is None,
        spec_decode(r, window_found, text)
            matches EventView::ClipboardUpdate(x0)
            && x0 as int == byte_word32(r, 4),
{
}

/// A record of type 0x200 names the window at 8, holds no event when that window does not exist,
/// and otherwise reads as `Window` with its fields taken from the record, in order: the 32-bit
/// number at 4, the 32-bit number at 8, the window event named by the byte at 12, the signed 32-bit
/// number at 16, the signed 32-bit number at 20.
pub proof fn lemma_window_record(r: Seq<u8>, text: Seq<char>)
    requires
        r.len() == RAW_EVENT_SIZE,
        byte_word32(r, 0) == 0x200,
    ensures
        spec_window_to_look_up(r) matches Some(id) && id as int == byte_word32(r, 8),
        spec_decode(r, false, text) == EventView::NoEvent,
        spec_decode(r, true, text)
            matches EventView::Window(x0, x1, x2, x3, x4)
            && x0 as int == byte_word32(r, 4)
            && x1 as int == byte_word32(r, 8)
            && x2.code() as int == (if 1 <= r[12] <= 14 {
                r[12] as int
            } else {
                0
            })
            && x3 as int == signed_word32(r, 16)
            && x4 as int == signed_word32(r, 20),
{
    lemma_signed32(r, 16);
    lemma_signed32(r, 20);
}

/// A record of type 0x302 names the window at 8, holds no event when that window does not exist,
/// and otherwise reads as `TextEditing` with its fields taken from the record, in order: the 32-bit
/// number at 4, the 32-bit number at 8, the text, the signed 32-bit number at 44, the signed 32-bit
/// number at 48.
pub proof fn lemma_text_editing_record(r: Seq<u8>, text: Seq<char>)
    requires
        r.len() == RAW_EVENT_SIZE,
        byte_word32(r, 0) == 0x302,
    ensures
        spec_window_to_look_up(r) matches Some(id) && id as int == byte_word32(r, 8),
        spec_decode(r, false, text) == EventView::NoEvent,
        spec_decode(r, true, text)
            matches EventView::TextEditing(x0, x1, x2, x3, x4)
            && x0 as int == byte_word32(r, 4)
            && x1 as int == byte_word32(r, 8)
            && x2 == text
            && x3 as int == signed_word32(r, 44)
            && x4 as int == signed_word32(r, 48),
{
    lemma_signed32(r, 44);
    lemma_signed32(r, 48);
}

/// A record of type 0x303 names the window at 8, holds no event when that window does not exist,
/// and otherwise reads as `TextInput` with its fields taken from the record, in order: the 32-bit
/// number at 4, the 32-bit number at 8, the text.
pub proof fn lemma_text_input_record(r: Seq<u8>, text: Seq<char>)
    requires
        r.len() == RAW_EVENT_SIZE,
        byte_word32(r, 0) == 0x303,
    ensures
        spec_window_to_look_up(r) matches Some(id) && id as int == byte_word32(r, 8),
        spec_decode(r, false, text) == EventView::NoEvent,
        spec_decode(r, true, text)
            matches EventView::TextInput(x0, x1, x2)
            && x0 as int == byte_word32(r, 4)
            && x1 as int == byte_word32(r, 8)
            && x2 == text,
{
}

/// A record of type 0x400 names the window at 8, holds no event when that window does not exist,
/// and otherwise reads as `MouseMotion` with its fields taken from the record, in order: the 32-bit
/// number at 4, the 32-bit number at 8, the 32-bit number at 12, the low five bits of the 32-bit
/// number at 16, the signed 32-bit number at 20, the signed 32-bit number at 24, the signed 32-bit
/// number at 28, the signed 32-bit number at 32.
pub proof fn lemma_mouse_motion_record(r: Seq<u8>, text: Seq<char>)
    requires
        r.len() == RAW_EVENT_SIZE,
        byte_word32(r, 0) == 0x400,
    ensures
        spec_window_to_look_up(r) matches Some(id) && id as int == byte_word32(r, 8),
        spec_decode(r, false, text) == EventView::NoEvent,
        spec_decode(r, true, text)
            matches EventView::MouseMotion(x0, x1, x2, x3, x4, x5, x6, x7)
            && x0 as int == byte_word32(r, 4)
            && x1 as int == byte_word32(r, 8)
            && x2 as int == byte_word32(r, 12)
            && x3 as int == byte_word32(r, 16) % 32
            && x4 as int == signed_word32(r, 20)
            && x5 as int == signed_word32(r, 24)
            && x6 as int == signed_word32(r, 28)
            && x7 as int == signed_word32(r, 32),
{
    lemma_low_five_bits(u32_at(r, 16));
    lemma_signed32(r, 20);
    lemma_signed32(r, 24);
    lemma_signed32(r, 28);
    lemma_signed32(r, 32);
}

/// A record of type 0x401 names the window at 8, holds no event when that window does not exist,
/// and otherwise reads as `MouseButtonDown` with its fields taken from the record, in order: the
/// 32-bit number at 4, the 32-bit number at 8, the 32-bit number at 12, the byte at 16, the signed
/// 32-bit number at 20, the signed 32-bit number at 24.
pub proof fn lemma_mouse_button_down_record(r: Seq<u8>, text: Seq<char>)
    requires
        r.len() == RAW_EVENT_SIZE,
        byte_word32(r, 0) == 0x401,
    ensures
        spec_window_to_look_up(r) matches Some(id) && id as int == byte_word32(r, 8),
        spec_decode(r, false, text) == EventView::NoEvent,
        spec_decode(r, true, text)
            matches EventView::MouseButtonDown(x0, x1, x2, x3, x4, x5)
            && x0 as int == byte_word32(r, 4)
            && x1 as int == byte_word32(r, 8)
            && x2 as int == byte_word32(r, 12)
            && x3 == r[16]
            && x4 as int == signed_word32(r, 20)
            && x5 as int == signed_word32(r, 24),
{
    lemma_signed32(r, 20);
    lemma_signed32(r, 24);
}

/// A record of type 0x402 names the window at 8, holds no event when that window does not exist,
/// and otherwise reads as `MouseButtonUp` with its fields taken from the record, in order: the
/// 32-bit number at 4, the 32-bit number at 8, the 32-bit number at 12, the byte at 16, the signed
/// 32-bit number at 20, the signed 32-bit number at 24.
pub proof fn lemma_mouse_button_up_record(r: Seq<u8>, text: Seq<char>)
    requires
        r.len() == RAW_EVENT_SIZE,
        byte_word32(r, 0) == 0x402,
    ensures
        spec_window_to_look_up(r) matches Some(id) && id as int == byte_word32(r, 8),
        spec_decode(r, false, text) == EventView::NoEvent,
        spec_decode(r, true, text)
            matches EventView::MouseButtonUp(x0, x1, x2, x3, x4, x5)
            && x0 as int == byte_word32(r, 4)
            && x1 as int == byte_word32(r, 8)
            && x2 as int == byte_word32(r, 12)
            && x3 == r[16]
            && x4 as int == signed_word32(r, 20)
            && x5 as int == signed_word32(r, 24),
{
    lemma_signed32(r, 20);
    lemma_signed32(r, 24);
}

/// A record of type 0x403 names the window at 8, holds no event when that window does not exist,
/// and otherwise reads as `MouseWheel` with its fields taken from the record, in order: the 32-bit
/// number at 4, the 32-bit number at 8, the 32-bit number at 12, the signed 32-bit number at 16,
/// the signed 32-bit number at 20.
pub proof fn lemma_mouse_wheel_record(r: Seq<u8>, text: Seq<char>)
    requires
        r.len() == RAW_EVENT_SIZE,
        byte_word32(r, 0) == 0x403,
    ensures
        spec_window_to_look_up(r) matches Some(id) && id as int == byte_word32(r, 8),
        spec_decode(r, false, text) == EventView::NoEvent,
        spec_decode(r, true, text)
            matches EventView::MouseWheel(x0, x1, x2, x3, x4)
            && x0 as int == byte_word32(r, 4)
            && x1 as int == byte_word32(r, 8)
            && x2 as int == byte_word32(r, 12)
            && x3 as int == signed_word32(r, 16)
            && x4 as int == signed_word32(r, 20),
{
    lemma_signed32(r, 16);
    lemma_signed32(r, 20);
}

/// A record of type 0x600 names no window and, whether or not a window exists, reads as
/// `JoyAxisMotion` with its fields taken from the record, in order: the 32-bit number at 4, the
/// signed 32-bit number at 8, the byte at 12, the signed 16-bit number at 16.
pub proof fn lemma_joy_axis_motion_record(r: Seq<u8>, window_found: bool, text: Seq<char>)
    requires
        r.len() == RAW_EVENT_SIZE,
        byte_word32(r, 0) == 0x600,
    ensures
        spec_window_to_look_up(r) is None,
        spec_decode(r, window_found, text)
            matches EventView::JoyAxisMotion(x0, x1, x2, x3)
            && x0 as int == byte_word32(r, 4)
            && x1 as int == signed_word32(r, 8)
            && x2 == r[12]
            && x3 as int == signed_word16(r, 16),
{
    lemma_signed32(r, 8);
    lemma_signed16(r, 16);
}

/// A record of type 0x601 names no window and, whether or not a window exists, reads as
/// `JoyBallMotion` with its fields taken from the record, in order: the 32-bit number at 4, the
/// signed 32-bit number at 8, the byte at 12, the signed 16-bit number at 16, the signed 16-bit
/// number at 18.
pub proof fn lemma_joy_ball_motion_record(r: Seq<u8>, window_found: bool, text: Seq<char>)
    requires
        r.len() == RAW_EVENT_SIZE,
        byte_word32(r, 0) == 0x601,
    ensures
        spec_window_to_look_up(r) is None,
        spec_decode(r, window_found, text)
            matches EventView::JoyBallMotion(x0, x1, x2, x3, x4)
            && x0 as int == byte_word32(r, 4)
            && x1 as int == signed_word32(r, 8)
            && x2 == r[12]
            && x3 as int == signed_word16(r, 16)
            && x4 as int == signed_word16(r, 18),
{
    lemma_signed32(r, 8);
    lemma_signed16(r, 16);
    lemma_signed16(r, 18);
}

/// A record of type 0x602 names no window and, whether or not a window exists, reads as
/// `JoyHatMotion` with its fields taken from the record, in order: the 32-bit number at 4, the
/// signed 32-bit number at 8, the byte at 12, the byte at 13.
pub proof fn lemma_joy_hat_motion_record(r: Seq<u8>, window_found: bool, text: Seq<char>)
    requires
        r.len() == RAW_EVENT_SIZE,
        byte_word32(r, 0) == 0x602,
    ensures
        spec_window_to_look_up(r) is None,
        spec_decode(r, window_found, text)
            matches EventView::JoyHatMotion(x0, x1, x2, x3)
            && x0 as int == byte_word32(r, 4)
            && x1 as int == signed_word32(r, 8)
            && x2 == r[12]
            && x3 == r[13],
{
    lemma_signed32(r, 8);
}

/// A record of type 0x603 names no window and, whether or not a window exists, reads as
/// `JoyButtonDown` with its fields taken from the record, in order: the 32-bit number at 4, the
/// signed 32-bit number at 8, the byte at 12.
pub proof fn lemma_joy_button_down_record(r: Seq<u8>, window_found: bool, text: Seq<char>)
    requires
        r.len() == RAW_EVENT_SIZE,
        byte_word32(r, 0) == 0x603,
    ensures
        spec_window_to_look_up(r) is None,
        spec_decode(r, window_found, text)
            matches EventView::JoyButtonDown(x0, x1, x2)
            && x0 as int == byte_word32(r, 4)
            && x1 as int == signed_word32(r, 8)
            && x2 == r[12],
{
    lemma_signed32(r, 8);
}

/// A record of type 0x604 names no window and, whether or not a window exists, reads as
/// `JoyButtonUp` with its fields taken from the record, in order: the 32-bit number at 4, the
/// signed 32-bit number at 8, the byte at 12.
pub proof fn lemma_joy_button_up_record(r: Seq<u8>, window_found: bool, text: Seq<char>)
    requires
        r.len() == RAW_EVENT_SIZE,
        byte_word32(r, 0) == 0x604,
    ensures
        spec_window_to_look_up(r) is None,
        spec_decode(r, window_found, text)
            matches EventView::JoyButtonUp(x0, x1, x2)
            && x0 as int == byte_word32(r, 4)
            && x1 as int == signed_word32(r, 8)
            && x2 == r[12],
{
    lemma_signed32(r, 8);
}

/// A record of type 0x605 names no window and, whether or not a window exists, reads as
/// `JoyDeviceAdded` with its fields taken from the record, in order: the 32-bit number at 4, the
/// signed 32-bit number at 8.
pub proof fn lemma_joy_device_added_record(r: Seq<u8>, window_found: bool, text: Seq<char>)
    requires
        r.len() == RAW_EVENT_SIZE,
        byte_word32(r, 0) == 0x605,
    ensures
        spec_window_to_look_up(r) is None,
        spec_decode(r, window_found, text)
            matches EventView::JoyDeviceAdded(x0, x1)
            && x0 as int == byte_word32(r, 4)
            && x1 as int == signed_word32(r, 8),
{
    lemma_signed32(r, 8);
}

/// A record of type 0x606 names no window and, whether or not a window exists, reads as
/// `JoyDeviceRemoved` with its fields taken from the record, in order: the 32-bit number at 4, the
/// signed 32-bit number at 8.
pub proof fn lemma_joy_device_removed_record(r: Seq<u8>, window_found: bool, text: Seq<char>)
    requires
        r.len() == RAW_EVENT_SIZE,
        byte_word32(r, 0) == 0x606,
    ensures
        spec_window_to_look_up(r) is None,
        spec_decode(r, window_found, text)
            matches EventView::JoyDeviceRemoved(x0, x1)
            && x0 as int == byte_word32(r, 4)
            && x1 as int == signed_word32(r, 8),
{
    lemma_signed32(r, 8);
}

/// A record of type 0x650 names no window and, whether or not a window exists, reads as
/// `ControllerAxisMotion` with its fields taken from the record, in order: the 32-bit number at 4,
/// the signed 32-bit number at 8, the byte at 12, the signed 16-bit number at 16.
pub proof fn lemma_controller_axis_motion_record(r: Seq<u8>, window_found: bool, text: Seq<char>)
    requires
        r.len() == RAW_EVENT_SIZE,
        byte_word32(r, 0) == 0x650,
    ensures
        spec_window_to_look_up(r) is None,
        spec_decode(r, window_found, text)
            matches EventView::ControllerAxisMotion(x0, x1, x2, x3)
            && x0 as int == byte_word32(r, 4)
            && x1 as int == signed_word32(r, 8)
            && x2 == r[12]
            && x3 as int == signed_word16(r, 16),
{
    lemma_signed32(r, 8);
    lemma_signed16(r, 16);
}

/// A record of type 0x651 names no window and, whether or not a window exists, reads as
/// `ControllerButtonDown` with its fields taken from the record, in order: the 32-bit number at 4,
/// the signed 32-bit number at 8, the byte at 12.
pub proof fn lemma_controller_button_down_record(r: Seq<u8>, window_found: bool, text: Seq<char>)
    requires
        r.len() == RAW_EVENT_SIZE,
        byte_word32(r, 0) == 0x651,
    ensures
        spec_window_to_look_up(r) is None,
        spec_decode(r, window_found, text)
            matches EventView::ControllerButtonDown(x0, x1, x2)
            && x0 as int == byte_word32(r, 4)
            && x1 as int == signed_word32(r, 8)
            && x2 == r[12],
{
    lemma_signed32(r, 8);
}

/// A record of type 0x652 names no window and, whether or not a window exists, reads as
/// `ControllerButtonUp` with its fields taken from the record, in order: the 32-bit number at 4,
/// the signed 32-bit number at 8, the byte at 12.
pub proof fn lemma_controller_button_up_record(r: Seq<u8>, window_found: bool, text: Seq<char>)
    requires
        r.len() == RAW_EVENT_SIZE,
        byte_word32(r, 0) == 0x652,
    ensures
        spec_window_to_look_up(r) is None,
        spec_decode(r, window_found, text)
            matches EventView::ControllerButtonUp(x0, x1, x2)
            && x0 as int == byte_word32(r, 4)
            && x1 as int == signed_word32(r, 8)
            && x2 == r[12],
{
    lemma_signed32(r, 8);
}

/// A record of type 0x653 names no window and, whether or not a window exists, reads as
/// `ControllerDeviceAdded` with its fields taken from the record, in order: the 32-bit number at 4,
/// the signed 32-bit number at 8.
pub proof fn lemma_controller_device_added_record(r: Seq<u8>, window_found: bool, text: Seq<char>)
    requires
        r.len() == RAW_EVENT_SIZE,
        byte_word32(r, 0) == 0x653,
    ensures
        spec_window_to_look_up(r) is None,
        spec_decode(r, window_found, text)
            matches EventView::ControllerDeviceAdded(x0, x1)
            && x0 as int == byte_word32(r, 4)
            && x1 as int == signed_word32(r, 8),
{
    lemma_signed32(r, 8);
}

/// A record of type 0x654 names no window and, whether or not a window exists, reads as
/// `ControllerDeviceRemoved` with its fields taken from the record, in order: the 32-bit number at
/// 4, the signed 32-bit number at 8.
pub proof fn lemma_controller_device_removed_record(r: Seq<u8>, window_found: bool, text: Seq<char>)
    requires
        r.len() == RAW_EVENT_SIZE,
        byte_word32(r, 0) == 0x654,
    ensures
        spec_window_to_look_up(r) is None,
        spec_decode(r, window_found, text)
            matches EventView::ControllerDeviceRemoved(x0, x1)
            && x0 as int == byte_word32(r, 4)
            && x1 as int == signed_word32(r, 8),
{
    lemma_signed32(r, 8);
}

/// A record of type 0x655 names no window and, whether or not a window exists, reads as
/// `ControllerDeviceRemapped` with its fields taken from the record, in order: the 32-bit number at
/// 4, the signed 32-bit number at 8.
pub proof fn lemma_controller_device_remapped_record(
    r: Seq<u8>,
    window_found: bool,
    text: Seq<char>,
)
    requires
        r.len() == RAW_EVENT_SIZE,
        byte_word32(r, 0) == 0x655,
    ensures
        spec_window_to_look_up(r) is None,
        spec_decode(r, window_found, text)
            matches EventView::ControllerDeviceRemapped(x0, x1)
            && x0 as int == byte_word32(r, 4)
            && x1 as int == signed_word32(r, 8),
{
    lemma_signed32(r, 8);
}

/// A record of type 0x700 names no window and, whether or not a window exists, reads as
/// `FingerDown` with its fields taken from the record, in order: the 32-bit number at 4, the signed
/// 64-bit number at 8, the signed 64-bit number at 16, the 32-bit number at 24, the 32-bit number
/// at 28, the 32-bit number at 32, the 32-bit number at 36, the 32-bit number at 40.
pub proof fn lemma_finger_down_record(r: Seq<u8>, window_found: bool, text: Seq<char>)
    requires
        r.len() == RAW_EVENT_SIZE,
        byte_word32(r, 0) == 0x700,
    ensures
        spec_window_to_look_up(r) is None,
        spec_decode(r, window_found, text)
            matches EventView::FingerDown(x0, x1, x2, x3, x4, x5, x6, x7)
            && x0 as int == byte_word32(r, 4)
            && x1 as int == signed_word64(r, 8)
            && x2 as int == signed_word64(r, 16)
            && x3 as int == byte_word32(r, 24)
            && x4 as int == byte_word32(r, 28)
            && x5 as int == byte_word32(r, 32)
            && x6 as int == byte_word32(r, 36)
            && x7 as int == byte_word32(r, 40),
{
    lemma_signed64(r, 8);
    lemma_signed64(r, 16);
}

/// A record of type 0x701 names no window and, whether or not a window exists, reads as `FingerUp`
/// with its fields taken from the record, in order: the 32-bit number at 4, the signed 64-bit
/// number at 8, the signed 64-bit number at 16, the 32-bit number at 24, the 32-bit number at 28,
/// the 32-bit number at 32, the 32-bit number at 36, the 32-bit number at 40.
pub proof fn lemma_finger_up_record(r: Seq<u8>, window_found: bool, text: Seq<char>)
    requires
        r.len() == RAW_EVENT_SIZE,
        byte_word32(r, 0) == 0x701,
    ensures
        spec_window_to_look_up(r) is None,
        spec_decode(r, window_found, text)
            matches EventView::FingerUp(x0, x1, x2, x3, x4, x5, x6, x7)
            && x0 as int == byte_word32(r, 4)
            && x1 as int == signed_word64(r, 8)
            && x2 as int == signed_word64(r, 16)
            && x3 as int == byte_word32(r, 24)
            && x4 as int == byte_word32(r, 28)
            && x5 as int == byte_word32(r, 32)
            && x6 as int == byte_word32(r, 36)
            && x7 as int == byte_word32(r, 40),
{
    lemma_signed64(r, 8);
    lemma_signed64(r, 16);
}

/// A record of type 0x702 names no window and, whether or not a window exists, reads as
/// `FingerMotion` with its fields taken from the record, in order: the 32-bit number at 4, the
/// signed 64-bit number at 8, the signed 64-bit number at 16, the 32-bit number at 24, the 32-bit
/// number at 28, the 32-bit number at 32, the 32-bit number at 36, the 32-bit number at 40.
pub proof fn lemma_finger_motion_record(r: Seq<u8>, window_found: bool, text: Seq<char>)
    requires
        r.len() == RAW_EVENT_SIZE,
        byte_word32(r, 0) == 0x702,
    ensures
        spec_window_to_look_up(r) is None,
        spec_decode(r, window_found, text)
            matches EventView::FingerMotion(x0, x1, x2, x3, x4, x5, x6, x7)
            && x0 as int == byte_word32(r, 4)
            && x1 as int == signed_word64(r, 8)
            && x2 as int == signed_word64(r, 16)
            && x3 as int == byte_word32(r, 24)
            && x4 as int == byte_word32(r, 28)
            && x5 as int == byte_word32(r, 32)
            && x6 as int == byte_word32(r, 36)
            && x7 as int == byte_word32(r, 40),
{
    lemma_signed64(r, 8);
    lemma_signed64(r, 16);
}

/// A record of type 0x800 names no window and, whether or not a window exists, reads as
/// `DollarGesture` with its fields taken from the record, in order: the 32-bit number at 4, the
/// signed 64-bit number at 8, the signed 64-bit number at 16, the 32-bit number at 24, the 32-bit
/// number at 28, the 32-bit number at 32, the 32-bit number at 36.
pub proof fn lemma_dollar_gesture_record(r: Seq<u8>, window_found: bool, text: Seq<char>)
    requires
        r.len() == RAW_EVENT_SIZE,
        byte_word32(r, 0) == 0x800,
    ensures
        spec_window_to_look_up(r) is None,
        spec_decode(r, window_found, text)
            matches EventView::DollarGesture(x0, x1, x2, x3, x4, x5, x6)
            && x0 as int == byte_word32(r, 4)
            && x1 as int == signed_word64(r, 8)
            && x2 as int == signed_word64(r, 16)
            && x3 as int == byte_word32(r, 24)
            && x4 as int == byte_word32(r, 28)
            && x5 as int == byte_word32(r, 32)
            && x6 as int == byte_word32(r, 36),
{
    lemma_signed64(r, 8);
    lemma_signed64(r, 16);
}

/// A record of type 0x801 names no window and, whether or not a window exists, reads as
/// `DollarRecord` with its fields taken from the record, in order: the 32-bit number at 4, the
/// signed 64-bit number at 8, the signed 64-bit number at 16, the 32-bit number at 24, the 32-bit
/// number at 28, the 32-bit number at 32, the 32-bit number at 36.
pub proof fn lemma_dollar_record_record(r: Seq<u8>, window_found: bool, text: Seq<char>)
    requires
        r.len() == RAW_EVENT_SIZE,
        byte_word32(r, 0) == 0x801,
    ensures
        spec_window_to_look_up(r) is None,
        spec_decode(r, window_found, text)
            matches EventView::DollarRecord(x0, x1, x2, x3, x4, x5, x6)
            && x0 as int == byte_word32(r, 4)
            && x1 as int == signed_word64(r, 8)
            && x2 as int == signed_word64(r, 16)
            && x3 as int == byte_word32(r, 24)
            && x4 as int == byte_word32(r, 28)
            && x5 as int == byte_word32(r, 32)
            && x6 as int == byte_word32(r, 36),
{
    lemma_signed64(r, 8);
    lemma_signed64(r, 16);
}

/// A record of type 0x802 names no window and, whether or not a window exists, reads as
/// `MultiGesture` with its fields taken from the record, in order: the 32-bit number at 4, the
/// signed 64-bit number at 8, the 32-bit number at 16, the 32-bit number at 20, the 32-bit number
/// at 24, the 32-bit number at 28, the 16-bit number at 32.
pub proof fn lemma_multi_gesture_record(r: Seq<u8>, window_found: bool, text: Seq<char>)
    requires
        r.len() == RAW_EVENT_SIZE,
        byte_word32(r, 0) == 0x802,
    ensures
        spec_window_to_look_up(r) is None,
        spec_decode(r, window_found, text)
            matches EventView::MultiGesture(x0, x1, x2, x3, x4, x5, x6)
            && x0 as int == byte_word32(r, 4)
            && x1 as int == signed_word64(r, 8)
            && x2 as int == byte_word32(r, 16)
            && x3 as int == byte_word32(r, 20)
            && x4 as int == byte_word32(r, 24)
            && x5 as int == byte_word32(r, 28)
            && x6 as int == byte_word16(r, 32),
{
    lemma_signed64(r, 8);
}

/// A record of type 0x1000 names no window and, whether or not a window exists, reads as `DropFile`
/// with its fields taken from the record, in order: the 32-bit number at 4, the text.
pub proof fn lemma_drop_file_record(r: Seq<u8>, window_found: bool, text: Seq<char>)
    requires
        r.len() == RAW_EVENT_SIZE,
        byte_word32(r, 0) == 0x1000,
    ensures
        spec_window_to_look_up(r) is None,
        spec_decode(r, window_found, text)
            matches EventView::DropFile(x0, x1)
            && x0 as int == byte_word32(r, 4)
            && x1 == text,
{
}

} // verus!
