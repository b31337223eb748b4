//! The sub-kinds of window events.

use vstd::prelude::*;

verus! {

/// An enum of window events.
#[derive(Clone, Copy, Debug, PartialEq, Eq, Structural)]
pub enum WindowEventId {
    NoEvent,
    Shown,
    Hidden,
    Exposed,
    Moved,
    Resized,
    SizeChanged,
    Minimized,
    Maximized,
    Restored,
    Enter,
    Leave,
    FocusGained,
    FocusLost,
    Close,
}

impl WindowEventId {
    /// The number by which raw window events name this sub-kind; `NoEvent`
    /// stands for every number that names no other.
    pub open spec fn code(self) -> u8 {
        match self {
            WindowEventId::NoEvent => 0,
            WindowEventId::Shown => 1,
            WindowEventId::Hidden => 2,
            WindowEventId::Exposed => 3,
            WindowEventId::Moved => 4,
            WindowEventId::Resized => 5,
            WindowEventId::SizeChanged => 6,
            WindowEventId::Minimized => 7,
            WindowEventId::Maximized => 8,
            WindowEventId::Restored => 9,
            WindowEventId::Enter => 10,
            WindowEventId::Leave => 11,
            WindowEventId::FocusGained => 12,
            WindowEventId::FocusLost => 13,
            WindowEventId::Close => 14,
        }
    }

    /// The sub-kind that a raw window event names by `id`: the one whose
    /// number is `id`, and `NoEvent` for any number above the last.
    pub open spec fn spec_from_ll(id: u8) -> WindowEventId {
        match id {
            1 => WindowEventId::Shown,
            2 => WindowEventId::Hidden,
            3 => WindowEventId::Exposed,
            4 => WindowEventId::Moved,
            5 => WindowEventId::Resized,
            6 => WindowEventId::SizeChanged,
            7 => WindowEventId::Minimized,
            8 => WindowEventId::Maximized,
            9 => WindowEventId::Restored,
            10 => WindowEventId::Enter,
            11 => WindowEventId::Leave,
            12 => WindowEventId::FocusGained,
            13 => WindowEventId::FocusLost,
            14 => WindowEventId::Close,
            _ => WindowEventId::NoEvent,
        }
    }

    /// Decodes the sub-kind number of a raw window event.
    pub fn from_ll(id: u8) -> (r: WindowEventId)
        ensures
            r == WindowEventId::spec_from_ll(id),
            1 <= id <= 14 ==> r.code() == id,
            r == WindowEventId::NoEvent <==> (id == 0 || id > 14),
    {
        match id {
            1 => WindowEventId::Shown,
            2 => WindowEventId::Hidden,
            3 => WindowEventId::Exposed,
            4 => WindowEventId::Moved,
            5 => WindowEventId::Resized,
            6 => WindowEventId::SizeChanged,
            7 => WindowEventId::Minimized,
            8 => WindowEventId::Maximized,
            9 => WindowEventId::Restored,
            10 => WindowEventId::Enter,
            11 => WindowEventId::Leave,
            12 => WindowEventId::FocusGained,
            13 => WindowEventId::FocusLost,
            14 => WindowEventId::Close,
            _ => WindowEventId::NoEvent,
        }
    }
}

/// Decoding the number of a sub-kind gives that sub-kind back.
pub proof fn lemma_window_event_id_roundtrip(id: WindowEventId)
    ensures
        WindowEventId::spec_from_ll(id.code()) == id,
{
}

} // verus!
