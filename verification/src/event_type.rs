//! The kinds of events that the event queue delivers, and the numbers
//! by which the raw event records name them.

use vstd::prelude::*;

verus! {

/// Types of events that can be delivered.
#[derive(Clone, Copy, Debug, PartialEq, Eq, Structural)]
pub enum EventType {
    First,
    Quit,
    AppTerminating,
    AppLowMemory,
    AppWillEnterBackground,
    AppDidEnterBackground,
    AppWillEnterForeground,
    AppDidEnterForeground,
    Window,
    KeyDown,
    KeyUp,
    TextEditing,
    TextInput,
    MouseMotion,
    MouseButtonDown,
    MouseButtonUp,
    MouseWheel,
    JoyAxisMotion,
    JoyBallMotion,
    JoyHatMotion,
    JoyButtonDown,
    JoyButtonUp,
    JoyDeviceAdded,
    JoyDeviceRemoved,
    ControllerAxisMotion,
    ControllerButtonDown,
    ControllerButtonUp,
    ControllerDeviceAdded,
    ControllerDeviceRemoved,
    ControllerDeviceRemapped,
    FingerDown,
    FingerUp,
    FingerMotion,
    DollarGesture,
    DollarRecord,
    MultiGesture,
    ClipboardUpdate,
    DropFile,
    User,
    Last,
}

impl EventType {
    /// The number that raw event records carry in their type field for
    /// this kind of event.
    pub open spec fn code(self) -> u32 {
        match self {
            EventType::First => 0x0,
            EventType::Quit => 0x100,
            EventType::AppTerminating => 0x101,
            EventType::AppLowMemory => 0x102,
            EventType::AppWillEnterBackground => 0x103,
            EventType::AppDidEnterBackground => 0x104,
            EventType::AppWillEnterForeground => 0x105,
            EventType::AppDidEnterForeground => 0x106,
            EventType::Window => 0x200,
            EventType::KeyDown => 0x300,
            EventType::KeyUp => 0x301,
            EventType::TextEditing => 0x302,
            EventType::TextInput => 0x303,
            EventType::MouseMotion => 0x400,
            EventType::MouseButtonDown => 0x401,
            EventType::MouseButtonUp => 0x402,
            EventType::MouseWheel => 0x403,
            EventType::JoyAxisMotion => 0x600,
            EventType::JoyBallMotion => 0x601,
            EventType::JoyHatMotion => 0x602,
            EventType::JoyButtonDown => 0x603,
            EventType::JoyButtonUp => 0x604,
            EventType::JoyDeviceAdded => 0x605,
            EventType::JoyDeviceRemoved => 0x606,
            EventType::ControllerAxisMotion => 0x650,
            EventType::ControllerButtonDown => 0x651,
            EventType::ControllerButtonUp => 0x652,
            EventType::ControllerDeviceAdded => 0x653,
            EventType::ControllerDeviceRemoved => 0x654,
            EventType::ControllerDeviceRemapped => 0x655,
            EventType::FingerDown => 0x700,
            EventType::FingerUp => 0x701,
            EventType::FingerMotion => 0x702,
            EventType::DollarGesture => 0x800,
            EventType::DollarRecord => 0x801,
            EventType::MultiGesture => 0x802,
            EventType::ClipboardUpdate => 0x900,
            EventType::DropFile => 0x1000,
            EventType::User => 0x8000,
            EventType::Last => 0xFFFF,
        }
    }

    /// The kind of event whose number is `code`, if any kind has it.
    pub open spec fn spec_from_u32(code: u32) -> Option<EventType> {
        match code {
            0x0 => Some(EventType::First),
            0x100 => Some(EventType::Quit),
            0x101 => Some(EventType::AppTerminating),
            0x102 => Some(EventType::AppLowMemory),
            0x103 => Some(EventType::AppWillEnterBackground),
            0x104 => Some(EventType::AppDidEnterBackground),
            0x105 => Some(EventType::AppWillEnterForeground),
            0x106 => Some(EventType::AppDidEnterForeground),
            0x200 => Some(EventType::Window),
            0x300 => Some(EventType::KeyDown),
            0x301 => Some(EventType::KeyUp),
            0x302 => Some(EventType::TextEditing),
            0x303 => Some(EventType::TextInput),
            0x400 => Some(EventType::MouseMotion),
            0x401 => Some(EventType::MouseButtonDown),
            0x402 => Some(EventType::MouseButtonUp),
            0x403 => Some(EventType::MouseWheel),
            0x600 => Some(EventType::JoyAxisMotion),
            0x601 => Some(EventType::JoyBallMotion),
            0x602 => Some(EventType::JoyHatMotion),
            0x603 => Some(EventType::JoyButtonDown),
            0x604 => Some(EventType::JoyButtonUp),
            0x605 => Some(EventType::JoyDeviceAdded),
            0x606 => Some(EventType::JoyDeviceRemoved),
            0x650 => Some(EventType::ControllerAxisMotion),
            0x651 => Some(EventType::ControllerButtonDown),
            0x652 => Some(EventType::ControllerButtonUp),
            0x653 => Some(EventType::ControllerDeviceAdded),
            0x654 => Some(EventType::ControllerDeviceRemoved),
            0x655 => Some(EventType::ControllerDeviceRemapped),
            0x700 => Some(EventType::FingerDown),
            0x701 => Some(EventType::FingerUp),
            0x702 => Some(EventType::FingerMotion),
            0x800 => Some(EventType::DollarGesture),
            0x801 => Some(EventType::DollarRecord),
            0x802 => Some(EventType::MultiGesture),
            0x900 => Some(EventType::ClipboardUpdate),
            0x1000 => Some(EventType::DropFile),
            0x8000 => Some(EventType::User),
            0xFFFF => Some(EventType::Last),
            _ => None,
        }
    }

    /// The number of this kind of event in raw event records.
    pub fn to_u32(self) -> (code: u32)
        ensures
            code == self.code(),
    {
        match self {
            EventType::First => 0x0,
            EventType::Quit => 0x100,
            EventType::AppTerminating => 0x101,
            EventType::AppLowMemory => 0x102,
            EventType::AppWillEnterBackground => 0x103,
            EventType::AppDidEnterBackground => 0x104,
            EventType::AppWillEnterForeground => 0x105,
            EventType::AppDidEnterForeground => 0x106,
            EventType::Window => 0x200,
            EventType::KeyDown => 0x300,
            EventType::KeyUp => 0x301,
            EventType::TextEditing => 0x302,
            EventType::TextInput => 0x303,
            EventType::MouseMotion => 0x400,
            EventType::MouseButtonDown => 0x401,
            EventType::MouseButtonUp => 0x402,
            EventType::MouseWheel => 0x403,
            EventType::JoyAxisMotion => 0x600,
            EventType::JoyBallMotion => 0x601,
            EventType::JoyHatMotion => 0x602,
            EventType::JoyButtonDown => 0x603,
            EventType::JoyButtonUp => 0x604,
            EventType::JoyDeviceAdded => 0x605,
            EventType::JoyDeviceRemoved => 0x606,
            EventType::ControllerAxisMotion => 0x650,
            EventType::ControllerButtonDown => 0x651,
            EventType::ControllerButtonUp => 0x652,
            EventType::ControllerDeviceAdded => 0x653,
            EventType::ControllerDeviceRemoved => 0x654,
            EventType::ControllerDeviceRemapped => 0x655,
            EventType::FingerDown => 0x700,
            EventType::FingerUp => 0x701,
            EventType::FingerMotion => 0x702,
            EventType::DollarGesture => 0x800,
            EventType::DollarRecord => 0x801,
            EventType::MultiGesture => 0x802,
            EventType::ClipboardUpdate => 0x900,
            EventType::DropFile => 0x1000,
            EventType::User => 0x8000,
            EventType::Last => 0xFFFF,
        }
    }

    /// The kind of event that raw event records number `code`, or `None`
    /// where no kind of event has that number.
    pub fn from_u32(code: u32) -> (kind: Option<EventType>)
        ensures
            kind == EventType::spec_from_u32(code),
            kind matches Some(k) ==> k.code() == code,
            kind is None <==> (forall|k: EventType| k.code() != code),
    {
        proof {
            if EventType::spec_from_u32(code) is None {
                assert forall|k: EventType| k.code() != code by {
                    lemma_from_code(k);
                }
            } else {
                let k = EventType::spec_from_u32(code)->0;
                assert(k.code() == code);
            }
        }
        match code {
            0x0 => Some(EventType::First),
            0x100 => Some(EventType::Quit),
            0x101 => Some(EventType::AppTerminating),
            0x102 => Some(EventType::AppLowMemory),
            0x103 => Some(EventType::AppWillEnterBackground),
            0x104 => Some(EventType::AppDidEnterBackground),
            0x105 => Some(EventType::AppWillEnterForeground),
            0x106 => Some(EventType::AppDidEnterForeground),
            0x200 => Some(EventType::Window),
            0x300 => Some(EventType::KeyDown),
            0x301 => Some(EventType::KeyUp),
            0x302 => Some(EventType::TextEditing),
            0x303 => Some(EventType::TextInput),
            0x400 => Some(EventType::MouseMotion),
            0x401 => Some(EventType::MouseButtonDown),
            0x402 => Some(EventType::MouseButtonUp),
            0x403 => Some(EventType::MouseWheel),
            0x600 => Some(EventType::JoyAxisMotion),
            0x601 => Some(EventType::JoyBallMotion),
            0x602 => Some(EventType::JoyHatMotion),
            0x603 => Some(EventType::JoyButtonDown),
            0x604 => Some(EventType::JoyButtonUp),
            0x605 => Some(EventType::JoyDeviceAdded),
            0x606 => Some(EventType::JoyDeviceRemoved),
            0x650 => Some(EventType::ControllerAxisMotion),
            0x651 => Some(EventType::ControllerButtonDown),
            0x652 => Some(EventType::ControllerButtonUp),
            0x653 => Some(EventType::ControllerDeviceAdded),
            0x654 => Some(EventType::ControllerDeviceRemoved),
            0x655 => Some(EventType::ControllerDeviceRemapped),
            0x700 => Some(EventType::FingerDown),
            0x701 => Some(EventType::FingerUp),
            0x702 => Some(EventType::FingerMotion),
            0x800 => Some(EventType::DollarGesture),
            0x801 => Some(EventType::DollarRecord),
            0x802 => Some(EventType::MultiGesture),
            0x900 => Some(EventType::ClipboardUpdate),
            0x1000 => Some(EventType::DropFile),
            0x8000 => Some(EventType::User),
            0xFFFF => Some(EventType::Last),
            _ => None,
        }
    }
}

/// Every kind of event is found again from its number.
pub proof fn lemma_from_code(kind: EventType)
    ensures
        EventType::spec_from_u32(kind.code()) == Some(kind),
{
}

/// Two kinds of event have the same number only if they are the same
/// kind.
pub proof fn lemma_code_injective(a: EventType, b: EventType)
    ensures
        a.code() == b.code() <==> a == b,
{
    lemma_from_code(a);
    lemma_from_code(b);
}

} // verus!
