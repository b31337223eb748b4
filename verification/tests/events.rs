use sdl2_event::event::{dropped_file_address, is_decodable, raw_kind, window_to_look_up};
use sdl2_event::keys::{key_code, scan_code};
use sdl2_event::queue::{push_event_record, register_events_result};
use sdl2_event::raw::{null_event, RAW_EVENT_SIZE};
use sdl2_event::{Event, EventType, WindowEventId};

/// A raw record of the given type and timestamp, the rest zero.
fn record(typ: u32, timestamp: u32) -> Vec<u8> {
    let mut r = vec![0u8; RAW_EVENT_SIZE];
    r[0..4].copy_from_slice(&typ.to_le_bytes());
    r[4..8].copy_from_slice(&timestamp.to_le_bytes());
    r
}

fn put(r: &mut [u8], off: usize, bytes: &[u8]) {
    r[off..off + bytes.len()].copy_from_slice(bytes);
}

fn decode(r: &[u8], window_found: bool) -> Event {
    assert!(is_decodable(r, window_found));
    Event::from_ll(r, window_found, &[])
}

#[test]
fn window_event_ids_decode() {
    let all = [
        WindowEventId::NoEvent,
        WindowEventId::Shown,
        WindowEventId::Hidden,
        WindowEventId::Exposed,
        WindowEventId::Moved,
        WindowEventId::Resized,
        WindowEventId::SizeChanged,
        WindowEventId::Minimized,
        WindowEventId::Maximized,
        WindowEventId::Restored,
        WindowEventId::Enter,
        WindowEventId::Leave,
        WindowEventId::FocusGained,
        WindowEventId::FocusLost,
        WindowEventId::Close,
    ];
    for (i, id) in all.iter().enumerate() {
        assert_eq!(WindowEventId::from_ll(i as u8), *id);
    }
    assert_eq!(WindowEventId::from_ll(15), WindowEventId::NoEvent);
    assert_eq!(WindowEventId::from_ll(255), WindowEventId::NoEvent);
}

#[test]
fn event_type_numbers() {
    assert_eq!(EventType::Quit.to_u32(), 0x100);
    assert_eq!(EventType::KeyDown.to_u32(), 0x300);
    assert_eq!(EventType::ControllerDeviceRemapped.to_u32(), 0x655);
    assert_eq!(EventType::DropFile.to_u32(), 0x1000);
    assert_eq!(EventType::User.to_u32(), 0x8000);
    assert_eq!(EventType::Last.to_u32(), 0xFFFF);
    assert_eq!(EventType::from_u32(0x402), Some(EventType::MouseButtonUp));
    assert_eq!(EventType::from_u32(0x201), None);
    assert_eq!(EventType::from_u32(0x8001), None);
    for code in 0u32..0x10000 {
        if let Some(k) = EventType::from_u32(code) {
            assert_eq!(k.to_u32(), code);
        }
    }
}

#[test]
fn null_record_holds_no_event() {
    let r = null_event();
    assert_eq!(r, vec![0u8; 56]);
    assert_eq!(raw_kind(&r), EventType::First);
    assert_eq!(decode(&r, true), Event::NoEvent);
    assert_eq!(decode(&r, false), Event::NoEvent);
}

#[test]
fn app_events_decode() {
    assert_eq!(decode(&record(0x100, 42), false), Event::Quit(42));
    assert_eq!(decode(&record(0x101, 1), false), Event::AppTerminating(1));
    assert_eq!(decode(&record(0x102, 2), false), Event::AppLowMemory(2));
    assert_eq!(decode(&record(0x103, 3), false), Event::AppWillEnterBackground(3));
    assert_eq!(decode(&record(0x104, 4), false), Event::AppDidEnterBackground(4));
    assert_eq!(decode(&record(0x105, 5), false), Event::AppWillEnterForeground(5));
    assert_eq!(decode(&record(0x106, 6), false), Event::AppDidEnterForeground(6));
    assert_eq!(decode(&record(0x900, 7), false), Event::ClipboardUpdate(7));
}

#[test]
fn window_event_decodes() {
    let mut r = record(0x200, 9);
    put(&mut r, 8, &3u32.to_le_bytes());
    r[12] = 5;
    put(&mut r, 16, &(-640i32).to_le_bytes());
    put(&mut r, 20, &480i32.to_le_bytes());
    assert_eq!(window_to_look_up(&r), Some(3));
    assert_eq!(decode(&r, true), Event::Window(9, 3, WindowEventId::Resized, -640, 480));
    assert_eq!(decode(&r, false), Event::NoEvent);
}

#[test]
fn key_events_decode() {
    let mut r = record(0x300, 10);
    put(&mut r, 8, &1u32.to_le_bytes());
    r[13] = 1;
    put(&mut r, 16, &4u32.to_le_bytes());
    put(&mut r, 20, &97i32.to_le_bytes());
    put(&mut r, 24, &0x0041u16.to_le_bytes());
    assert_eq!(decode(&r, true), Event::KeyDown(10, 1, 97, 4, 0x41, true));
    put(&mut r, 0, &0x301u32.to_le_bytes());
    r[13] = 0;
    assert_eq!(decode(&r, true), Event::KeyUp(10, 1, 97, 4, 0x41, false));
    assert_eq!(decode(&r, false), Event::NoEvent);
}

#[test]
fn key_events_with_undefined_codes_report_unknown() {
    let mut r = record(0x300, 10);
    put(&mut r, 8, &1u32.to_le_bytes());
    put(&mut r, 16, &130u32.to_le_bytes());
    put(&mut r, 20, &(-1i32).to_le_bytes());
    assert_eq!(decode(&r, true), Event::KeyDown(10, 1, 0, 0, 0, false));
    put(&mut r, 0, &0x301u32.to_le_bytes());
    put(&mut r, 16, &512u32.to_le_bytes());
    put(&mut r, 20, &0x4000_0039i32.to_le_bytes());
    assert_eq!(decode(&r, true), Event::KeyUp(10, 1, 0x4000_0039, 512, 0, false));
}

#[test]
fn key_and_scan_code_tables() {
    for k in [0i32, 8, 9, 13, 27, 32, 64, 91, 97, 122, 127, 0x4000_0039, 0x4000_004D, 0x4000_011A] {
        assert_eq!(key_code(k), k);
    }
    for k in [-1i32, 1, 65, 90, 123, 128, 0x4000_0000, 0x4000_004C, 0x4000_0064, 0x4000_011B, i32::MAX] {
        assert_eq!(key_code(k), 0);
    }
    for s in [0u32, 4, 100, 129, 133, 152, 164, 176, 221, 224, 231, 257, 284, 512] {
        assert_eq!(scan_code(s), s);
    }
    for s in [1u32, 3, 130, 132, 165, 175, 222, 232, 256, 285, 511, 513, u32::MAX] {
        assert_eq!(scan_code(s), 0);
    }
}

#[test]
fn key_event_with_unknown_modifier_bits_is_not_decodable() {
    let mut r = record(0x300, 10);
    put(&mut r, 24, &0x0004u16.to_le_bytes());
    assert!(!is_decodable(&r, true));
    assert!(is_decodable(&r, false));
    assert_eq!(Event::from_ll(&r, false, &[]), Event::NoEvent);
}

#[test]
fn short_record_is_not_decodable() {
    assert!(!is_decodable(&[0u8; 55], true));
    assert!(!is_decodable(&[0u8; 57], false));
}

#[test]
fn text_editing_decodes() {
    let mut r = record(0x302, 11);
    put(&mut r, 8, &2u32.to_le_bytes());
    put(&mut r, 12, b"hello\0junk");
    put(&mut r, 44, &3i32.to_le_bytes());
    put(&mut r, 48, &2i32.to_le_bytes());
    assert_eq!(decode(&r, true), Event::TextEditing(11, 2, "hello".to_string(), 3, 2));
    assert_eq!(decode(&r, false), Event::NoEvent);
}

#[test]
fn text_input_without_nul_takes_whole_field() {
    let mut r = record(0x303, 12);
    put(&mut r, 8, &2u32.to_le_bytes());
    put(&mut r, 12, &[b'x'; 32]);
    put(&mut r, 44, b"yy");
    assert_eq!(decode(&r, true), Event::TextInput(12, 2, "x".repeat(32)));
}

#[test]
fn text_input_invalid_utf8_is_replaced() {
    let mut r = record(0x303, 12);
    put(&mut r, 12, &[b'a', 0xFF, b'b', 0]);
    assert_eq!(decode(&r, true), Event::TextInput(12, 0, "a\u{FFFD}b".to_string()));
    let mut utf8 = record(0x303, 12);
    put(&mut utf8, 12, "é!".as_bytes());
    assert_eq!(decode(&utf8, true), Event::TextInput(12, 0, "é!".to_string()));
}

#[test]
fn mouse_events_decode() {
    let mut r = record(0x400, 13);
    put(&mut r, 8, &4u32.to_le_bytes());
    put(&mut r, 12, &7u32.to_le_bytes());
    put(&mut r, 16, &0xFFu32.to_le_bytes());
    put(&mut r, 20, &10i32.to_le_bytes());
    put(&mut r, 24, &20i32.to_le_bytes());
    put(&mut r, 28, &(-1i32).to_le_bytes());
    put(&mut r, 32, &(-2i32).to_le_bytes());
    assert_eq!(decode(&r, true), Event::MouseMotion(13, 4, 7, 0x1F, 10, 20, -1, -2));

    let mut b = record(0x401, 14);
    put(&mut b, 8, &4u32.to_le_bytes());
    put(&mut b, 12, &0u32.to_le_bytes());
    b[16] = 3;
    put(&mut b, 20, &5i32.to_le_bytes());
    put(&mut b, 24, &6i32.to_le_bytes());
    assert_eq!(decode(&b, true), Event::MouseButtonDown(14, 4, 0, 3, 5, 6));
    put(&mut b, 0, &0x402u32.to_le_bytes());
    assert_eq!(decode(&b, true), Event::MouseButtonUp(14, 4, 0, 3, 5, 6));

    let mut w = record(0x403, 15);
    put(&mut w, 8, &4u32.to_le_bytes());
    put(&mut w, 12, &1u32.to_le_bytes());
    put(&mut w, 16, &0i32.to_le_bytes());
    put(&mut w, 20, &(-3i32).to_le_bytes());
    assert_eq!(decode(&w, true), Event::MouseWheel(15, 4, 1, 0, -3));
    assert_eq!(decode(&w, false), Event::NoEvent);
}

#[test]
fn joystick_events_decode() {
    let mut a = record(0x600, 16);
    put(&mut a, 8, &(-1i32).to_le_bytes());
    a[12] = 2;
    put(&mut a, 16, &(-32768i16).to_le_bytes());
    assert_eq!(window_to_look_up(&a), None);
    assert_eq!(decode(&a, false), Event::JoyAxisMotion(16, -1, 2, -32768));

    let mut b = record(0x601, 17);
    put(&mut b, 8, &3i32.to_le_bytes());
    b[12] = 1;
    put(&mut b, 16, &5i16.to_le_bytes());
    put(&mut b, 18, &(-5i16).to_le_bytes());
    assert_eq!(decode(&b, false), Event::JoyBallMotion(17, 3, 1, 5, -5));

    let mut h = record(0x602, 18);
    put(&mut h, 8, &3i32.to_le_bytes());
    h[12] = 0;
    h[13] = 0x03;
    assert_eq!(decode(&h, false), Event::JoyHatMotion(18, 3, 0, 3));
    h[13] = 0x10;
    assert!(!is_decodable(&h, false));
    assert!(!is_decodable(&h, true));

    let mut p = record(0x603, 19);
    put(&mut p, 8, &3i32.to_le_bytes());
    p[12] = 9;
    assert_eq!(decode(&p, false), Event::JoyButtonDown(19, 3, 9));
    put(&mut p, 0, &0x604u32.to_le_bytes());
    assert_eq!(decode(&p, false), Event::JoyButtonUp(19, 3, 9));

    let mut d = record(0x605, 20);
    put(&mut d, 8, &6i32.to_le_bytes());
    assert_eq!(decode(&d, false), Event::JoyDeviceAdded(20, 6));
    put(&mut d, 0, &0x606u32.to_le_bytes());
    assert_eq!(decode(&d, false), Event::JoyDeviceRemoved(20, 6));
}

#[test]
fn controller_events_decode() {
    let mut a = record(0x650, 21);
    put(&mut a, 8, &1i32.to_le_bytes());
    a[12] = 4;
    put(&mut a, 16, &1234i16.to_le_bytes());
    assert_eq!(decode(&a, false), Event::ControllerAxisMotion(21, 1, 4, 1234));

    let mut b = record(0x651, 22);
    put(&mut b, 8, &1i32.to_le_bytes());
    b[12] = 7;
    assert_eq!(decode(&b, false), Event::ControllerButtonDown(22, 1, 7));
    put(&mut b, 0, &0x652u32.to_le_bytes());
    assert_eq!(decode(&b, false), Event::ControllerButtonUp(22, 1, 7));

    let mut d = record(0x653, 23);
    put(&mut d, 8, &2i32.to_le_bytes());
    assert_eq!(decode(&d, false), Event::ControllerDeviceAdded(23, 2));
    put(&mut d, 0, &0x654u32.to_le_bytes());
    assert_eq!(decode(&d, false), Event::ControllerDeviceRemoved(23, 2));
    put(&mut d, 0, &0x655u32.to_le_bytes());
    assert_eq!(decode(&d, false), Event::ControllerDeviceRemapped(23, 2));
}

#[test]
fn touch_events_decode() {
    let mut f = record(0x700, 24);
    put(&mut f, 8, &(-7i64).to_le_bytes());
    put(&mut f, 16, &(1i64 << 40).to_le_bytes());
    let floats = [0.5f32, -1.25, 0.0, 2.0, 1.0];
    for (i, x) in floats.iter().enumerate() {
        put(&mut f, 24 + 4 * i, &x.to_bits().to_le_bytes());
    }
    let expected = |kind: fn(u32, i64, i64, u32, u32, u32, u32, u32) -> Event| {
        kind(
            24,
            -7,
            1i64 << 40,
            0.5f32.to_bits(),
            (-1.25f32).to_bits(),
            0.0f32.to_bits(),
            2.0f32.to_bits(),
            1.0f32.to_bits(),
        )
    };
    assert_eq!(decode(&f, false), expected(Event::FingerDown));
    put(&mut f, 0, &0x701u32.to_le_bytes());
    assert_eq!(decode(&f, false), expected(Event::FingerUp));
    put(&mut f, 0, &0x702u32.to_le_bytes());
    assert_eq!(decode(&f, false), expected(Event::FingerMotion));
    if let Event::FingerMotion(_, _, _, x, y, ..) = decode(&f, false) {
        assert_eq!(f32::from_bits(x), 0.5);
        assert_eq!(f32::from_bits(y), -1.25);
    } else {
        panic!("not a finger event");
    }

    let mut g = record(0x800, 25);
    put(&mut g, 8, &1i64.to_le_bytes());
    put(&mut g, 16, &99i64.to_le_bytes());
    put(&mut g, 24, &3u32.to_le_bytes());
    put(&mut g, 28, &0.25f32.to_bits().to_le_bytes());
    put(&mut g, 32, &0.75f32.to_bits().to_le_bytes());
    put(&mut g, 36, &0.125f32.to_bits().to_le_bytes());
    let gesture = (0.25f32.to_bits(), 0.75f32.to_bits(), 0.125f32.to_bits());
    assert_eq!(
        decode(&g, false),
        Event::DollarGesture(25, 1, 99, 3, gesture.0, gesture.1, gesture.2)
    );
    put(&mut g, 0, &0x801u32.to_le_bytes());
    assert_eq!(
        decode(&g, false),
        Event::DollarRecord(25, 1, 99, 3, gesture.0, gesture.1, gesture.2)
    );

    let mut m = record(0x802, 26);
    put(&mut m, 8, &5i64.to_le_bytes());
    put(&mut m, 16, &0.1f32.to_bits().to_le_bytes());
    put(&mut m, 20, &0.2f32.to_bits().to_le_bytes());
    put(&mut m, 24, &0.3f32.to_bits().to_le_bytes());
    put(&mut m, 28, &0.4f32.to_bits().to_le_bytes());
    put(&mut m, 32, &2u16.to_le_bytes());
    assert_eq!(
        decode(&m, false),
        Event::MultiGesture(
            26,
            5,
            0.1f32.to_bits(),
            0.2f32.to_bits(),
            0.3f32.to_bits(),
            0.4f32.to_bits(),
            2
        )
    );
}

#[test]
fn drop_file_decodes() {
    let mut r = record(0x1000, 27);
    put(&mut r, 8, &0x1122_3344_5566_7788u64.to_le_bytes());
    assert_eq!(dropped_file_address(&r), Some(0x1122_3344_5566_7788));
    assert_eq!(
        Event::from_ll(&r, false, b"/tmp/a.txt"),
        Event::DropFile(27, "/tmp/a.txt".to_string())
    );
    assert_eq!(dropped_file_address(&record(0x100, 0)), None);
}

#[test]
fn user_events_decode() {
    let mut r = record(0x8000, 28);
    put(&mut r, 8, &8u32.to_le_bytes());
    put(&mut r, 12, &(-9i32).to_le_bytes());
    assert_eq!(window_to_look_up(&r), Some(8));
    assert_eq!(decode(&r, true), Event::User(28, 8, 0x8000, -9));
    assert_eq!(decode(&r, false), Event::NoEvent);
    put(&mut r, 0, &0x9001u32.to_le_bytes());
    assert_eq!(raw_kind(&r), EventType::User);
    assert_eq!(decode(&r, true), Event::User(28, 8, 0x9001, -9));
    put(&mut r, 0, &0x12345u32.to_le_bytes());
    assert_eq!(decode(&r, true), Event::User(28, 8, 0x12345, -9));
}

#[test]
fn undefined_types_below_user_range_hold_no_event() {
    for typ in [0x201u32, 0x500, 0x7FFF, 0x1001] {
        let mut r = record(typ, 1);
        put(&mut r, 8, &8u32.to_le_bytes());
        assert_eq!(window_to_look_up(&r), None);
        assert_eq!(decode(&r, true), Event::NoEvent);
        assert_eq!(decode(&r, false), Event::NoEvent);
    }
    assert_eq!(decode(&record(0xFFFF, 1), true), Event::NoEvent);
}

#[test]
fn user_event_writes_and_reads_back() {
    let e = Event::User(1234, 5, 0x8004, -77);
    let raw = e.to_ll().unwrap();
    assert_eq!(raw.len(), 56);
    assert_eq!(&raw[0..4], &0x8004u32.to_le_bytes());
    assert_eq!(&raw[4..8], &[0, 0, 0, 0]);
    assert_eq!(&raw[8..12], &5u32.to_le_bytes());
    assert_eq!(&raw[12..16], &(-77i32).to_le_bytes());
    assert!(raw[16..].iter().all(|b| *b == 0));
    assert_eq!(decode(&raw, true), Event::User(0, 5, 0x8004, -77));
}

#[test]
fn only_user_events_have_raw_records() {
    assert_eq!(Event::Quit(1).to_ll(), None);
    assert_eq!(Event::NoEvent.to_ll(), None);
    assert_eq!(Event::TextInput(1, 2, "a".to_string()).to_ll(), None);
    assert!(Event::User(0, 0, 0, 0).to_ll().is_some());
}

#[test]
fn push_event_records() {
    let ok = push_event_record(&Event::User(3, 4, 0x8001, 5)).unwrap();
    assert_eq!(Some(ok), Event::User(3, 4, 0x8001, 5).to_ll());
    assert_eq!(
        push_event_record(&Event::Quit(3)),
        Err("Unsupport event type to push back to queue.".to_string())
    );
}

#[test]
fn register_events_results() {
    assert_eq!(register_events_result(0x8000), Some(0x8000));
    assert_eq!(register_events_result(0), Some(0));
    assert_eq!(register_events_result(u32::MAX), None);
}

#[test]
fn event_names() {
    assert_eq!(Event::NoEvent.name(), "Event::None");
    assert_eq!(Event::Quit(0).name(), "Event::Quit");
    assert_eq!(Event::JoyHatMotion(0, 0, 0, 0).name(), "Event::JoyHatMotion");
    assert_eq!(Event::DropFile(0, String::new()).name(), "Event::DropFile");
    assert_eq!(Event::User(0, 0, 0, 0).name(), "Event::User");
}
