use raw_window_handle::{
    RawDisplayHandle, RawWindowHandle, Win32WindowHandle, WinRTWindowHandle, WindowsDisplayHandle,
};
use std::collections::hash_map::DefaultHasher;
use std::collections::HashSet;
use std::hash::{Hash, Hasher};

fn hash_of<T: Hash>(value: &T) -> u64 {
    let mut hasher = DefaultHasher::new();
    value.hash(&mut hasher);
    hasher.finish()
}

fn win32(hwnd: usize, hinstance: usize) -> Win32WindowHandle {
    let mut payload = Win32WindowHandle::empty();
    payload.hwnd = hwnd;
    payload.hinstance = hinstance;
    payload
}

fn winrt(core_window: usize) -> WinRTWindowHandle {
    let mut payload = WinRTWindowHandle::empty();
    payload.core_window = core_window;
    payload
}

#[test]
fn empty_payloads_hold_only_sentinels() {
    let w = Win32WindowHandle::empty();
    assert_eq!(w.hwnd, 0);
    assert_eq!(w.hinstance, 0);
    let r = WinRTWindowHandle::empty();
    assert_eq!(r.core_window, 0);
    assert_eq!(WindowsDisplayHandle::empty(), WindowsDisplayHandle::empty());
}

#[test]
fn win32_hwnd_survives_wrapping() {
    let mut payload = Win32WindowHandle::empty();
    payload.hwnd = 12345;
    let handle = RawWindowHandle::from(payload);
    match handle {
        RawWindowHandle::Win32(back) => {
            assert_eq!(back.hwnd, 12345);
            assert_eq!(back.hinstance, 0);
        }
        _ => panic!("a Win32 payload came back under another tag"),
    }
}

#[test]
fn win32_round_trip_keeps_both_fields() {
    let payload = win32(0xdead_beef, 0x4000_0000);
    let handle = RawWindowHandle::from(payload);
    match handle {
        RawWindowHandle::Win32(back) => {
            assert_eq!(back, payload);
            assert_eq!(back.hwnd, 0xdead_beef);
            assert_eq!(back.hinstance, 0x4000_0000);
        }
        _ => panic!("a Win32 payload came back under another tag"),
    }
}

#[test]
fn winrt_round_trip_keeps_the_field() {
    let payload = winrt(777);
    let handle: RawWindowHandle = payload.into();
    match handle {
        RawWindowHandle::WinRT(back) => {
            assert_eq!(back, payload);
            assert_eq!(back.core_window, 777);
        }
        _ => panic!("a WinRT payload came back under another tag"),
    }
}

#[test]
fn windows_display_round_trip() {
    let payload = WindowsDisplayHandle::empty();
    let handle = RawDisplayHandle::from(payload);
    match handle {
        RawDisplayHandle::Windows(back) => assert_eq!(back, payload),
        _ => panic!("a Windows payload came back under another tag"),
    }
}

#[test]
fn from_builds_the_named_variant() {
    assert_eq!(RawWindowHandle::from(win32(1, 2)), RawWindowHandle::Win32(win32(1, 2)));
    assert_eq!(RawWindowHandle::from(winrt(3)), RawWindowHandle::WinRT(winrt(3)));
    assert_eq!(
        RawDisplayHandle::from(WindowsDisplayHandle::empty()),
        RawDisplayHandle::Windows(WindowsDisplayHandle::empty())
    );
}

#[test]
fn absent_and_populated_field_differ() {
    let absent = RawWindowHandle::from(win32(12345, 0));
    let populated = RawWindowHandle::from(win32(12345, 99));
    assert_ne!(absent, populated);
    assert!(!(absent == populated));
    assert!(absent != populated);

    let absent = RawWindowHandle::from(winrt(0));
    let populated = RawWindowHandle::from(winrt(1));
    assert_ne!(absent, populated);
}

#[test]
fn payloads_compare_field_by_field() {
    assert_eq!(win32(1, 2), win32(1, 2));
    assert_ne!(win32(1, 2), win32(2, 1));
    assert_ne!(win32(1, 2), win32(1, 3));
    assert_ne!(win32(1, 2), win32(0, 2));
    assert_eq!(winrt(5), winrt(5));
    assert_ne!(winrt(5), winrt(6));
}

#[test]
fn equality_is_an_equivalence() {
    let a = RawWindowHandle::from(win32(10, 20));
    let b = RawWindowHandle::from(win32(10, 20));
    let c = RawWindowHandle::Win32(win32(10, 20));
    let other = RawWindowHandle::from(winrt(10));
    assert!(a == a);
    assert!(other == other);
    assert!(a == b && b == a);
    assert!(a == b && b == c && a == c);
    assert!(a != other && other != a);
}

#[test]
fn same_number_under_different_tags_is_unequal() {
    let as_win32 = RawWindowHandle::from(win32(42, 0));
    let as_winrt = RawWindowHandle::from(winrt(42));
    assert_ne!(as_win32, as_winrt);
    assert_ne!(RawWindowHandle::from(win32(0, 0)), RawWindowHandle::from(winrt(0)));
}

#[test]
fn equal_handles_hash_alike() {
    let a = RawWindowHandle::from(win32(12345, 6));
    let b = RawWindowHandle::Win32(win32(12345, 6));
    assert_eq!(a, b);
    assert_eq!(hash_of(&a), hash_of(&b));

    let c = RawWindowHandle::from(winrt(9));
    let d = RawWindowHandle::WinRT(winrt(9));
    assert_eq!(c, d);
    assert_eq!(hash_of(&c), hash_of(&d));

    let e = RawDisplayHandle::from(WindowsDisplayHandle::empty());
    let f = RawDisplayHandle::Windows(WindowsDisplayHandle::empty());
    assert_eq!(e, f);
    assert_eq!(hash_of(&e), hash_of(&f));

    assert_eq!(hash_of(&win32(1, 2)), hash_of(&win32(1, 2)));
    assert_eq!(hash_of(&winrt(1)), hash_of(&winrt(1)));
}

#[test]
fn handles_deduplicate_in_a_set() {
    let mut seen: HashSet<RawWindowHandle> = HashSet::new();
    assert!(seen.insert(RawWindowHandle::from(win32(1, 0))));
    assert!(!seen.insert(RawWindowHandle::from(win32(1, 0))));
    assert!(seen.insert(RawWindowHandle::from(win32(1, 1))));
    assert!(seen.insert(RawWindowHandle::from(winrt(1))));
    assert!(!seen.insert(RawWindowHandle::WinRT(winrt(1))));
    assert_eq!(seen.len(), 3);
    assert!(seen.contains(&RawWindowHandle::Win32(win32(1, 1))));
    assert!(!seen.contains(&RawWindowHandle::Win32(win32(2, 1))));
}

#[test]
fn matching_under_the_wrong_tag_takes_the_fallback() {
    let handle = RawWindowHandle::from(win32(12345, 0));
    let as_winrt = match handle {
        RawWindowHandle::WinRT(payload) => Some(payload),
        _ => None,
    };
    assert_eq!(as_winrt, None);
    assert!(matches!(handle, RawWindowHandle::Win32(_)));
    assert!(!matches!(handle, RawWindowHandle::WinRT(_)));

    let handle = RawWindowHandle::from(winrt(12345));
    let as_win32 = match handle {
        RawWindowHandle::Win32(payload) => Some(payload),
        _ => None,
    };
    assert_eq!(as_win32, None);
}

#[test]
fn handles_are_plain_copies() {
    let first = RawWindowHandle::from(win32(8, 9));
    let copy = first;
    let clone = first.clone();
    assert_eq!(first, copy);
    assert_eq!(first, clone);

    let display = RawDisplayHandle::from(WindowsDisplayHandle::empty());
    let copy = display;
    assert_eq!(display, copy);
}

#[test]
fn debug_names_tag_and_fields() {
    let handle = RawWindowHandle::from(win32(12345, 0));
    assert_eq!(
        format!("{:?}", handle),
        "Win32(Win32WindowHandle { hwnd: 12345, hinstance: 0 })"
    );
    let handle = RawWindowHandle::from(winrt(7));
    assert_eq!(format!("{:?}", handle), "WinRT(WinRTWindowHandle { core_window: 7 })");
}
