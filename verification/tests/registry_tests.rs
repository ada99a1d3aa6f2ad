use keymap_detect::registry::{on_global_announced, Bind, SEAT_INTERFACE, SEAT_VERSION};
use keymap_detect::text::str_eq;

#[test]
fn seat_announcement_is_bound_at_version_one() {
    assert_eq!(on_global_announced(1, "seat", 1), Some(Bind { global: 1, version: 1 }));
}

#[test]
fn seat_is_bound_at_version_one_whatever_version_is_offered() {
    assert_eq!(on_global_announced(7, "seat", 9), Some(Bind { global: 7, version: 1 }));
    assert_eq!(on_global_announced(7, "seat", 0), Some(Bind { global: 7, version: 1 }));
    assert_eq!(on_global_announced(7, "seat", u32::MAX), Some(Bind { global: 7, version: 1 }));
}

#[test]
fn bind_names_the_announced_global() {
    assert_eq!(on_global_announced(0, "seat", 1).map(|b| b.global), Some(0));
    assert_eq!(on_global_announced(u32::MAX, "seat", 1).map(|b| b.global), Some(u32::MAX));
}

#[test]
fn other_interfaces_are_not_bound() {
    for name in ["compositor", "output", "shm", "keyboard", "data_device_manager"] {
        assert_eq!(on_global_announced(3, name, 1), None, "{}", name);
    }
}

#[test]
fn near_misses_of_the_seat_name_are_not_bound() {
    for name in ["", "s", "sea", "seats", "seat ", " seat", "Seat", "SEAT", "seat\0", "se\u{e4}t"] {
        assert_eq!(on_global_announced(3, name, 1), None, "{:?}", name);
    }
}

#[test]
fn seat_constants() {
    assert_eq!(SEAT_INTERFACE, "seat");
    assert_eq!(SEAT_VERSION, 1);
}

#[test]
fn str_eq_agrees_with_equality() {
    let samples = ["", "a", "seat", "seats", "sea", "s\u{e9}at", "\u{1f600}", "\u{1f600}\u{1f600}", "\0"];
    for a in samples {
        for b in samples {
            assert_eq!(str_eq(a, b), a == b, "{:?} {:?}", a, b);
        }
    }
}

#[test]
fn str_eq_tells_apart_texts_of_equal_length() {
    assert!(!str_eq("seat", "seal"));
    assert!(!str_eq("seat", "beat"));
    assert!(str_eq("seat", "seat"));
}
