use keymap_detect::seat::{on_capabilities_changed, CapabilitySet, DeviceClass, GetKeyboard};

#[test]
fn device_class_masks() {
    assert_eq!(DeviceClass::Pointer.mask(), 1);
    assert_eq!(DeviceClass::Keyboard.mask(), 2);
    assert_eq!(DeviceClass::Touch.mask(), 4);
}

#[test]
fn capability_set_keeps_its_bits() {
    for bits in [0u32, 1, 2, 3, 4, 5, 6, 7, 8, 0x8000_0002, u32::MAX] {
        assert_eq!(CapabilitySet::from_bits(bits).bits(), bits);
    }
}

#[test]
fn capability_set_contains_each_class_by_its_bit() {
    let all = [DeviceClass::Pointer, DeviceClass::Keyboard, DeviceClass::Touch];
    for bits in 0u32..16 {
        let set = CapabilitySet::from_bits(bits);
        for class in all {
            assert_eq!(set.contains(class), bits & class.mask() != 0);
        }
        assert_eq!(set.has_keyboard(), bits & 2 != 0);
    }
}

#[test]
fn keyboard_capability_requests_keyboard_from_that_seat() {
    assert_eq!(
        on_capabilities_changed(12, CapabilitySet::from_bits(2)),
        Some(GetKeyboard { seat: 12 })
    );
    assert_eq!(
        on_capabilities_changed(0, CapabilitySet::from_bits(7)),
        Some(GetKeyboard { seat: 0 })
    );
}

#[test]
fn no_keyboard_capability_requests_nothing() {
    for bits in [0u32, 1, 4, 5, 8, 0xffff_fffd] {
        assert_eq!(on_capabilities_changed(12, CapabilitySet::from_bits(bits)), None);
    }
}

#[test]
fn unknown_bits_do_not_hide_the_keyboard() {
    for bits in [0x12u32, 0x8000_0002, u32::MAX] {
        assert_eq!(
            on_capabilities_changed(4, CapabilitySet::from_bits(bits)),
            Some(GetKeyboard { seat: 4 })
        );
    }
}

#[test]
fn repeated_capabilities_request_again() {
    let caps = CapabilitySet::from_bits(3);
    let first = on_capabilities_changed(5, caps);
    let second = on_capabilities_changed(5, caps);
    assert_eq!(first, Some(GetKeyboard { seat: 5 }));
    assert_eq!(second, Some(GetKeyboard { seat: 5 }));
}
