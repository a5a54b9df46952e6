use bridge_bootstrap::identity::{derive_identity, HardwareId};

fn hw(octets: [u8; 6]) -> HardwareId {
    HardwareId { octets }
}

#[test]
fn identity_of_sample_address() {
    let id = derive_identity(hw([0xaa, 0xbb, 0xcc, 0xdd, 0xee, 0xff]));
    assert_eq!(id, "aabbccfffeddeeff");
}

#[test]
fn identity_of_zero_address() {
    assert_eq!(derive_identity(hw([0; 6])), "000000fffe000000");
}

#[test]
fn identity_digits_are_lower_case_and_padded() {
    let id = derive_identity(hw([0x00, 0x17, 0x88, 0x0a, 0xb0, 0x9f]));
    assert_eq!(id, "001788fffe0ab09f");
    assert_eq!(id.len(), 16);
}

#[test]
fn identity_is_deterministic() {
    let a = hw([1, 2, 3, 4, 5, 6]);
    assert_eq!(derive_identity(a), derive_identity(a));
}

#[test]
fn identity_tells_addresses_apart() {
    let base: [u8; 6] = [0x10, 0x20, 0x30, 0x40, 0x50, 0x60];
    let first = derive_identity(hw(base));
    for position in 0..6 {
        for delta in [1u8, 0x0f, 0x10, 0xf0, 0xff] {
            let mut other = base;
            other[position] = other[position].wrapping_add(delta);
            assert_ne!(derive_identity(hw(other)), first);
        }
    }
}

#[test]
fn identity_keeps_nibble_order() {
    assert_ne!(
        derive_identity(hw([0x12, 0, 0, 0, 0, 0])),
        derive_identity(hw([0x21, 0, 0, 0, 0, 0]))
    );
    assert_eq!(derive_identity(hw([0x12, 0, 0, 0, 0, 0])), "120000fffe000000");
}
