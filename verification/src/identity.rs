//! The hardware identifier of the device and the bridge identity derived from it.

use vstd::prelude::*;
use vstd::string::*;

verus! {

/// A six-byte, MAC-like hardware address.
#[derive(Clone, Copy, Debug, PartialEq, Eq)]
pub struct HardwareId {
    pub octets: [u8; 6],
}

impl View for HardwareId {
    type V = Seq<u8>;

    open spec fn view(&self) -> Seq<u8> {
        self.octets@
    }
}

/// The lower-case hexadecimal digit for a value below sixteen.
pub open spec fn hex_digit(n: int) -> char {
    if n == 0 {
        '0'
    } else if n == 1 {
        '1'
    } else if n == 2 {
        '2'
    } else if n == 3 {
        '3'
    } else if n == 4 {
        '4'
    } else if n == 5 {
        '5'
    } else if n == 6 {
        '6'
    } else if n == 7 {
        '7'
    } else if n == 8 {
        '8'
    } else if n == 9 {
        '9'
    } else if n == 10 {
        'a'
    } else if n == 11 {
        'b'
    } else if n == 12 {
        'c'
    } else if n == 13 {
        'd'
    } else if n == 14 {
        'e'
    } else {
        'f'
    }
}

/// Two hexadecimal digits per byte, high nibble first.
pub open spec fn hex_encode(bytes: Seq<u8>) -> Seq<char> {
    Seq::new(
        2 * bytes.len(),
        |i: int|
            if i % 2 == 0 {
                hex_digit(bytes[i / 2] as int / 16)
            } else {
                hex_digit(bytes[i / 2] as int % 16)
            },
    )
}

/// The eight identity bytes: the address with `ff fe` set into its middle.
pub open spec fn identity_bytes(hw: Seq<u8>) -> Seq<u8> {
    seq![hw[0], hw[1], hw[2], 0xffu8, 0xfeu8, hw[3], hw[4], hw[5]]
}

/// The bridge identity of a hardware address: sixteen hexadecimal characters.
pub open spec fn identity_of(hw: HardwareId) -> Seq<char> {
    hex_encode(identity_bytes(hw@))
}

fn hex_str(n: u8) -> (r: &'static str)
    requires
        n < 16,
    ensures
        r@.len() == 1,
        r@[0] == hex_digit(n as int),
{
    proof {
        reveal_strlit("0");
        reveal_strlit("1");
        reveal_strlit("2");
        reveal_strlit("3");
        reveal_strlit("4");
        reveal_strlit("5");
        reveal_strlit("6");
        reveal_strlit("7");
        reveal_strlit("8");
        reveal_strlit("9");
        reveal_strlit("a");
        reveal_strlit("b");
        reveal_strlit("c");
        reveal_strlit("d");
        reveal_strlit("e");
        reveal_strlit("f");
    }
    match n {
        0 => "0",
        1 => "1",
        2 => "2",
        3 => "3",
        4 => "4",
        5 => "5",
        6 => "6",
        7 => "7",
        8 => "8",
        9 => "9",
        10 => "a",
        11 => "b",
        12 => "c",
        13 => "d",
        14 => "e",
        _ => "f",
    }
}

/// Derives the bridge identity from the hardware address.
pub fn derive_identity(hw: HardwareId) -> (id: String)
    ensures
        id@ == identity_of(hw),
        id@.len() == 16,
{
    let m = hw.octets;
    let raw: [u8; 8] = [m[0], m[1], m[2], 0xff, 0xfe, m[3], m[4], m[5]];
    assert(raw@ =~= identity_bytes(hw@));
    let mut out = String::new();
    let mut i: usize = 0;
    while i < 8
        invariant
            i <= 8,
            raw@ == identity_bytes(hw@),
            out@.len() == 2 * i,
            forall|j: int| 0 <= j < 2 * i ==> out@[j] == #[trigger] hex_encode(raw@)[j],
        decreases 8 - i,
    {
        let b: u8 = raw[i];
        let hi = hex_str(b / 16);
        let lo = hex_str(b % 16);
        out.append(hi);
        out.append(lo);
        i = i + 1;
    }
    assert(out@ =~= hex_encode(raw@));
    out
}

proof fn lemma_hex_digit_injective(x: int, y: int)
    requires
        0 <= x < 16,
        0 <= y < 16,
        hex_digit(x) == hex_digit(y),
    ensures
        x == y,
{
}

proof fn lemma_hex_byte_injective(a: Seq<u8>, b: Seq<u8>, k: int)
    requires
        a.len() == b.len(),
        0 <= k < a.len(),
        hex_encode(a) == hex_encode(b),
    ensures
        a[k] == b[k],
{
    assert((2 * k) / 2 == k && (2 * k) % 2 == 0);
    assert((2 * k + 1) / 2 == k && (2 * k + 1) % 2 == 1);
    assert(hex_encode(a)[2 * k] == hex_digit(a[k] as int / 16));
    assert(hex_encode(b)[2 * k] == hex_digit(b[k] as int / 16));
    assert(hex_encode(a)[2 * k + 1] == hex_digit(a[k] as int % 16));
    assert(hex_encode(b)[2 * k + 1] == hex_digit(b[k] as int % 16));
    lemma_hex_digit_injective(a[k] as int / 16, b[k] as int / 16);
    lemma_hex_digit_injective(a[k] as int % 16, b[k] as int % 16);
}

/// Two hardware addresses have the same bridge identity exactly when they are
/// the same address: the derivation is a function, and no two addresses
/// collide.
pub proof fn lemma_identity_injective(a: HardwareId, b: HardwareId)
    ensures
        identity_of(a) == identity_of(b) <==> a == b,
{
    if identity_of(a) == identity_of(b) {
        let x = identity_bytes(a@);
        let y = identity_bytes(b@);
        lemma_hex_byte_injective(x, y, 0);
        lemma_hex_byte_injective(x, y, 1);
        lemma_hex_byte_injective(x, y, 2);
        lemma_hex_byte_injective(x, y, 5);
        lemma_hex_byte_injective(x, y, 6);
        lemma_hex_byte_injective(x, y, 7);
        assert(a.octets@ =~= b.octets@);
        assert(a.octets == b.octets);
    }
}

} // verus!
