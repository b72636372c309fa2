//! Account addresses and their textual form.

use vstd::prelude::*;
use vstd::string::*;

verus! {

/// A 160-bit account address, most significant byte first.
#[derive(Clone, Copy, Debug, PartialEq, Eq, Hash)]
pub struct Address {
    pub bytes: [u8; 20],
}

impl View for Address {
    type V = Seq<u8>;

    open spec fn view(&self) -> Seq<u8> {
        self.bytes@
    }
}

/// The value of a hexadecimal digit, of either case.
pub open spec fn hex_value(c: char) -> Option<u8> {
    if '0' <= c <= '9' {
        Some((c as u8 - 48) as u8)
    } else if 'a' <= c <= 'f' {
        Some((c as u8 - 87) as u8)
    } else if 'A' <= c <= 'F' {
        Some((c as u8 - 55) as u8)
    } else {
        None
    }
}

/// Whether the text opens with the marker `0x`.
pub open spec fn has_hex_marker(text: Seq<char>) -> bool {
    text.len() >= 2 && text[0] == '0' && text[1] == 'x'
}

/// The text without its `0x` marker, where it has one.
pub open spec fn hex_digits(text: Seq<char>) -> Seq<char> {
    if has_hex_marker(text) {
        text.subrange(2, text.len() as int)
    } else {
        text
    }
}

/// Whether the text is an address: forty hexadecimal digits, with or
/// without a leading `0x`.
pub open spec fn is_address_text(text: Seq<char>) -> bool {
    let digits = hex_digits(text);
    &&& digits.len() == 40
    &&& forall|i: int| 0 <= i < 40 ==> (#[trigger] hex_value(digits[i])) is Some
}

/// The byte that two hexadecimal digits spell, the first one being the high
/// half.
pub open spec fn byte_of_digits(high: char, low: char) -> u8 {
    (16 * hex_value(high).unwrap() + hex_value(low).unwrap()) as u8
}

/// The twenty bytes that an address text spells.
pub open spec fn address_bytes(text: Seq<char>) -> Seq<u8> {
    let digits = hex_digits(text);
    Seq::new(20, |i: int| byte_of_digits(digits[2 * i], digits[2 * i + 1]))
}

/// The value of one ASCII byte read as a hexadecimal digit.
fn digit_value(byte: u8) -> (r: Option<u8>)
    requires
        byte <= 127,
    ensures
        r == hex_value(byte as char),
        r is Some ==> r.unwrap() < 16,
{
    if 48 <= byte && byte <= 57 {
        Some(byte - 48)
    } else if 97 <= byte && byte <= 102 {
        Some(byte - 87)
    } else if 65 <= byte && byte <= 70 {
        Some(byte - 55)
    } else {
        None
    }
}

impl Address {
    /// The address whose bytes are all zero.
    pub fn zero() -> (r: Address)
        ensures
            r@ == Seq::new(20, |i: int| 0u8),
    {
        Address { bytes: [0u8; 20] }
    }

    /// Whether every byte is zero.
    pub open spec fn is_zero(&self) -> bool {
        forall|i: int| 0 <= i < 20 ==> self@[i] == 0
    }

    /// Reads an address from text. The text is an address exactly when it
    /// holds forty hexadecimal digits, after an optional `0x`.
    pub fn from_hex(text: &str) -> (r: Option<Address>)
        ensures
            r is Some <==> is_address_text(text@),
            r is Some ==> r.unwrap()@ == address_bytes(text@),
    {
        if !text.is_ascii() {
            proof {
                let i = choose|i: int| 0 <= i < text@.len() && !('\0' <= #[trigger] text@[i] <= '\u{7f}');
                if has_hex_marker(text@) {
                    if i >= 2 {
                        assert(hex_value(hex_digits(text@)[i - 2]) is None);
                    }
                } else {
                    assert(hex_value(hex_digits(text@)[i]) is None);
                }
            }
            return None;
        }
        let n: usize = text.unicode_len();
        let marked: bool = n >= 2 && text.get_ascii(0) == 48 && text.get_ascii(1) == 120;
        let start: usize = if marked { 2 } else { 0 };
        if n - start != 40 {
            return None;
        }
        let ghost digits = hex_digits(text@);
        let mut bytes: [u8; 20] = [0u8; 20];
        let mut i: usize = 0;
        while i < 20
            invariant
                0 <= i <= 20,
                is_ascii(text),
                text@.len() == start + 40,
                start <= 2,
                digits == hex_digits(text@),
                digits.len() == 40,
                forall|k: int| 0 <= k < 40 ==> digits[k] == text@[start + k],
                forall|k: int| 0 <= k < 2 * i ==> (#[trigger] hex_value(digits[k])) is Some,
                forall|k: int| 0 <= k < i ==> bytes@[k] == byte_of_digits(digits[2 * k], digits[2 * k + 1]),
            decreases 20 - i,
        {
            let high_byte: u8 = text.get_ascii(start + 2 * i);
            let low_byte: u8 = text.get_ascii(start + 2 * i + 1);
            match (digit_value(high_byte), digit_value(low_byte)) {
                (Some(high), Some(low)) => {
                    bytes[i] = high * 16 + low;
                },
                _ => {
                    assert(hex_value(digits[2 * i]) is None || hex_value(digits[2 * i + 1]) is None);
                    return None;
                },
            }
            i = i + 1;
        }
        let r = Address { bytes };
        Some(r)
    }
}

} // verus!
