//! Paste identifiers: sixteen random bytes, written as thirty-two lowercase
//! hexadecimal digits where they serve as a storage key or a path segment.

use vstd::prelude::*;
use crate::text::{chars_of, string_of};

verus! {

/// Number of characters in the text form of an identifier.
pub const KEY_LEN: usize = 32;

/// The lowercase hexadecimal digit for a value below sixteen.
pub open spec fn lower_hex_digit(d: int) -> char {
    if d < 10 {
        (('0' as int) + d) as char
    } else {
        (('a' as int) + d - 10) as char
    }
}

/// The value of a hexadecimal digit of either case, if `c` is one.
pub open spec fn hex_digit_value(c: char) -> Option<int> {
    if '0' <= c <= '9' {
        Some(c as int - '0' as int)
    } else if 'a' <= c <= 'f' {
        Some(c as int - 'a' as int + 10)
    } else if 'A' <= c <= 'F' {
        Some(c as int - 'A' as int + 10)
    } else {
        None
    }
}

/// Whether `c` is one of `0`-`9`, `a`-`f`.
pub open spec fn is_lower_hex(c: char) -> bool {
    '0' <= c <= '9' || 'a' <= c <= 'f'
}

/// The hexadecimal text of a sequence of bytes: two lowercase digits for
/// each byte, the high half first.
pub open spec fn hex_text(bytes: Seq<u8>) -> Seq<char> {
    Seq::new(
        2 * bytes.len(),
        |i: int|
            if i % 2 == 0 {
                lower_hex_digit(bytes[i / 2] as int / 16)
            } else {
                lower_hex_digit(bytes[i / 2] as int % 16)
            },
    )
}

/// Whether `s` is well formed as an identifier: exactly thirty-two
/// hexadecimal digits, of either case.
pub open spec fn is_well_formed(s: Seq<char>) -> bool {
    &&& s.len() == KEY_LEN
    &&& forall|i: int| 0 <= i < s.len() ==> (#[trigger] hex_digit_value(s[i])) is Some
}

/// Whether `key` is the text that an identifier is written as: thirty-two
/// lowercase hexadecimal digits.
pub open spec fn is_key(key: Seq<char>) -> bool {
    &&& key.len() == KEY_LEN
    &&& forall|i: int| 0 <= i < key.len() ==> is_lower_hex(#[trigger] key[i])
}

/// The bytes that a well-formed text stands for.
pub open spec fn hex_bytes(s: Seq<char>) -> Seq<u8> {
    Seq::new(
        s.len() / 2,
        |i: int| (hex_digit_value(s[2 * i])->0 * 16 + hex_digit_value(s[2 * i + 1])->0) as u8,
    )
}

/// A paste's identifier.
#[derive(Clone, Copy, Debug, PartialEq, Eq)]
pub struct PasteId {
    pub bytes: [u8; 16],
}

impl View for PasteId {
    type V = Seq<u8>;

    open spec fn view(&self) -> Seq<u8> {
        self.bytes@
    }
}

impl PasteId {
    /// Whether the fixed bits say "random identifier": the high half of the
    /// seventh byte is 4, the two highest bits of the ninth byte are `10`.
    pub open spec fn is_random_version(&self) -> bool {
        &&& self.bytes@[6] / 16 == 4
        &&& self.bytes@[8] / 64 == 2
    }

    /// The storage key of this identifier.
    pub open spec fn key(&self) -> Seq<char> {
        hex_text(self@)
    }

    /// The bytes of the identifier that `s` is the text form of, if it is
    /// one.
    pub open spec fn parse_spec(s: Seq<char>) -> Option<Seq<u8>> {
        if is_well_formed(s) {
            Some(hex_bytes(s))
        } else {
            None
        }
    }

    /// A fresh identifier from the system's random source.
    pub fn generate() -> (id: PasteId)
        ensures
            id.is_random_version(),
    {
        PasteId { bytes: random_uuid_bytes() }
    }

    /// The identifier written as thirty-two lowercase hexadecimal digits.
    pub fn to_key(&self) -> (key: String)
        ensures
            key@ == self.key(),
            is_key(key@),
    {
        let mut digits: Vec<char> = Vec::new();
        let mut i: usize = 0;
        while i < 16
            invariant
                i <= 16,
                digits@.len() == 2 * i,
                forall|j: int| 0 <= j < digits@.len() ==> digits@[j] == hex_text(self@)[j],
            decreases 16 - i,
        {
            let b: u8 = self.bytes[i];
            digits.push(digit_char(b / 16));
            digits.push(digit_char(b % 16));
            i = i + 1;
        }
        proof {
            assert(digits@ =~= hex_text(self@));
            assert forall|j: int| 0 <= j < digits@.len() implies is_lower_hex(
                #[trigger] digits@[j],
            ) by {
                lemma_digit_is_lower_hex(self@[j / 2] as int / 16);
                lemma_digit_is_lower_hex(self@[j / 2] as int % 16);
            }
        }
        string_of(&digits)
    }

    /// Reads an identifier from its text form. Digits of either case are
    /// taken; anything but thirty-two hexadecimal digits is no identifier.
    pub fn parse(s: &str) -> (r: Option<PasteId>)
        ensures
            match r {
                Some(id) => PasteId::parse_spec(s@) == Some(id@),
                None => PasteId::parse_spec(s@) is None,
            },
    {
        let chars = chars_of(s);
        if chars.len() != KEY_LEN {
            return None;
        }
        let mut bytes: [u8; 16] = [0u8; 16];
        let mut i: usize = 0;
        while i < 16
            invariant
                i <= 16,
                chars@.len() == 32,
                chars@ == s@,
                forall|j: int| 0 <= j < 2 * i ==> (#[trigger] hex_digit_value(chars@[j])) is Some,
                forall|j: int| 0 <= j < i ==> bytes@[j] == #[trigger] hex_bytes(chars@)[j],
            decreases 16 - i,
        {
            let hi = match digit_value(chars[2 * i]) {
                Some(d) => d,
                None => { return None; },
            };
            let lo = match digit_value(chars[2 * i + 1]) {
                Some(d) => d,
                None => { return None; },
            };
            bytes[i] = hi * 16 + lo;
            i = i + 1;
        }
        proof {
            assert(bytes@ =~= hex_bytes(s@));
        }
        Some(PasteId { bytes })
    }
}

/// Sixteen bytes from `uuid::Uuid::new_v4`, which fills them from the
/// system's random source and then fixes the version (the high half of the
/// seventh byte becomes 4) and the variant (the two highest bits of the ninth
/// byte become `10`).
#[verifier::external_body]
fn random_uuid_bytes() -> (bytes: [u8; 16])
    ensures
        bytes@[6] / 16 == 4,
        bytes@[8] / 64 == 2,
{
    *uuid::Uuid::new_v4().as_bytes()
}

/// The lowercase hexadecimal digit for a value below sixteen.
pub fn digit_char(d: u8) -> (c: char)
    requires
        d < 16,
    ensures
        c == lower_hex_digit(d as int),
{
    if d < 10 {
        (48u8 + d) as char
    } else {
        (87u8 + d) as char
    }
}

/// The value of a hexadecimal digit of either case.
pub fn digit_value(c: char) -> (r: Option<u8>)
    ensures
        r is Some <==> hex_digit_value(c) is Some,
        r matches Some(d) ==> d < 16 && d as int == hex_digit_value(c)->0,
{
    if '0' <= c && c <= '9' {
        Some((c as u32 - '0' as u32) as u8)
    } else if 'a' <= c && c <= 'f' {
        Some((c as u32 - 'a' as u32 + 10) as u8)
    } else if 'A' <= c && c <= 'F' {
        Some((c as u32 - 'A' as u32 + 10) as u8)
    } else {
        None
    }
}

/// Each digit that is written is read back as the value it was written for.
pub proof fn lemma_digit_is_lower_hex(d: int)
    requires
        0 <= d < 16,
    ensures
        is_lower_hex(lower_hex_digit(d)),
        hex_digit_value(lower_hex_digit(d)) == Some(d),
{
}

/// Reading a key gives back the identifier it was written from.
pub proof fn lemma_parse_key(id: PasteId)
    ensures
        is_well_formed(id.key()),
        PasteId::parse_spec(id.key()) == Some(id@),
{
    let s = id.key();
    assert(id@.len() == 16);
    assert forall|i: int| 0 <= i < s.len() implies (#[trigger] hex_digit_value(s[i])) is Some by {
        lemma_digit_is_lower_hex(id@[i / 2] as int / 16);
        lemma_digit_is_lower_hex(id@[i / 2] as int % 16);
    }
    assert forall|i: int| 0 <= i < 16 implies hex_bytes(s)[i] == id@[i] by {
        lemma_digit_is_lower_hex(id@[i] as int / 16);
        lemma_digit_is_lower_hex(id@[i] as int % 16);
        assert(s[2 * i] == lower_hex_digit(id@[(2 * i) / 2] as int / 16));
        assert(s[2 * i + 1] == lower_hex_digit(id@[(2 * i + 1) / 2] as int % 16));
    }
    assert(hex_bytes(s) =~= id@);
}

/// A key is the text of the identifier that is read from it: looking a
/// paste up by its key asks the store under that same key.
pub proof fn lemma_key_names_itself(key: Seq<char>)
    requires
        is_key(key),
    ensures
        is_well_formed(key),
        hex_text(hex_bytes(key)) == key,
{
    assert forall|i: int| 0 <= i < key.len() implies (#[trigger] hex_digit_value(key[i])) is Some by {
        assert(is_lower_hex(key[i]));
    }
    let bytes = hex_bytes(key);
    assert forall|i: int| 0 <= i < key.len() implies hex_text(bytes)[i] == key[i] by {
        let hi = hex_digit_value(key[2 * (i / 2)])->0;
        let lo = hex_digit_value(key[2 * (i / 2) + 1])->0;
        assert(is_lower_hex(key[2 * (i / 2)]));
        assert(is_lower_hex(key[2 * (i / 2) + 1]));
        assert(bytes[i / 2] as int == hi * 16 + lo);
        assert((hi * 16 + lo) / 16 == hi && (hi * 16 + lo) % 16 == lo);
    }
    assert(hex_text(bytes) =~= key);
}

} // verus!
