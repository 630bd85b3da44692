//! Bluetooth UUIDs, 16 or 128 bits wide, and how they are written in a schema.

use vstd::prelude::*;
use vstd::string::*;
use crate::error::{ErrorModel, SchemaError};
use crate::text::{hex_digit, hex_value};

verus! {

/// A Bluetooth UUID. Both forms are held the way they go on the air: the
/// 128-bit form with its least significant byte first.
#[derive(Clone, Copy, Debug)]
pub enum Uuid {
    Uuid16(u16),
    Uuid128([u8; 16]),
}

/// The two bytes of a 16-bit value, low byte first.
pub open spec fn le_bytes16(v: u16) -> Seq<u8> {
    seq![(v % 256) as u8, (v / 256) as u8]
}

/// The two bytes of a 16-bit value in the order of an advertisement: the
/// low byte, then the high byte.
pub fn half_word_to_reversed_bytes(value: u16) -> (r: (u8, u8))
    ensures
        seq![r.0, r.1] == le_bytes16(value),
{
    let small: u8 = (value % 256) as u8;
    let big: u8 = (value / 256) as u8;
    (small, big)
}

impl View for Uuid {
    type V = Seq<u8>;

    /// The bytes of the UUID in little-endian order: two of them or sixteen.
    open spec fn view(&self) -> Seq<u8> {
        match *self {
            Uuid::Uuid16(v) => le_bytes16(v),
            Uuid::Uuid128(bytes) => bytes@,
        }
    }
}

/// Where the `k`-th of the 32 hexadecimal digits stands in the dashed form
/// `xxxxxxxx-xxxx-xxxx-xxxx-xxxxxxxxxxxx`.
pub open spec fn digit_position(k: int) -> int {
    if k < 8 {
        k
    } else if k < 12 {
        k + 1
    } else if k < 16 {
        k + 2
    } else if k < 20 {
        k + 3
    } else {
        k + 4
    }
}

/// Whether a text is four hexadecimal digits.
pub open spec fn is_short_form(s: Seq<u8>) -> bool {
    s.len() == 4 && forall|k: int| 0 <= k < 4 ==> hex_value(#[trigger] s[k]) is Some
}

/// Whether a text is the dashed form of a 128-bit UUID.
pub open spec fn is_long_form(s: Seq<u8>) -> bool {
    &&& s.len() == 36
    &&& s[8] == 0x2d
    &&& s[13] == 0x2d
    &&& s[18] == 0x2d
    &&& s[23] == 0x2d
    &&& forall|k: int| 0 <= k < 32 ==> hex_value(#[trigger] s[digit_position(k)]) is Some
}

/// The number that the two digits at `k` and `k + 1` of the dashed form spell.
pub open spec fn long_form_byte(s: Seq<u8>, k: int) -> u8 {
    (hex_value(s[digit_position(k)]).unwrap() * 16 + hex_value(
        s[digit_position(k + 1)],
    ).unwrap()) as u8
}

/// The number that the four digits of the short form spell.
pub open spec fn short_form_value(s: Seq<u8>) -> u16 {
    (((hex_value(s[0]).unwrap() * 16 + hex_value(s[1]).unwrap()) * 16 + hex_value(
        s[2],
    ).unwrap()) * 16 + hex_value(s[3]).unwrap()) as u16
}

/// The UUID that a literal stands for, by its bytes in little-endian order.
/// The dashed form is written most significant byte first, so its bytes come
/// out reversed.
pub open spec fn parse_uuid(s: Seq<u8>) -> Option<Seq<u8>> {
    if is_long_form(s) {
        Some(Seq::new(16, |i: int| long_form_byte(s, 2 * (15 - i))))
    } else if is_short_form(s) {
        Some(le_bytes16(short_form_value(s)))
    } else {
        None
    }
}

/// A UUID has two bytes or sixteen.
pub proof fn lemma_uuid_width(uuid: Uuid)
    ensures
        uuid@.len() == 2 || uuid@.len() == 16,
        uuid is Uuid16 <==> uuid@.len() == 2,
{
}

/// A literal that is read stands for two bytes or sixteen: sixteen for the
/// dashed form, two for the short form.
pub proof fn lemma_parsed_width(s: Seq<u8>)
    ensures
        parse_uuid(s) matches Some(bytes) ==> (if s.len() == 36 {
            bytes.len() == 16
        } else {
            s.len() == 4 && bytes.len() == 2
        }),
{
}

impl Uuid {
    /// Whether two UUIDs are the same.
    pub fn same(&self, other: &Uuid) -> (r: bool)
        ensures
            r == (self@ == other@),
    {
        match (self, other) {
            (Uuid::Uuid16(a), Uuid::Uuid16(b)) => {
                proof {
                    if *a != *b {
                        assert(le_bytes16(*a)[0] != le_bytes16(*b)[0] || le_bytes16(*a)[1]
                            != le_bytes16(*b)[1]);
                    }
                }
                *a == *b
            },
            (Uuid::Uuid128(a), Uuid::Uuid128(b)) => {
                let mut i: usize = 0;
                while i < 16
                    invariant
                        i <= 16,
                        self@ == a@,
                        other@ == b@,
                        forall|j: int| 0 <= j < i ==> a@[j] == b@[j],
                    decreases 16 - i,
                {
                    if a[i] != b[i] {
                        return false;
                    }
                    i = i + 1;
                }
                assert(a@ =~= b@);
                true
            },
            (Uuid::Uuid16(a), Uuid::Uuid128(b)) => {
                assert(le_bytes16(*a).len() != b@.len());
                false
            },
            (Uuid::Uuid128(a), Uuid::Uuid16(b)) => {
                assert(le_bytes16(*b).len() != a@.len());
                false
            },
        }
    }

    /// The bytes of the UUID as they stand in an advertisement.
    pub fn to_le_bytes(&self) -> (r: Vec<u8>)
        ensures
            r@ == self@,
    {
        let mut out: Vec<u8> = Vec::new();
        match self {
            Uuid::Uuid16(v) => {
                let (small, big) = half_word_to_reversed_bytes(*v);
                out.push(small);
                out.push(big);
            },
            Uuid::Uuid128(bytes) => {
                let mut i: usize = 0;
                while i < 16
                    invariant
                        i <= 16,
                        out@ == bytes@.subrange(0, i as int),
                    decreases 16 - i,
                {
                    out.push(bytes[i]);
                    i = i + 1;
                }
            },
        }
        out
    }
}

impl Uuid {
    /// Reads a UUID from the text of a literal: four hexadecimal digits, or the
    /// dashed form of 32 digits. Any other text is no UUID.
    pub fn parse(s: &[u8]) -> (r: Result<Uuid, SchemaError>)
        ensures
            match r {
                Ok(u) => parse_uuid(s@) == Some(u@),
                Err(e) => parse_uuid(s@) is None && e@ == ErrorModel::InvalidUuid,
            },
    {
        if s.len() == 36 {
            Self::parse_long(s)
        } else if s.len() == 4 {
            Self::parse_short(s)
        } else {
            Err(SchemaError::InvalidUuid)
        }
    }

    /// Reads a UUID from a string, as `parse` does from its bytes.
    pub fn from_string(s: &str) -> (r: Result<Uuid, SchemaError>)
        ensures
            match r {
                Ok(u) => parse_uuid(s.spec_bytes()) == Some(u@),
                Err(e) => parse_uuid(s.spec_bytes()) is None && e@ == ErrorModel::InvalidUuid,
            },
    {
        Self::parse(s.as_bytes())
    }

    fn parse_short(s: &[u8]) -> (r: Result<Uuid, SchemaError>)
        requires
            s@.len() == 4,
        ensures
            match r {
                Ok(u) => parse_uuid(s@) == Some(u@),
                Err(e) => parse_uuid(s@) is None && e@ == ErrorModel::InvalidUuid,
            },
    {
        let mut value: u16 = 0;
        let mut k: usize = 0;
        while k < 4
            invariant
                k <= 4,
                s@.len() == 4,
                forall|j: int| 0 <= j < k ==> hex_value(#[trigger] s@[j]) is Some,
                k == 0 ==> value == 0,
                k == 1 ==> value == hex_value(s@[0]).unwrap(),
                k == 2 ==> value == hex_value(s@[0]).unwrap() * 16 + hex_value(s@[1]).unwrap(),
                k == 3 ==> value == (hex_value(s@[0]).unwrap() * 16 + hex_value(s@[1]).unwrap())
                    * 16 + hex_value(s@[2]).unwrap(),
                k == 4 ==> value == short_form_value(s@),
                k < 4 ==> value < 4096,
            decreases 4 - k,
        {
            match hex_digit(s[k]) {
                Some(d) => {
                    value = value * 16 + d as u16;
                },
                None => {
                    return Err(SchemaError::InvalidUuid);
                },
            }
            k = k + 1;
        }
        Ok(Uuid::Uuid16(value))
    }

    fn parse_long(s: &[u8]) -> (r: Result<Uuid, SchemaError>)
        requires
            s@.len() == 36,
        ensures
            match r {
                Ok(u) => parse_uuid(s@) == Some(u@),
                Err(e) => parse_uuid(s@) is None && e@ == ErrorModel::InvalidUuid,
            },
    {
        if s[8] != 0x2d || s[13] != 0x2d || s[18] != 0x2d || s[23] != 0x2d {
            return Err(SchemaError::InvalidUuid);
        }
        let mut bytes: [u8; 16] = [0u8; 16];
        let mut j: usize = 0;
        while j < 16
            invariant
                j <= 16,
                s@.len() == 36,
                forall|k: int| 0 <= k < 2 * j ==> hex_value(#[trigger] s@[digit_position(k)]) is Some,
                forall|i: int| 16 - j <= i < 16 ==> bytes@[i] == long_form_byte(s@, 2 * (15 - i)),
            decreases 16 - j,
        {
            let at: usize = Self::position(2 * j);
            match (hex_digit(s[at]), hex_digit(s[at + 1])) {
                (Some(high), Some(low)) => {
                    bytes[15 - j] = high * 16 + low;
                },
                _ => {
                    assert(hex_value(s@[digit_position(2 * j as int)]) is None || hex_value(
                        s@[digit_position(2 * j + 1)],
                    ) is None);
                    return Err(SchemaError::InvalidUuid);
                },
            }
            j = j + 1;
        }
        Ok(Uuid::Uuid128(bytes))
    }

    /// Where the `k`-th digit of the dashed form stands, for an even `k`: the
    /// digit after it stands next to it.
    fn position(k: usize) -> (at: usize)
        requires
            k < 32,
            k % 2 == 0,
        ensures
            at == digit_position(k as int),
            at + 1 == digit_position(k + 1),
            at + 1 < 36,
    {
        if k < 8 {
            k
        } else if k < 12 {
            k + 1
        } else if k < 16 {
            k + 2
        } else if k < 20 {
            k + 3
        } else {
            k + 4
        }
    }
}

} // verus!
