//! Room identifiers: opaque 128-bit values with a canonical UUID-hex text
//! rendering for external exposure.

use vstd::prelude::*;

verus! {

/// An ID that uniquely identifies a room within a registry.
///
/// Equality, hashing and ordering go by the 128-bit value. A `RoomId` is not
/// globally unique by construction; uniqueness is enforced only within one
/// registry instance.
#[derive(Debug, PartialEq, Eq, Structural, Hash, PartialOrd, Copy, Clone)]
pub struct RoomId(pub u128);

impl View for RoomId {
    type V = u128;

    open spec fn view(&self) -> u128 {
        self.0
    }
}

impl RoomId {
    /// The raw 128-bit value of this identifier.
    pub fn as_u128(&self) -> (v: u128)
        ensures
            v == self@,
    {
        self.0
    }

    /// Renders this identifier in the canonical lowercase hyphenated
    /// UUID-hex form.
    pub fn to_text(&self) -> (s: String)
        ensures
            s@ == uuid_text(self@),
    {
        uuid_hyphenated(self.0)
    }
}

impl From<u128> for RoomId {
    fn from(value: u128) -> (r: Self) {
        RoomId(value)
    }
}

impl vstd::std_specs::convert::FromSpecImpl<u128> for RoomId {
    open spec fn obeys_from_spec() -> bool {
        true
    }

    open spec fn from_spec(value: u128) -> Self {
        RoomId(value)
    }
}

/// The `i`-th hex digit of `v` counting from the most significant nibble,
/// for `0 <= i < 32`.
pub open spec fn uuid_nibble(v: u128, i: int) -> u128 {
    (v >> ((4 * (31 - i)) as u128)) & 0xf
}

/// The lowercase hex character for a digit `0 <= d < 16`.
pub open spec fn hex_digit(d: u128) -> char {
    if d == 0 {
        '0'
    } else if d == 1 {
        '1'
    } else if d == 2 {
        '2'
    } else if d == 3 {
        '3'
    } else if d == 4 {
        '4'
    } else if d == 5 {
        '5'
    } else if d == 6 {
        '6'
    } else if d == 7 {
        '7'
    } else if d == 8 {
        '8'
    } else if d == 9 {
        '9'
    } else if d == 10 {
        'a'
    } else if d == 11 {
        'b'
    } else if d == 12 {
        'c'
    } else if d == 13 {
        'd'
    } else if d == 14 {
        'e'
    } else {
        'f'
    }
}

/// The character at position `j` of the hyphenated UUID rendering of `v`:
/// 32 hex digits, most significant first, with hyphens at positions
/// 8, 13, 18 and 23.
pub open spec fn uuid_char(v: u128, j: int) -> char {
    if j == 8 || j == 13 || j == 18 || j == 23 {
        '-'
    } else {
        let i = if j < 8 {
            j
        } else if j < 13 {
            j - 1
        } else if j < 18 {
            j - 2
        } else if j < 23 {
            j - 3
        } else {
            j - 4
        };
        hex_digit(uuid_nibble(v, i))
    }
}

/// The canonical lowercase hyphenated UUID-hex rendering of a 128-bit value,
/// as a sequence of 36 characters.
pub open spec fn uuid_text(v: u128) -> Seq<char> {
    Seq::new(36, |j: int| uuid_char(v, j))
}

/// Law: the canonical UUID-hex rendering is injective, so distinct
/// identifier values always render as distinct text.
#[verifier::rlimit(60)]
pub proof fn lemma_uuid_text_injective(a: u128, b: u128)
    requires
        uuid_text(a) == uuid_text(b),
    ensures
        a == b,
{
    assert forall|i: int| 0 <= i < 32 implies uuid_nibble(a, i) == uuid_nibble(b, i) by {
        let j: int = if i < 8 {
            i
        } else if i < 12 {
            i + 1
        } else if i < 16 {
            i + 2
        } else if i < 20 {
            i + 3
        } else {
            i + 4
        };
        assert(uuid_text(a)[j] == uuid_text(b)[j]);
        assert(uuid_text(a)[j] == uuid_char(a, j));
        assert(uuid_char(a, j) == hex_digit(uuid_nibble(a, i)));
        assert(uuid_char(b, j) == hex_digit(uuid_nibble(b, i)));
        let sh = (4 * (31 - i)) as u128;
        assert((a >> sh) & 0xf < 16 && (b >> sh) & 0xf < 16) by (bit_vector);
        assert(uuid_nibble(a, i) == (a >> sh) & 0xf);
        assert(uuid_nibble(b, i) == (b >> sh) & 0xf);
    }
    assert(uuid_nibble(a, 0) == (a >> 124u128) & 0xf);
    assert(uuid_nibble(b, 0) == (b >> 124u128) & 0xf);
    assert(uuid_nibble(a, 1) == (a >> 120u128) & 0xf);
    assert(uuid_nibble(b, 1) == (b >> 120u128) & 0xf);
    assert(uuid_nibble(a, 2) == (a >> 116u128) & 0xf);
    assert(uuid_nibble(b, 2) == (b >> 116u128) & 0xf);
    assert(uuid_nibble(a, 3) == (a >> 112u128) & 0xf);
    assert(uuid_nibble(b, 3) == (b >> 112u128) & 0xf);
    assert(uuid_nibble(a, 4) == (a >> 108u128) & 0xf);
    assert(uuid_nibble(b, 4) == (b >> 108u128) & 0xf);
    assert(uuid_nibble(a, 5) == (a >> 104u128) & 0xf);
    assert(uuid_nibble(b, 5) == (b >> 104u128) & 0xf);
    assert(uuid_nibble(a, 6) == (a >> 100u128) & 0xf);
    assert(uuid_nibble(b, 6) == (b >> 100u128) & 0xf);
    assert(uuid_nibble(a, 7) == (a >> 96u128) & 0xf);
    assert(uuid_nibble(b, 7) == (b >> 96u128) & 0xf);
    assert(uuid_nibble(a, 8) == (a >> 92u128) & 0xf);
    assert(uuid_nibble(b, 8) == (b >> 92u128) & 0xf);
    assert(uuid_nibble(a, 9) == (a >> 88u128) & 0xf);
    assert(uuid_nibble(b, 9) == (b >> 88u128) & 0xf);
    assert(uuid_nibble(a, 10) == (a >> 84u128) & 0xf);
    assert(uuid_nibble(b, 10) == (b >> 84u128) & 0xf);
    assert(uuid_nibble(a, 11) == (a >> 80u128) & 0xf);
    assert(uuid_nibble(b, 11) == (b >> 80u128) & 0xf);
    assert(uuid_nibble(a, 12) == (a >> 76u128) & 0xf);
    assert(uuid_nibble(b, 12) == (b >> 76u128) & 0xf);
    assert(uuid_nibble(a, 13) == (a >> 72u128) & 0xf);
    assert(uuid_nibble(b, 13) == (b >> 72u128) & 0xf);
    assert(uuid_nibble(a, 14) == (a >> 68u128) & 0xf);
    assert(uuid_nibble(b, 14) == (b >> 68u128) & 0xf);
    assert(uuid_nibble(a, 15) == (a >> 64u128) & 0xf);
    assert(uuid_nibble(b, 15) == (b >> 64u128) & 0xf);
    assert(uuid_nibble(a, 16) == (a >> 60u128) & 0xf);
    assert(uuid_nibble(b, 16) == (b >> 60u128) & 0xf);
    assert(uuid_nibble(a, 17) == (a >> 56u128) & 0xf);
    assert(uuid_nibble(b, 17) == (b >> 56u128) & 0xf);
    assert(uuid_nibble(a, 18) == (a >> 52u128) & 0xf);
    assert(uuid_nibble(b, 18) == (b >> 52u128) & 0xf);
    assert(uuid_nibble(a, 19) == (a >> 48u128) & 0xf);
    assert(uuid_nibble(b, 19) == (b >> 48u128) & 0xf);
    assert(uuid_nibble(a, 20) == (a >> 44u128) & 0xf);
    assert(uuid_nibble(b, 20) == (b >> 44u128) & 0xf);
    assert(uuid_nibble(a, 21) == (a >> 40u128) & 0xf);
    assert(uuid_nibble(b, 21) == (b >> 40u128) & 0xf);
    assert(uuid_nibble(a, 22) == (a >> 36u128) & 0xf);
    assert(uuid_nibble(b, 22) == (b >> 36u128) & 0xf);
    assert(uuid_nibble(a, 23) == (a >> 32u128) & 0xf);
    assert(uuid_nibble(b, 23) == (b >> 32u128) & 0xf);
    assert(uuid_nibble(a, 24) == (a >> 28u128) & 0xf);
    assert(uuid_nibble(b, 24) == (b >> 28u128) & 0xf);
    assert(uuid_nibble(a, 25) == (a >> 24u128) & 0xf);
    assert(uuid_nibble(b, 25) == (b >> 24u128) & 0xf);
    assert(uuid_nibble(a, 26) == (a >> 20u128) & 0xf);
    assert(uuid_nibble(b, 26) == (b >> 20u128) & 0xf);
    assert(uuid_nibble(a, 27) == (a >> 16u128) & 0xf);
    assert(uuid_nibble(b, 27) == (b >> 16u128) & 0xf);
    assert(uuid_nibble(a, 28) == (a >> 12u128) & 0xf);
    assert(uuid_nibble(b, 28) == (b >> 12u128) & 0xf);
    assert(uuid_nibble(a, 29) == (a >> 8u128) & 0xf);
    assert(uuid_nibble(b, 29) == (b >> 8u128) & 0xf);
    assert(uuid_nibble(a, 30) == (a >> 4u128) & 0xf);
    assert(uuid_nibble(b, 30) == (b >> 4u128) & 0xf);
    assert(uuid_nibble(a, 31) == (a >> 0u128) & 0xf);
    assert(uuid_nibble(b, 31) == (b >> 0u128) & 0xf);
    assert(a == b) by (bit_vector)
        requires
            (a >> 124u128) & 0xf == (b >> 124u128) & 0xf,
            (a >> 120u128) & 0xf == (b >> 120u128) & 0xf,
            (a >> 116u128) & 0xf == (b >> 116u128) & 0xf,
            (a >> 112u128) & 0xf == (b >> 112u128) & 0xf,
            (a >> 108u128) & 0xf == (b >> 108u128) & 0xf,
            (a >> 104u128) & 0xf == (b >> 104u128) & 0xf,
            (a >> 100u128) & 0xf == (b >> 100u128) & 0xf,
            (a >> 96u128) & 0xf == (b >> 96u128) & 0xf,
            (a >> 92u128) & 0xf == (b >> 92u128) & 0xf,
            (a >> 88u128) & 0xf == (b >> 88u128) & 0xf,
            (a >> 84u128) & 0xf == (b >> 84u128) & 0xf,
            (a >> 80u128) & 0xf == (b >> 80u128) & 0xf,
            (a >> 76u128) & 0xf == (b >> 76u128) & 0xf,
            (a >> 72u128) & 0xf == (b >> 72u128) & 0xf,
            (a >> 68u128) & 0xf == (b >> 68u128) & 0xf,
            (a >> 64u128) & 0xf == (b >> 64u128) & 0xf,
            (a >> 60u128) & 0xf == (b >> 60u128) & 0xf,
            (a >> 56u128) & 0xf == (b >> 56u128) & 0xf,
            (a >> 52u128) & 0xf == (b >> 52u128) & 0xf,
            (a >> 48u128) & 0xf == (b >> 48u128) & 0xf,
            (a >> 44u128) & 0xf == (b >> 44u128) & 0xf,
            (a >> 40u128) & 0xf == (b >> 40u128) & 0xf,
            (a >> 36u128) & 0xf == (b >> 36u128) & 0xf,
            (a >> 32u128) & 0xf == (b >> 32u128) & 0xf,
            (a >> 28u128) & 0xf == (b >> 28u128) & 0xf,
            (a >> 24u128) & 0xf == (b >> 24u128) & 0xf,
            (a >> 20u128) & 0xf == (b >> 20u128) & 0xf,
            (a >> 16u128) & 0xf == (b >> 16u128) & 0xf,
            (a >> 12u128) & 0xf == (b >> 12u128) & 0xf,
            (a >> 8u128) & 0xf == (b >> 8u128) & 0xf,
            (a >> 4u128) & 0xf == (b >> 4u128) & 0xf,
            (a >> 0u128) & 0xf == (b >> 0u128) & 0xf,
    ;
}

/// Relies on `uuid::Uuid`'s `Display` impl together with `Uuid::from_u128`:
/// `from_u128` stores the value's big-endian bytes, and `Display` renders
/// them as lowercase hyphenated hex (two digits per byte, most significant
/// byte first, hyphens after digits 8, 12, 16 and 20).
#[verifier::external_body]
fn uuid_hyphenated(value: u128) -> (s: String)
    ensures
        s@ == uuid_text(value),
{
    format!("{}", uuid::Uuid::from_u128(value))
}

} // verus!
