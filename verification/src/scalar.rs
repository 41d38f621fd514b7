//! The datalogger's two-byte decimal number format.
//!
//! A wire value is sixteen bits, most significant first: one sign bit, a
//! two-bit decimal-position code and a thirteen-bit magnitude. Three fixed
//! patterns stand for the infinities and for not-a-number.

use vstd::prelude::*;

verus! {

/// The wire pattern that stands for positive infinity.
pub const POS_INFINITY_PATTERN: u16 = 0x1FFF;

/// The wire pattern that stands for negative infinity.
pub const NEG_INFINITY_PATTERN: u16 = 0x9FFF;

/// The wire pattern that stands for not-a-number.
pub const NAN_PATTERN: u16 = 0x9FFE;

/// Mask of the sign bit.
pub const SIGN_MASK: u16 = 0x8000;

/// Mask of the two bits of the decimal-position code.
pub const DECIMALS_MASK: u16 = 0x6000;

/// Mask of the thirteen magnitude bits; also the largest magnitude.
pub const MAGNITUDE_MASK: u16 = 0x1FFF;

/// A decoded measurement.
///
/// A finite value is kept exactly, as sign, magnitude and the number of
/// decimal places: it stands for `±magnitude / 10^decimals`. The sign is kept
/// apart from the magnitude so that a negative zero stays distinct from a
/// positive one.
#[derive(Clone, Copy, Debug, PartialEq, Eq, Structural)]
pub enum Scalar {
    PosInfinity,
    NegInfinity,
    NotANumber,
    Finite { negative: bool, magnitude: u16, decimals: u8 },
}

/// Whether `raw` is one of the three reserved patterns.
pub open spec fn is_sentinel(raw: u16) -> bool {
    raw == POS_INFINITY_PATTERN || raw == NEG_INFINITY_PATTERN || raw == NAN_PATTERN
}

/// The measurement that a wire value stands for.
pub open spec fn scalar_of(raw: u16) -> Scalar {
    if raw == POS_INFINITY_PATTERN {
        Scalar::PosInfinity
    } else if raw == NEG_INFINITY_PATTERN {
        Scalar::NegInfinity
    } else if raw == NAN_PATTERN {
        Scalar::NotANumber
    } else {
        Scalar::Finite {
            negative: raw & SIGN_MASK != 0,
            magnitude: raw & MAGNITUDE_MASK,
            decimals: ((raw & DECIMALS_MASK) >> 13) as u8,
        }
    }
}

/// Ten to the power `decimals`, for the four decimal-position codes.
pub open spec fn power_of_ten(decimals: int) -> int {
    if decimals == 0 {
        1
    } else if decimals == 1 {
        10
    } else if decimals == 2 {
        100
    } else {
        1000
    }
}

impl Scalar {
    /// The sixteen bits that encode this value.
    pub open spec fn wire(self) -> int {
        match self {
            Scalar::PosInfinity => POS_INFINITY_PATTERN as int,
            Scalar::NegInfinity => NEG_INFINITY_PATTERN as int,
            Scalar::NotANumber => NAN_PATTERN as int,
            Scalar::Finite { negative, magnitude, decimals } => (if negative {
                0x8000int
            } else {
                0int
            }) + decimals * 0x2000 + magnitude,
        }
    }

    /// A value that some wire pattern decodes to: magnitude and decimal
    /// position fit their bit fields, and the fields do not spell one of the
    /// reserved patterns.
    pub open spec fn wf(self) -> bool {
        match self {
            Scalar::Finite { negative, magnitude, decimals } => {
                &&& magnitude <= MAGNITUDE_MASK
                &&& decimals <= 3
                &&& self.wire() != POS_INFINITY_PATTERN
                &&& self.wire() != NEG_INFINITY_PATTERN
                &&& self.wire() != NAN_PATTERN
            },
            _ => true,
        }
    }

    /// Whether this is an ordinary number, neither infinite nor not-a-number.
    pub open spec fn is_finite(self) -> bool {
        self is Finite
    }

    /// The divisor that the decimal position calls for: 1, 10, 100 or 1000.
    pub open spec fn divisor(self) -> int
        recommends
            self is Finite,
    {
        power_of_ten(self->decimals as int)
    }

    /// The magnitude with its sign: the value times `divisor()`.
    pub open spec fn signed_magnitude(self) -> int
        recommends
            self is Finite,
    {
        if self->negative {
            -(self->magnitude as int)
        } else {
            self->magnitude as int
        }
    }

    /// The value in thousandths, which every finite value is a whole number of.
    pub open spec fn thousandths(self) -> int
        recommends
            self is Finite,
    {
        self.signed_magnitude() * power_of_ten(3 - self->decimals)
    }
}

/// Decodes one wire value.
///
/// The three reserved patterns are tested first. Every other pattern is a
/// finite number: its sign is bit 15, its decimal position bits 14 and 13,
/// its magnitude the low thirteen bits. Magnitudes above 7999 are decoded
/// like any other.
pub fn decode_scalar(raw: u16) -> (result: Scalar)
    ensures
        result == scalar_of(raw),
        result.wf(),
        result.wire() == raw,
{
    proof {
        lemma_wire_of_decoded(raw);
    }
    if raw == POS_INFINITY_PATTERN {
        Scalar::PosInfinity
    } else if raw == NEG_INFINITY_PATTERN {
        Scalar::NegInfinity
    } else if raw == NAN_PATTERN {
        Scalar::NotANumber
    } else {
        let negative: bool = raw & SIGN_MASK != 0;
        let magnitude: u16 = raw & MAGNITUDE_MASK;
        let code: u16 = (raw & DECIMALS_MASK) >> 13;
        Scalar::Finite { negative, magnitude, decimals: code as u8 }
    }
}

/// Decoding loses nothing: the value decoded from a pattern is well formed
/// and encodes back to that very pattern. Hence two different patterns never
/// decode to the same value.
pub proof fn lemma_wire_of_decoded(raw: u16)
    ensures
        scalar_of(raw).wf(),
        scalar_of(raw).wire() == raw,
{
    assert(((raw & 0x6000u16) >> 13u16) <= 3) by (bit_vector);
    assert((raw & 0x1FFFu16) <= 0x1FFF) by (bit_vector);
    assert((if raw & 0x8000u16 != 0 { 0x8000u16 } else { 0u16 }) + ((raw & 0x6000u16) >> 13u16)
        * 0x2000 + (raw & 0x1FFFu16) == raw) by (bit_vector);
}

/// Every well-formed value is the decoding of its own wire pattern: wire
/// patterns and well-formed values correspond one to one.
pub proof fn lemma_decoded_of_wire(value: Scalar)
    requires
        value.wf(),
    ensures
        0 <= value.wire() <= u16::MAX,
        scalar_of(value.wire() as u16) == value,
{
    match value {
        Scalar::Finite { negative, magnitude, decimals } => {
            let raw: u16 = value.wire() as u16;
            let sign: u16 = if negative { 0x8000 } else { 0 };
            assert(raw == sign + decimals * 0x2000 + magnitude);
            assert(raw & 0x1FFFu16 == magnitude && (raw & 0x6000u16) >> 13u16 == decimals && (raw
                & 0x8000u16 != 0) == negative) by (bit_vector)
                requires
                    magnitude <= 0x1FFFu16,
                    decimals <= 3u8,
                    sign == (if negative { 0x8000u16 } else { 0u16 }),
                    raw == sign + decimals * 0x2000 + magnitude,
            ;
        },
        _ => {},
    }
}

/// The three reserved patterns, and no others, decode to the two infinities
/// and to not-a-number.
pub proof fn lemma_sentinels(raw: u16)
    ensures
        scalar_of(raw) == Scalar::PosInfinity <==> raw == POS_INFINITY_PATTERN,
        scalar_of(raw) == Scalar::NegInfinity <==> raw == NEG_INFINITY_PATTERN,
        scalar_of(raw) == Scalar::NotANumber <==> raw == NAN_PATTERN,
        scalar_of(raw).is_finite() <==> !is_sentinel(raw),
{
}

/// A pattern that is not reserved decodes to the number whose magnitude is
/// the low thirteen bits divided by ten to the power of the decimal-position
/// code, negative exactly when bit 15 is set.
pub proof fn lemma_decimal_position(raw: u16)
    requires
        !is_sentinel(raw),
    ensures
        scalar_of(raw) is Finite,
        scalar_of(raw)->magnitude == raw & 0x1FFF,
        scalar_of(raw)->magnitude == raw % 0x2000,
        scalar_of(raw)->decimals == (raw >> 13) & 3,
        scalar_of(raw)->decimals == (raw / 0x2000) % 4,
        scalar_of(raw)->negative <==> raw >= 0x8000,
        scalar_of(raw).divisor() == power_of_ten(((raw >> 13) & 3) as int),
        scalar_of(raw).signed_magnitude() == (if raw >= 0x8000 { -1int } else { 1int }) * (raw
            & 0x1FFF),
        scalar_of(raw).thousandths() * scalar_of(raw).divisor() == 1000
            * scalar_of(raw).signed_magnitude(),
{
    assert(raw & 0x1FFFu16 == raw % 0x2000u16) by (bit_vector);
    assert((raw & 0x6000u16) >> 13u16 == (raw >> 13u16) & 3u16) by (bit_vector);
    assert((raw & 0x6000u16) >> 13u16 == (raw / 0x2000u16) % 4u16) by (bit_vector);
    assert(((raw & 0x6000u16) >> 13u16) <= 3) by (bit_vector);
    assert((raw & 0x8000u16 != 0) == (raw >= 0x8000u16)) by (bit_vector);
}

} // verus!
