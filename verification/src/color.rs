//! Color and color temperature, represented in HSB and Kelvin.

use vstd::prelude::*;
use crate::error::ProtocolError;
use crate::wire::{u16_le_bytes, u16_from_le, push_u16_le, read_u16_le, lemma_u16_le_roundtrip};

verus! {

/// Color temperature in Kelvin. Valid values lie in the inclusive range
/// [2500, 9000]; decoding rejects anything else.
#[derive(Debug, Clone, Copy, PartialEq, Eq, Structural)]
pub struct Kelvin(pub u16);

/// A color temperature outside the accepted Kelvin range.
#[derive(Debug, Clone, Copy, PartialEq, Eq, Structural)]
pub struct KelvinError(pub u16);

/// Color and color temperature, represented in HSB and Kelvin.
#[derive(Debug, Clone, Copy, PartialEq, Eq, Structural)]
pub struct Hsbk {
    pub hue: u16,
    pub saturation: u16,
    pub brightness: u16,
    pub temperature: Kelvin,
}

impl Kelvin {
    /// Whether `value` lies in the accepted Kelvin range.
    pub open spec fn in_range(value: u16) -> bool {
        2500 <= value <= 9000
    }

    /// Whether this temperature lies in the accepted Kelvin range.
    pub open spec fn wf(self) -> bool {
        Kelvin::in_range(self.0)
    }

    /// Creates a temperature known to be in range. The original rejects the
    /// value at run time; here the range is a precondition.
    pub fn new(value: u16) -> (r: Kelvin)
        requires
            Kelvin::in_range(value),
        ensures
            r == (Kelvin(value)),
    {
        Kelvin(value)
    }

    /// Creates a temperature, rejecting values outside the accepted range.
    pub fn try_new(value: u16) -> (r: Result<Kelvin, KelvinError>)
        ensures
            Kelvin::in_range(value) ==> r == Ok::<Kelvin, KelvinError>(Kelvin(value)),
            !Kelvin::in_range(value) ==> r == Err::<Kelvin, KelvinError>(KelvinError(value)),
    {
        if 2500 <= value && value <= 9000 {
            Ok(Kelvin(value))
        } else {
            Err(KelvinError(value))
        }
    }

    /// The raw Kelvin value.
    pub fn value(self) -> (r: u16)
        ensures
            r == self.0,
    {
        self.0
    }
}

impl Hsbk {
    /// Size of an `Hsbk` value on the wire, in bytes.
    pub const SIZE: usize = 8;

    /// Whether the temperature lies in the accepted Kelvin range.
    pub open spec fn wf(self) -> bool {
        self.temperature.wf()
    }

    /// The eight-byte wire image: hue, saturation, brightness and temperature,
    /// each little-endian.
    pub open spec fn spec_encode(self) -> Seq<u8> {
        u16_le_bytes(self.hue) + u16_le_bytes(self.saturation) + u16_le_bytes(self.brightness)
            + u16_le_bytes(self.temperature.0)
    }

    /// The color denoted by eight wire bytes, or the error raised for an
    /// out-of-range temperature.
    pub open spec fn spec_parse(b: Seq<u8>) -> Result<Hsbk, ProtocolError>
        recommends
            b.len() >= 8,
    {
        let temperature = u16_from_le(b[6], b[7]);
        if Kelvin::in_range(temperature) {
            Ok(
                Hsbk {
                    hue: u16_from_le(b[0], b[1]),
                    saturation: u16_from_le(b[2], b[3]),
                    brightness: u16_from_le(b[4], b[5]),
                    temperature: Kelvin(temperature),
                },
            )
        } else {
            Err(ProtocolError::InvalidKelvin(temperature))
        }
    }

    /// Appends the eight-byte wire image of this color to `buf`.
    pub fn encode(self, buf: &mut Vec<u8>)
        ensures
            final(buf)@ == old(buf)@ + self.spec_encode(),
    {
        push_u16_le(buf, self.hue);
        push_u16_le(buf, self.saturation);
        push_u16_le(buf, self.brightness);
        push_u16_le(buf, self.temperature.0);
        assert(buf@ =~= old(buf)@ + self.spec_encode());
    }

    /// Reads a color from the eight bytes at offset `i`, rejecting an
    /// out-of-range temperature.
    pub fn decode(bytes: &[u8], i: usize) -> (r: Result<Hsbk, ProtocolError>)
        requires
            i + 8 <= bytes@.len(),
        ensures
            r == Hsbk::spec_parse(bytes@.subrange(i as int, i + 8)),
            r matches Ok(c) ==> c.wf(),
    {
        let n = bytes.len();
        proof {
            let sub = bytes@.subrange(i as int, i + 8);
            assert(sub[0] == bytes@[i as int]);
            assert(sub[1] == bytes@[i + 1]);
            assert(sub[2] == bytes@[i + 2]);
            assert(sub[3] == bytes@[i + 3]);
            assert(sub[4] == bytes@[i + 4]);
            assert(sub[5] == bytes@[i + 5]);
            assert(sub[6] == bytes@[i + 6]);
            assert(sub[7] == bytes@[i + 7]);
        }
        let temperature = read_u16_le(bytes, i + 6);
        if 2500 <= temperature && temperature <= 9000 {
            Ok(
                Hsbk {
                    hue: read_u16_le(bytes, i),
                    saturation: read_u16_le(bytes, i + 2),
                    brightness: read_u16_le(bytes, i + 4),
                    temperature: Kelvin(temperature),
                },
            )
        } else {
            Err(ProtocolError::InvalidKelvin(temperature))
        }
    }
}

/// An in-range color is recovered exactly from its own wire image; an
/// out-of-range temperature is rejected with the Kelvin error.
pub proof fn lemma_hsbk_roundtrip(c: Hsbk)
    requires
        c.wf(),
    ensures
        Hsbk::spec_parse(c.spec_encode()) == Ok::<Hsbk, ProtocolError>(c),
{
    let b = c.spec_encode();
    assert(b[0] == u16_le_bytes(c.hue)[0]);
    assert(b[1] == u16_le_bytes(c.hue)[1]);
    assert(b[2] == u16_le_bytes(c.saturation)[0]);
    assert(b[3] == u16_le_bytes(c.saturation)[1]);
    assert(b[4] == u16_le_bytes(c.brightness)[0]);
    assert(b[5] == u16_le_bytes(c.brightness)[1]);
    assert(b[6] == u16_le_bytes(c.temperature.0)[0]);
    assert(b[7] == u16_le_bytes(c.temperature.0)[1]);
    lemma_u16_le_roundtrip(c.hue);
    lemma_u16_le_roundtrip(c.saturation);
    lemma_u16_le_roundtrip(c.brightness);
    lemma_u16_le_roundtrip(c.temperature.0);
}

} // verus!
