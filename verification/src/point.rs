//! An `.sdc` point record and its target-type code.

use vstd::prelude::*;

use crate::error::Error;

verus! {

/// How a point was derived from its waveform.
#[derive(Clone, Copy, Debug, PartialEq, Eq, Structural)]
pub enum TargetType {
    CenterOfGravity,
    Parabola,
    Gaussian,
    Peak,
}

/// The on-wire code of a target type.
pub open spec fn target_type_code(t: TargetType) -> u8 {
    match t {
        TargetType::CenterOfGravity => 0,
        TargetType::Parabola => 1,
        TargetType::Gaussian => 2,
        TargetType::Peak => 3,
    }
}

/// The target type a code stands for, if any: codes 0 through 3 are
/// valid, every other byte is rejected.
pub open spec fn target_type_of_code(n: u8) -> Result<TargetType, Error> {
    if n == 0 {
        Ok(TargetType::CenterOfGravity)
    } else if n == 1 {
        Ok(TargetType::Parabola)
    } else if n == 2 {
        Ok(TargetType::Gaussian)
    } else if n == 3 {
        Ok(TargetType::Peak)
    } else {
        Err(Error::InvalidTargetType(n))
    }
}

impl TargetType {
    /// Returns this target type as a `u8`.
    pub fn as_u8(&self) -> (r: u8)
        ensures
            r == target_type_code(*self),
    {
        match *self {
            TargetType::CenterOfGravity => 0,
            TargetType::Parabola => 1,
            TargetType::Gaussian => 2,
            TargetType::Peak => 3,
        }
    }

    /// Returns the target type for this `u8`, or
    /// `Error::InvalidTargetType(n)` for a code outside 0..=3.
    pub fn from_u8(n: u8) -> (r: Result<TargetType, Error>)
        ensures
            r == target_type_of_code(n),
    {
        match n {
            0 => Ok(TargetType::CenterOfGravity),
            1 => Ok(TargetType::Parabola),
            2 => Ok(TargetType::Gaussian),
            3 => Ok(TargetType::Peak),
            _ => Err(Error::InvalidTargetType(n)),
        }
    }
}

impl Default for TargetType {
    /// The default target type, `Peak`.
    fn default() -> (r: TargetType)
        ensures
            r == TargetType::Peak,
    {
        TargetType::Peak
    }
}

/// The target-type codec loses nothing: every target type comes back
/// from its own code.
pub proof fn lemma_target_type_round_trip(t: TargetType)
    ensures
        target_type_of_code(target_type_code(t)) == Ok::<TargetType, Error>(t),
{
}

/// One decoded LiDAR return.
///
/// The floating-point fields of the on-wire format (`time` as a 64-bit
/// float, `range`, `theta`, `x`, `y`, `z` and `rho` as 32-bit floats)
/// are carried as their IEEE-754 bit patterns, so that encoding and
/// decoding are bit-exact.  Callers that want the numeric values
/// convert with `f64::from_bits` / `f32::from_bits` and back.
///
/// The optional fields `class_id`, `rho` and `reflectance` exist only
/// on streams whose version admits them; a record decoded under a
/// version carries exactly the optional fields that version implies.
#[derive(Clone, Copy, Debug, PartialEq, Eq)]
pub struct Point {
    /// Time of the return in seconds, as the bits of a 64-bit float.
    pub time: u64,
    /// Range to the target, as the bits of a 32-bit float.
    pub range: u32,
    /// Scan angle, as the bits of a 32-bit float.
    pub theta: u32,
    /// Cartesian coordinate, as the bits of a 32-bit float.
    pub x: u32,
    /// Cartesian coordinate, as the bits of a 32-bit float.
    pub y: u32,
    /// Cartesian coordinate, as the bits of a 32-bit float.
    pub z: u32,
    /// Amplitude of the return.
    pub amplitude: u16,
    /// Width of the return pulse.
    pub width: u16,
    /// How the point was derived from its waveform.
    pub target_type: TargetType,
    /// Index of this return among the pulse's targets.
    pub target: u8,
    /// Total number of targets for this pulse.
    pub num_target: u8,
    /// Range-gate index.
    pub rg_index: u16,
    /// Which mirror facet produced the return; only the low two bits go
    /// on the wire.
    pub facet_number: u8,
    /// Whether the return came from the high-power channel.
    pub high_channel: bool,
    /// Classification, present when the stream's version is at least 5.2.
    pub class_id: Option<u8>,
    /// Rho value as the bits of a 32-bit float, present when the
    /// stream's version is at least 5.3.
    pub rho: Option<u32>,
    /// Calibrated reflectance, present when the stream's version is at
    /// least 5.4.
    pub reflectance: Option<i16>,
}

/// The single on-wire byte packing `facet_number` and `high_channel`:
/// bits 0 and 1 hold the facet number, bit 6 holds the channel flag,
/// every other bit is zero.
pub open spec fn spec_channel_desc_byte(facet_number: u8, high_channel: bool) -> u8 {
    if high_channel {
        (facet_number & 0x3) | 0x40
    } else {
        facet_number & 0x3
    }
}

/// Decoding a channel descriptor byte recovers the pair that built it,
/// and an encoded byte never carries bits outside 0, 1 and 6.
pub proof fn lemma_channel_desc_byte_round_trip(facet_number: u8, high_channel: bool)
    requires
        facet_number <= 3,
    ensures
        spec_channel_desc_byte(facet_number, high_channel) & 0x3 == facet_number,
        (spec_channel_desc_byte(facet_number, high_channel) & 0x40 == 0x40) == high_channel,
        spec_channel_desc_byte(facet_number, high_channel) & 0xbc == 0,
{
    let f = facet_number;
    assert(f <= 3 ==> ((f & 0x3) | 0x40) & 0x3 == f) by (bit_vector);
    assert(f <= 3 ==> (f & 0x3) & 0x3 == f) by (bit_vector);
    assert((((f & 0x3) | 0x40) & 0x40 == 0x40) && ((f & 0x3) & 0x40 != 0x40)) by (bit_vector);
    assert((((f & 0x3) | 0x40) & 0xbc == 0) && ((f & 0x3) & 0xbc == 0)) by (bit_vector);
}

impl Point {
    /// Creates a new point with every field zero, the default target
    /// type `Peak`, and no optional fields.
    pub fn new() -> (r: Point)
        ensures
            r == spec_default_point(),
    {
        Point {
            time: 0,
            range: 0,
            theta: 0,
            x: 0,
            y: 0,
            z: 0,
            amplitude: 0,
            width: 0,
            target_type: TargetType::Peak,
            target: 0,
            num_target: 0,
            rg_index: 0,
            facet_number: 0,
            high_channel: false,
            class_id: None,
            rho: None,
            reflectance: None,
        }
    }

    /// Returns the channel descriptor byte for this point.
    pub fn channel_desc_byte(&self) -> (r: u8)
        ensures
            r == spec_channel_desc_byte(self.facet_number, self.high_channel),
    {
        let mut byte = self.facet_number & 0x3;
        if self.high_channel {
            byte = byte | 0x40;
        }
        byte
    }
}

/// The point `Point::new` returns.
pub open spec fn spec_default_point() -> Point {
    Point {
        time: 0,
        range: 0,
        theta: 0,
        x: 0,
        y: 0,
        z: 0,
        amplitude: 0,
        width: 0,
        target_type: TargetType::Peak,
        target: 0,
        num_target: 0,
        rg_index: 0,
        facet_number: 0,
        high_channel: false,
        class_id: None,
        rho: None,
        reflectance: None,
    }
}

impl Default for Point {
    /// The same point `Point::new` returns.
    fn default() -> (r: Point)
        ensures
            r == spec_default_point(),
    {
        Point::new()
    }
}

} // verus!
