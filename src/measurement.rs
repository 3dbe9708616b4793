//! Decoding of raw sample bytes: big-endian signed 16-bit counts.
//!
//! A measurement keeps its raw counts; the physical value of an axis is the count
//! divided by the scale factor of the range that was active when it was read.
use vstd::prelude::*;

verus! {

/// Raw counts per degree Celsius of the temperature sensor.
pub const TEMPERATURE_LSB_PER_DEGREE: i32 = 340;

/// Temperature at a raw count of zero, in hundredths of a degree Celsius.
pub const TEMPERATURE_OFFSET_CENTIDEGREES: i32 = 3653;

/// The signed 16-bit value of the big-endian pair (`hi`, `lo`).
pub open spec fn be_i16(hi: u8, lo: u8) -> int {
    let u = hi as int * 256 + lo as int;
    if u >= 0x8000 {
        u - 0x10000
    } else {
        u
    }
}

/// The sample at pair index `k` of `bytes`.
pub open spec fn sample_at(bytes: Seq<u8>, k: int) -> int {
    be_i16(bytes[2 * k], bytes[2 * k + 1])
}

/// Decodes one big-endian signed 16-bit sample.
pub fn decode_sample(hi: u8, lo: u8) -> (r: i16)
    ensures
        r as int == be_i16(hi, lo),
{
    let u: i32 = (hi as i32) * 256 + (lo as i32);
    if u >= 0x8000 {
        (u - 0x10000) as i16
    } else {
        u as i16
    }
}

/// Three accelerometer axes, in raw counts.
#[derive(Clone, Copy, Debug, PartialEq, Eq, Structural)]
pub struct Acceleration {
    pub x: i16,
    pub y: i16,
    pub z: i16,
}

impl Acceleration {
    /// Decodes the six bytes X high, X low, Y high, Y low, Z high, Z low.
    pub fn from_bytes(bytes: &[u8]) -> (r: Self)
        requires
            bytes@.len() == 6,
        ensures
            r.x as int == sample_at(bytes@, 0),
            r.y as int == sample_at(bytes@, 1),
            r.z as int == sample_at(bytes@, 2),
    {
        Acceleration {
            x: decode_sample(bytes[0], bytes[1]),
            y: decode_sample(bytes[2], bytes[3]),
            z: decode_sample(bytes[4], bytes[5]),
        }
    }
}

/// Three gyroscope axes, in raw counts.
#[derive(Clone, Copy, Debug, PartialEq, Eq, Structural)]
pub struct Gyro {
    pub x: i16,
    pub y: i16,
    pub z: i16,
}

impl Gyro {
    /// Decodes the six bytes X high, X low, Y high, Y low, Z high, Z low.
    pub fn from_bytes(bytes: &[u8]) -> (r: Self)
        requires
            bytes@.len() == 6,
        ensures
            r.x as int == sample_at(bytes@, 0),
            r.y as int == sample_at(bytes@, 1),
            r.z as int == sample_at(bytes@, 2),
    {
        Gyro {
            x: decode_sample(bytes[0], bytes[1]),
            y: decode_sample(bytes[2], bytes[3]),
            z: decode_sample(bytes[4], bytes[5]),
        }
    }
}

/// Die temperature, in raw counts; degrees Celsius are
/// `raw / TEMPERATURE_LSB_PER_DEGREE + TEMPERATURE_OFFSET_CENTIDEGREES / 100`.
#[derive(Clone, Copy, Debug, PartialEq, Eq, Structural)]
pub struct Temperature {
    pub raw: i16,
}

impl Temperature {
    /// Decodes the two bytes high, low.
    pub fn from_bytes(bytes: &[u8]) -> (r: Self)
        requires
            bytes@.len() == 2,
        ensures
            r.raw as int == sample_at(bytes@, 0),
    {
        Temperature { raw: decode_sample(bytes[0], bytes[1]) }
    }
}

} // verus!
