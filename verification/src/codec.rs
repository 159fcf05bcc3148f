//! Raw-code extraction and fixed-point conversion.
//!
//! A measurement frame packs two 20-bit raw codes across five data bytes:
//! the humidity code is byte 1 (high 8 bits), byte 2 (middle 8 bits) and the
//! upper nibble of byte 3 (low 4 bits); the temperature code is the lower
//! nibble of byte 3 (high 4 bits), byte 4 (middle 8 bits) and byte 5 (low
//! 8 bits). The chip's documented linear transfer functions turn a raw code
//! `r` into physical units: relative humidity is `(r / 2^20) * 100` percent
//! and temperature is `(r / 2^20) * 200 - 50` degrees Celsius. This module
//! states both in thousandths of a unit (milli-percent, milli-degrees), the
//! exact fixed-point form of those formulas; a caller that wants floats
//! applies the same transfer function to the raw code itself.

use vstd::prelude::*;

verus! {

/// The 20-bit humidity code packed into the three humidity bytes of a frame.
pub open spec fn spec_raw_humidity(b1: u8, b2: u8, b3: u8) -> int {
    b1 * 4096 + b2 * 16 + b3 / 16
}

/// The 20-bit temperature code packed into the three temperature bytes of a
/// frame.
pub open spec fn spec_raw_temperature(b3: u8, b4: u8, b5: u8) -> int {
    (b3 % 16) * 65536 + b4 * 256 + b5
}

/// Relative humidity in milli-percent for a raw code: `(raw / 2^20) * 100`
/// percent, scaled by 1000 and rounded down.
pub open spec fn humidity_milli_of_raw(raw: int) -> int {
    raw * 100_000 / 0x100000
}

/// The raw code whose decoded humidity is closest to `milli` from below.
pub open spec fn raw_of_humidity_milli(milli: int) -> int {
    milli * 0x100000 / 100_000
}

/// Temperature in milli-degrees Celsius for a raw code:
/// `(raw / 2^20) * 200 - 50` degrees, scaled by 1000 and rounded down.
pub open spec fn temperature_milli_of_raw(raw: int) -> int {
    raw * 200_000 / 0x100000 - 50_000
}

/// The raw code whose decoded temperature is closest to `milli` from below.
pub open spec fn raw_of_temperature_milli(milli: int) -> int {
    (milli + 50_000) * 0x100000 / 200_000
}

/// Extracts the 20-bit humidity code from the three humidity bytes.
pub fn raw_humidity(b1: u8, b2: u8, b3: u8) -> (r: u32)
    ensures
        r == spec_raw_humidity(b1, b2, b3),
        r < 0x100000,
{
    let r: u32 = ((b1 as u32) << 12) | ((b2 as u32) << 4) | ((b3 as u32) >> 4);
    proof {
        assert(r == (b1 as u32) * 4096 + (b2 as u32) * 16 + (b3 as u32) / 16 && r < 0x100000)
            by (bit_vector)
            requires
                r == ((b1 as u32) << 12) | ((b2 as u32) << 4) | ((b3 as u32) >> 4),
        ;
    }
    r
}

/// Extracts the 20-bit temperature code from the three temperature bytes.
pub fn raw_temperature(b3: u8, b4: u8, b5: u8) -> (r: u32)
    ensures
        r == spec_raw_temperature(b3, b4, b5),
        r < 0x100000,
{
    let r: u32 = (((b3 as u32) & 0x0F) << 16) | ((b4 as u32) << 8) | (b5 as u32);
    proof {
        assert(r == ((b3 as u32) % 16) * 65536 + (b4 as u32) * 256 + (b5 as u32) && r < 0x100000)
            by (bit_vector)
            requires
                r == (((b3 as u32) & 0x0F) << 16) | ((b4 as u32) << 8) | (b5 as u32),
        ;
    }
    r
}

/// Decodes a 20-bit humidity code into milli-percent relative humidity.
/// The result always lies in `[0, 100_000)`: decoded humidity never reaches
/// 100 percent.
pub fn decode_humidity_milli(raw: u32) -> (r: u32)
    requires
        raw < 0x100000,
    ensures
        r == humidity_milli_of_raw(raw as int),
        r < 100_000,
{
    let wide: u64 = (raw as u64) * 100_000;
    (wide / 0x100000) as u32
}

/// Decodes a 20-bit temperature code into milli-degrees Celsius. The result
/// always lies in `[-50_000, 150_000)`: decoded temperature never reaches
/// 150 degrees and never falls below -50.
pub fn decode_temperature_milli(raw: u32) -> (r: i32)
    requires
        raw < 0x100000,
    ensures
        r == temperature_milli_of_raw(raw as int),
        -50_000 <= r < 150_000,
{
    let wide: u64 = (raw as u64) * 200_000;
    let scaled: u32 = (wide / 0x100000) as u32;
    (scaled as i32) - 50_000
}

/// Encodes a milli-percent humidity value back into a 20-bit raw code.
pub fn encode_humidity_milli(milli: u32) -> (r: u32)
    requires
        milli < 100_000,
    ensures
        r == raw_of_humidity_milli(milli as int),
        r < 0x100000,
{
    (((milli as u64) * 0x100000) / 100_000) as u32
}

/// Encodes a milli-degree temperature value back into a 20-bit raw code.
pub fn encode_temperature_milli(milli: i32) -> (r: u32)
    requires
        -50_000 <= milli < 150_000,
    ensures
        r == raw_of_temperature_milli(milli as int),
        r < 0x100000,
{
    let shifted: u32 = (milli + 50_000) as u32;
    (((shifted as u64) * 0x100000) / 200_000) as u32
}

/// Law: encoding a humidity value into a 20-bit code and decoding it again
/// reproduces the value to within one milli-percent, the fixed-point
/// counterpart of the chip's 20-bit conversion precision.
pub proof fn lemma_humidity_round_trip(milli: int)
    requires
        0 <= milli < 100_000,
    ensures
        milli - 1 <= humidity_milli_of_raw(raw_of_humidity_milli(milli)),
        humidity_milli_of_raw(raw_of_humidity_milli(milli)) <= milli,
{
}

/// Law: encoding a temperature value into a 20-bit code and decoding it
/// again reproduces the value to within one milli-degree, the fixed-point
/// counterpart of the chip's 20-bit conversion precision.
pub proof fn lemma_temperature_round_trip(milli: int)
    requires
        -50_000 <= milli < 150_000,
    ensures
        milli - 1 <= temperature_milli_of_raw(raw_of_temperature_milli(milli)),
        temperature_milli_of_raw(raw_of_temperature_milli(milli)) <= milli,
{
}

} // verus!
