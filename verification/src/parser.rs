//! Binary telemetry decoder: strict big-endian, fixed-offset extraction of a
//! 20-byte weather frame. Any shorter buffer is rejected whole; bytes past
//! offset 19 are never read.

use vstd::prelude::*;

use crate::raw_messages::{RawMetadata, RawWeatherData};

verus! {

/// Error taxonomy of the decoder.
#[derive(Clone, Copy, Debug, PartialEq, Eq, Structural)]
pub enum DecodeError {
    /// The buffer holds fewer than the 20 bytes of one frame.
    TruncatedFrame,
}

/// Total length of one weather frame on the wire.
pub const FRAME_LEN: usize = 20;

/// Big-endian unsigned 16-bit value at offset `i`.
pub open spec fn be_u16_at(s: Seq<u8>, i: int) -> int {
    s[i] * 0x100 + s[i + 1]
}

/// Big-endian unsigned 32-bit value at offset `i`.
pub open spec fn be_u32_at(s: Seq<u8>, i: int) -> int {
    s[i] * 0x1000000 + s[i + 1] * 0x10000 + s[i + 2] * 0x100 + s[i + 3]
}

/// Big-endian two's-complement 16-bit value at offset `i`.
pub open spec fn be_i16_at(s: Seq<u8>, i: int) -> int {
    if be_u16_at(s, i) >= 0x8000 {
        be_u16_at(s, i) - 0x10000
    } else {
        be_u16_at(s, i)
    }
}

/// The metadata held by bytes `[0, 9)` of a frame.
pub open spec fn decoded_metadata(s: Seq<u8>) -> RawMetadata
    recommends
        s.len() >= 9,
{
    RawMetadata {
        device_id: be_u16_at(s, 0) as u16,
        timestamp: be_u32_at(s, 2) as u32,
        battery_voltage: be_u16_at(s, 6) as u16,
        status_bits: s[8],
    }
}

/// The record held by the first 20 bytes of a buffer.
pub open spec fn decoded_frame(s: Seq<u8>) -> RawWeatherData
    recommends
        s.len() >= 20,
{
    RawWeatherData {
        metadata: decoded_metadata(s),
        temperature: be_i16_at(s, 9) as i16,
        air_humidity: s[11],
        soil_humidity: s[12],
        air_pressure: be_u16_at(s, 13) as u16,
        rain: be_u16_at(s, 15) as u16,
        wind_speed: s[17],
        wind_direction: be_u16_at(s, 18) as u16,
    }
}

fn read_be_u16(data: &[u8], i: usize) -> (r: u16)
    requires
        i + 2 <= data@.len(),
    ensures
        r == be_u16_at(data@, i as int),
{
    (data[i] as u16) * 0x100 + (data[i + 1] as u16)
}

fn read_be_u32(data: &[u8], i: usize) -> (r: u32)
    requires
        i + 4 <= data@.len(),
    ensures
        r == be_u32_at(data@, i as int),
{
    (data[i] as u32) * 0x1000000 + (data[i + 1] as u32) * 0x10000 + (data[i + 2] as u32) * 0x100
        + (data[i + 3] as u32)
}

fn read_be_i16(data: &[u8], i: usize) -> (r: i16)
    requires
        i + 2 <= data@.len(),
    ensures
        r as int == be_i16_at(data@, i as int),
{
    let u = read_be_u16(data, i);
    if u >= 0x8000 {
        ((u as i32) - 0x10000) as i16
    } else {
        u as i16
    }
}

fn parse_metadata_i(data: &[u8]) -> (r: RawMetadata)
    requires
        data@.len() >= 9,
    ensures
        r == decoded_metadata(data@),
{
    RawMetadata {
        device_id: read_be_u16(data, 0),
        timestamp: read_be_u32(data, 2),
        battery_voltage: read_be_u16(data, 6),
        status_bits: data[8],
    }
}

fn parse_weather_i(data: &[u8]) -> (r: RawWeatherData)
    requires
        data@.len() >= 20,
    ensures
        r == decoded_frame(data@),
{
    RawWeatherData {
        metadata: parse_metadata_i(data),
        temperature: read_be_i16(data, 9),
        air_humidity: data[11],
        soil_humidity: data[12],
        air_pressure: read_be_u16(data, 13),
        rain: read_be_u16(data, 15),
        wind_speed: data[17],
        wind_direction: read_be_u16(data, 18),
    }
}

/// Decode one frame. Every buffer of at least 20 bytes decodes to exactly the
/// record given by `decoded_frame`; every shorter buffer is rejected with
/// `TruncatedFrame`.
pub fn parse_weather_data(data: &[u8]) -> (r: Result<RawWeatherData, DecodeError>)
    ensures
        data@.len() >= 20 ==> r == Ok::<RawWeatherData, DecodeError>(decoded_frame(data@)),
        data@.len() < 20 ==> r == Err::<RawWeatherData, DecodeError>(DecodeError::TruncatedFrame),
{
    if data.len() < FRAME_LEN {
        Err(DecodeError::TruncatedFrame)
    } else {
        Ok(parse_weather_i(data))
    }
}

/// The decoder never reads past byte 19: two buffers that agree on their
/// first 20 bytes decode to the same record.
pub proof fn lemma_decode_reads_only_frame(a: Seq<u8>, b: Seq<u8>)
    requires
        a.len() >= 20,
        b.len() >= 20,
        a.subrange(0, 20) == b.subrange(0, 20),
    ensures
        decoded_frame(a) == decoded_frame(b),
{
    assert forall|i: int| 0 <= i < 20 implies a[i] == b[i] by {
        assert(a.subrange(0, 20)[i] == a[i]);
        assert(b.subrange(0, 20)[i] == b[i]);
    }
}

} // verus!
