//! Transform engine: deterministic unit scaling from raw integer readings to
//! calibrated physical units, carried out exactly in fixed point.
//!
//! Coefficients (per the wire format): temperature = raw × 0.25 − 20.0 °C,
//! humidity = raw / 100, pressure = raw × 0.1 hPa, rain = raw × 0.2 mm,
//! wind speed = raw × 0.2 m/s, wind direction = raw × 0.5°, battery voltage
//! = raw × 0.01 V. In hundredths of each unit these are exact integers.

use vstd::prelude::*;

use crate::messages::{Metadata, Quality, WeatherData};
use crate::parser::{decoded_frame, parse_weather_data, DecodeError};
use crate::raw_messages::{RawMetadata, RawWeatherData};
use crate::station_config::StationConfig;

verus! {

/// The metadata produced for a raw record under a device configuration,
/// when processed at instant `now` (unix seconds).
pub open spec fn transformed_metadata(raw: RawMetadata, cfg: StationConfig, now: i64) -> Metadata {
    Metadata {
        device_id: cfg.device_id,
        location: cfg.location,
        forest_area: cfg.forest_area,
        timestamp: raw.timestamp as i64,
        processed_timestamp: now,
        battery_voltage_centi: raw.battery_voltage,
        is_charging: raw.status_bits % 2 != 0,
        data_quality_flag: Quality::Good,
    }
}

/// The normalized record produced for a raw record under a device
/// configuration, when processed at instant `now` (unix seconds).
pub open spec fn transformed(raw: RawWeatherData, cfg: StationConfig, now: i64) -> WeatherData {
    WeatherData {
        metadata: transformed_metadata(raw.metadata, cfg, now),
        temperature_centi: (raw.temperature * 25 - 2000) as i32,
        air_humidity_centi: raw.air_humidity,
        soil_humidity_centi: raw.soil_humidity,
        air_pressure_centi: (raw.air_pressure * 10) as u32,
        rain_centi: (raw.rain * 20) as u32,
        wind_speed_centi: (raw.wind_speed * 20) as u16,
        wind_direction_centi: (raw.wind_direction * 50) as u32,
    }
}

/// Relies on std's `SystemTime::now` and `duration_since`: the current
/// wall-clock time, as unix seconds; a clock standing before the epoch reads
/// as 0. Total for every clock state. Nothing is promised of the value: it
/// depends on the machine's clock.
#[verifier::external_body]
fn now_unix_seconds() -> i64 {
    match std::time::SystemTime::now().duration_since(std::time::UNIX_EPOCH) {
        Ok(d) => d.as_secs() as i64,
        Err(_) => 0,
    }
}

fn process_metadata(raw: &RawMetadata, cfg: &StationConfig, now: i64) -> (r: Metadata)
    ensures
        r == transformed_metadata(*raw, *cfg, now),
{
    let b = raw.status_bits;
    assert(b & 1 != 0 <==> b % 2 != 0) by (bit_vector);
    Metadata {
        device_id: cfg.device_id,
        location: cfg.location,
        forest_area: cfg.forest_area.clone(),
        timestamp: raw.timestamp as i64,
        processed_timestamp: now,
        battery_voltage_centi: raw.battery_voltage,
        is_charging: b & 1 != 0,
        data_quality_flag: Quality::Good,
    }
}

/// Transform a raw record as of the given processing instant. The result is
/// pinned exactly: it is `transformed(raw, cfg, now)`.
pub fn process_weather_data_at(raw: RawWeatherData, cfg: &StationConfig, now: i64) -> (r:
    WeatherData)
    ensures
        r == transformed(raw, *cfg, now),
{
    WeatherData {
        metadata: process_metadata(&raw.metadata, cfg, now),
        temperature_centi: (raw.temperature as i32) * 25 - 2000,
        air_humidity_centi: raw.air_humidity,
        soil_humidity_centi: raw.soil_humidity,
        air_pressure_centi: (raw.air_pressure as u32) * 10,
        rain_centi: (raw.rain as u32) * 20,
        wind_speed_centi: (raw.wind_speed as u16) * 20,
        wind_direction_centi: (raw.wind_direction as u32) * 50,
    }
}

/// Transform a raw record, stamping it with the wall clock. Every field is
/// pinned by `transformed` except the processing timestamp, which is whatever
/// instant the call observed.
pub fn process_weather_data(raw: RawWeatherData, cfg: &StationConfig) -> (r: WeatherData)
    ensures
        r == transformed(raw, *cfg, r.metadata.processed_timestamp),
{
    let now = now_unix_seconds();
    process_weather_data_at(raw, cfg, now)
}

/// The computing core of one message's unit of work: decode the frame, then
/// transform it under the device configuration already resolved for it. A
/// buffer of at least 20 bytes always succeeds, with every field pinned but
/// the processing timestamp; a shorter one is rejected whole.
pub fn process_frame(payload: &[u8], cfg: &StationConfig) -> (r: Result<WeatherData, DecodeError>)
    ensures
        match r {
            Ok(w) => payload@.len() >= 20 && w == transformed(
                decoded_frame(payload@),
                *cfg,
                w.metadata.processed_timestamp,
            ),
            Err(e) => payload@.len() < 20 && e == DecodeError::TruncatedFrame,
        },
{
    match parse_weather_data(payload) {
        Ok(raw) => Ok(process_weather_data(raw, cfg)),
        Err(e) => Err(e),
    }
}

/// Field-wise equality of two normalized records, leaving out the processing
/// timestamp.
pub open spec fn eq_except_processed(a: WeatherData, b: WeatherData) -> bool {
    &&& a.metadata.device_id == b.metadata.device_id
    &&& a.metadata.location == b.metadata.location
    &&& a.metadata.forest_area == b.metadata.forest_area
    &&& a.metadata.timestamp == b.metadata.timestamp
    &&& a.metadata.battery_voltage_centi == b.metadata.battery_voltage_centi
    &&& a.metadata.is_charging == b.metadata.is_charging
    &&& a.metadata.data_quality_flag == b.metadata.data_quality_flag
    &&& a.temperature_centi == b.temperature_centi
    &&& a.air_humidity_centi == b.air_humidity_centi
    &&& a.soil_humidity_centi == b.soil_humidity_centi
    &&& a.air_pressure_centi == b.air_pressure_centi
    &&& a.rain_centi == b.rain_centi
    &&& a.wind_speed_centi == b.wind_speed_centi
    &&& a.wind_direction_centi == b.wind_direction_centi
}

/// Decode-then-transform is deterministic: identical frame bytes and an
/// identical device configuration yield identical normalized records —
/// except the processing timestamp — whatever instants the two runs observe.
pub proof fn lemma_pipeline_deterministic(
    bytes: Seq<u8>,
    cfg: StationConfig,
    now1: i64,
    now2: i64,
)
    requires
        bytes.len() >= 20,
    ensures
        eq_except_processed(
            transformed(decoded_frame(bytes), cfg, now1),
            transformed(decoded_frame(bytes), cfg, now2),
        ),
{
}

} // verus!
