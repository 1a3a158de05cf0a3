//! Normalized telemetry records. Physical quantities are exact fixed-point
//! integers: hundredths of the physical unit ("centi"), microdegrees for
//! coordinates, thousandths ("milli") for grid-borne samples. The unverified
//! shell converts to floating point when it serializes.

use vstd::prelude::*;

verus! {

/// Location information, in fixed point.
#[derive(Clone, Copy, Debug, PartialEq, Eq, Structural)]
pub struct Location {
    /// Geographic latitude, in microdegrees (degrees × 10^6)
    pub latitude_micro: i64,
    /// Geographic longitude, in microdegrees (degrees × 10^6)
    pub longitude_micro: i64,
    /// Altitude, in centimeters
    pub altitude_centi: i64,
}

/// Data quality flag.
#[derive(Clone, Copy, Debug, PartialEq, Eq, Structural)]
pub enum Quality {
    Good,
    Moderate,
    Poor,
}

/// Metadata common to all messages.
#[derive(Clone, Debug)]
pub struct Metadata {
    /// Unique identifier for the device
    pub device_id: u16,
    /// Device location
    pub location: Location,
    /// Forest area identifier
    pub forest_area: String,
    /// Event time of the message, unix seconds
    pub timestamp: i64,
    /// Time the message was processed, unix seconds
    pub processed_timestamp: i64,
    /// Battery voltage, in centivolts (volts × 100)
    pub battery_voltage_centi: u16,
    /// Charging status
    pub is_charging: bool,
    /// Data quality flag
    pub data_quality_flag: Quality,
}

/// Weather data message, in calibrated physical units (fixed point).
#[derive(Clone, Debug)]
pub struct WeatherData {
    /// Metadata common to all messages
    pub metadata: Metadata,
    /// Temperature, in centidegrees Celsius (°C × 100)
    pub temperature_centi: i32,
    /// Air humidity, in hundredths of the 0.0–1.0 fraction (= percent)
    pub air_humidity_centi: u8,
    /// Soil humidity, in hundredths of the 0.0–1.0 fraction (= percent)
    pub soil_humidity_centi: u8,
    /// Air pressure, in centi-hPa (hPa × 100)
    pub air_pressure_centi: u32,
    /// Rainfall, in centimillimeters (mm × 100)
    pub rain_centi: u32,
    /// Wind speed, in centimeters per second (m/s × 100)
    pub wind_speed_centi: u16,
    /// Wind direction, in centidegrees (degrees × 100)
    pub wind_direction_centi: u32,
}

/// A global wind sample carried beside a grid message.
#[derive(Clone, Copy, Debug, PartialEq, Eq, Structural)]
pub struct WindMessage {
    /// Wind speed, in milli-(m/s) (m/s × 1000)
    pub speed_milli: i64,
    /// Wind direction, in millidegrees (degrees × 1000)
    pub direction_milli: i64,
}

/// Push message envelope for live-state delivery.
#[derive(Clone, Debug)]
pub struct ApiMessage<T> {
    /// One of the enumerated message types, `"areas"` or `"wind"`
    pub message_type: String,
    /// The delivered value, if any
    pub payload: Option<T>,
}

impl<T> ApiMessage<T> {
    /// Envelope for an area (feature collection) update.
    pub fn areas(payload: T) -> (r: ApiMessage<T>)
        ensures
            r.message_type@ == "areas"@,
            r.payload == Some(payload),
    {
        ApiMessage { message_type: "areas".to_owned(), payload: Some(payload) }
    }

    /// Envelope for a wind update.
    pub fn wind(payload: T) -> (r: ApiMessage<T>)
        ensures
            r.message_type@ == "wind"@,
            r.payload == Some(payload),
    {
        ApiMessage { message_type: "wind".to_owned(), payload: Some(payload) }
    }
}

} // verus!
