//! Verified core of a sensor-telemetry pipeline: a fixed-layout binary frame
//! decoder, a unit-conversion transform engine, topic-template resolution,
//! grid-to-polygon feature generation, a "latest value + notify" cache model,
//! and the bus client's poll-loop policy.
//!
//! Physical quantities are held as exact fixed-point integers (hundredths of
//! the physical unit, microdegrees for coordinates); the unverified shell
//! around the library converts to floating point at its edges.

pub mod bus;
pub mod decimal;
pub mod geo_features;
pub mod livestate;
pub mod map_message;
pub mod messages;
pub mod parser;
pub mod process;
pub mod publish;
pub mod raw_messages;
pub mod station_config;
pub mod template;
