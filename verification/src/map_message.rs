//! Grid (map) messages: a spatial grid of scalar values, each cell mapped to
//! a rectangular polygon feature. Coordinates and cell sizes are in
//! microdegrees, cell values and wind samples in thousandths.

use vstd::prelude::*;

verus! {

/// One grid cell.
#[derive(Clone, Copy, Debug, PartialEq, Eq, Structural)]
pub struct MapCell {
    /// Geographic latitude of the cell's anchor, in microdegrees
    pub latitude_micro: i64,
    /// Geographic longitude of the cell's anchor, in microdegrees
    pub longitude_micro: i64,
    /// Value at the grid cell, in thousandths
    pub value_milli: i64,
}

/// A grid realization received from the bus.
#[derive(Clone, Debug)]
pub struct MapMessage {
    /// Timestamp of the map realization, unix seconds
    pub timestamp: i64,
    /// Latitude size of each grid cell, in microdegrees
    pub cell_size_lat_micro: i64,
    /// Longitude size of each grid cell, in microdegrees
    pub cell_size_lon_micro: i64,
    /// Grid cell values
    pub cells: Vec<MapCell>,
    /// Global wind speed, in milli-(m/s), if present
    pub wind_speed_milli: Option<i64>,
    /// Global wind direction, in millidegrees, if present
    pub wind_direction_milli: Option<i64>,
}

} // verus!
