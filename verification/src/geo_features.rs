//! Geometry-feature generation: each grid cell maps to a five-point closed
//! rectangular polygon anchored at the cell's (longitude, latitude), tagged
//! with the cell's value as its `status` property and a synthesized
//! identifier. Serialization of the features is left to the unverified
//! shell.

use vstd::prelude::*;

use crate::decimal::{micro_rendered, push_micro};
use crate::map_message::{MapCell, MapMessage};
use crate::messages::WindMessage;

verus! {

/// A rectangular cell polygon feature.
#[derive(Clone, Debug)]
pub struct CellFeature {
    /// Feature identifier: `forest_area_` followed by the anchor's latitude
    /// and longitude, separated by `_`, each rendered in decimal.
    pub id: Vec<u8>,
    /// The polygon's outer ring: five (longitude, latitude) pairs in
    /// microdegrees, the last closing back on the first.
    pub ring: Vec<(i64, i64)>,
    /// The `status` property: the cell's value, in thousandths.
    pub status_milli: i64,
}

/// The fixed identifier prefix, `forest_area_`.
pub open spec fn id_prefix() -> Seq<u8> {
    seq![
        'f' as u8,
        'o' as u8,
        'r' as u8,
        'e' as u8,
        's' as u8,
        't' as u8,
        '_' as u8,
        'a' as u8,
        'r' as u8,
        'e' as u8,
        'a' as u8,
        '_' as u8,
    ]
}

/// The synthesized identifier of a cell anchored at the given coordinates.
pub open spec fn feature_id(lat_micro: int, lon_micro: int) -> Seq<u8> {
    id_prefix() + micro_rendered(lat_micro) + seq!['_' as u8] + micro_rendered(lon_micro)
}

/// The closed rectangular ring of a cell: anchored at the cell's
/// (longitude, latitude), spanning one cell size in each direction, closing
/// back on the first point.
pub open spec fn cell_ring(cell: MapCell, size_lat: int, size_lon: int) -> Seq<(i64, i64)> {
    seq![
        (cell.longitude_micro, cell.latitude_micro),
        ((cell.longitude_micro + size_lon) as i64, cell.latitude_micro),
        ((cell.longitude_micro + size_lon) as i64, (cell.latitude_micro + size_lat) as i64),
        (cell.longitude_micro, (cell.latitude_micro + size_lat) as i64),
        (cell.longitude_micro, cell.latitude_micro),
    ]
}

/// The cell's corner coordinates stay within the machine range.
pub open spec fn cell_in_range(cell: MapCell, size_lat: int, size_lon: int) -> bool {
    &&& i64::MIN < cell.latitude_micro
    &&& i64::MIN < cell.longitude_micro
    &&& i64::MIN <= cell.latitude_micro + size_lat <= i64::MAX
    &&& i64::MIN <= cell.longitude_micro + size_lon <= i64::MAX
}

/// Every cell ring has exactly five points and closes back on its first
/// point, the cell's anchor.
pub proof fn lemma_cell_ring_closed(cell: MapCell, size_lat: int, size_lon: int)
    ensures
        cell_ring(cell, size_lat, size_lon).len() == 5,
        cell_ring(cell, size_lat, size_lon)[4] == cell_ring(cell, size_lat, size_lon)[0],
        cell_ring(cell, size_lat, size_lon)[0] == (cell.longitude_micro, cell.latitude_micro),
{
}

/// Build the polygon feature of one grid cell.
pub fn gen_forest_area(cell: &MapCell, cell_size_lat_micro: i64, cell_size_lon_micro: i64) -> (r:
    CellFeature)
    requires
        cell_in_range(*cell, cell_size_lat_micro as int, cell_size_lon_micro as int),
    ensures
        r.id@ == feature_id(cell.latitude_micro as int, cell.longitude_micro as int),
        r.ring@ == cell_ring(*cell, cell_size_lat_micro as int, cell_size_lon_micro as int),
        r.status_milli == cell.value_milli,
{
    let mut id: Vec<u8> = Vec::new();
    id.push('f' as u8);
    id.push('o' as u8);
    id.push('r' as u8);
    id.push('e' as u8);
    id.push('s' as u8);
    id.push('t' as u8);
    id.push('_' as u8);
    id.push('a' as u8);
    id.push('r' as u8);
    id.push('e' as u8);
    id.push('a' as u8);
    id.push('_' as u8);
    proof {
        assert(id@ =~= id_prefix());
    }
    push_micro(cell.latitude_micro, &mut id);
    id.push('_' as u8);
    push_micro(cell.longitude_micro, &mut id);
    proof {
        assert(id@ =~= feature_id(cell.latitude_micro as int, cell.longitude_micro as int));
    }
    let lon2 = cell.longitude_micro + cell_size_lon_micro;
    let lat2 = cell.latitude_micro + cell_size_lat_micro;
    let mut ring: Vec<(i64, i64)> = Vec::new();
    ring.push((cell.longitude_micro, cell.latitude_micro));
    ring.push((lon2, cell.latitude_micro));
    ring.push((lon2, lat2));
    ring.push((cell.longitude_micro, lat2));
    ring.push((cell.longitude_micro, cell.latitude_micro));
    proof {
        assert(ring@ =~= cell_ring(*cell, cell_size_lat_micro as int, cell_size_lon_micro as int));
    }
    CellFeature { id, ring, status_milli: cell.value_milli }
}

/// Map a grid message to its feature collection: one polygon feature per
/// cell, in order.
pub fn gen_geojson(map_message: &MapMessage) -> (r: Vec<CellFeature>)
    requires
        forall|i: int|
            0 <= i < map_message.cells@.len() ==> cell_in_range(
                map_message.cells@[i],
                map_message.cell_size_lat_micro as int,
                map_message.cell_size_lon_micro as int,
            ),
    ensures
        r@.len() == map_message.cells@.len(),
        forall|i: int|
            0 <= i < r@.len() ==> {
                &&& r@[i].id@ == feature_id(
                    map_message.cells@[i].latitude_micro as int,
                    map_message.cells@[i].longitude_micro as int,
                )
                &&& r@[i].ring@ == cell_ring(
                    map_message.cells@[i],
                    map_message.cell_size_lat_micro as int,
                    map_message.cell_size_lon_micro as int,
                )
                &&& r@[i].status_milli == map_message.cells@[i].value_milli
            },
{
    let mut r: Vec<CellFeature> = Vec::new();
    let mut i: usize = 0;
    while i < map_message.cells.len()
        invariant
            i <= map_message.cells@.len(),
            r@.len() == i,
            forall|k: int|
                0 <= k < map_message.cells@.len() ==> cell_in_range(
                    map_message.cells@[k],
                    map_message.cell_size_lat_micro as int,
                    map_message.cell_size_lon_micro as int,
                ),
            forall|j: int|
                0 <= j < i ==> {
                    &&& r@[j].id@ == feature_id(
                        map_message.cells@[j].latitude_micro as int,
                        map_message.cells@[j].longitude_micro as int,
                    )
                    &&& r@[j].ring@ == cell_ring(
                        map_message.cells@[j],
                        map_message.cell_size_lat_micro as int,
                        map_message.cell_size_lon_micro as int,
                    )
                    &&& r@[j].status_milli == map_message.cells@[j].value_milli
                },
        decreases map_message.cells@.len() - i,
    {
        let cell = map_message.cells[i];
        r.push(
            gen_forest_area(
                &cell,
                map_message.cell_size_lat_micro,
                map_message.cell_size_lon_micro,
            ),
        );
        i = i + 1;
    }
    r
}

/// The wind sample carried by a grid message: produced exactly when both
/// wind fields are present, and then carrying them unchanged.
pub fn gen_wind_message(map_message: &MapMessage) -> (r: Option<WindMessage>)
    ensures
        match (map_message.wind_speed_milli, map_message.wind_direction_milli) {
            (Some(s), Some(d)) => r == Some(WindMessage { speed_milli: s, direction_milli: d }),
            _ => r is None,
        },
{
    match (map_message.wind_speed_milli, map_message.wind_direction_milli) {
        (Some(speed), Some(direction)) => Some(
            WindMessage { speed_milli: speed, direction_milli: direction },
        ),
        _ => None,
    }
}

} // verus!
