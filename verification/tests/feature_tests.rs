use meteo_pipeline::geo_features::{gen_forest_area, gen_geojson, gen_wind_message};
use meteo_pipeline::map_message::{MapCell, MapMessage};
use meteo_pipeline::messages::WindMessage;

fn one_cell_message() -> MapMessage {
    MapMessage {
        timestamp: 1_761_955_200,
        cell_size_lat_micro: 1_000_000,
        cell_size_lon_micro: 1_000_000,
        cells: vec![MapCell {
            latitude_micro: 1_000_000,
            longitude_micro: 2_000_000,
            value_milli: 5_000,
        }],
        wind_speed_milli: None,
        wind_direction_milli: None,
    }
}

#[test]
fn one_cell_maps_to_one_closed_polygon() {
    // Cell {latitude: 1.0, longitude: 2.0, value: 5.0}, cell sizes 1.0:
    // exactly one feature, five coordinate pairs closing back on the start,
    // status equal to 5.0.
    let msg = one_cell_message();
    let features = gen_geojson(&msg);
    assert_eq!(features.len(), 1);
    let f = &features[0];
    assert_eq!(f.ring.len(), 5);
    assert_eq!(f.ring[0], (2_000_000, 1_000_000));
    assert_eq!(f.ring[1], (3_000_000, 1_000_000));
    assert_eq!(f.ring[2], (3_000_000, 2_000_000));
    assert_eq!(f.ring[3], (2_000_000, 2_000_000));
    assert_eq!(f.ring[4], f.ring[0]);
    assert_eq!(f.status_milli, 5_000);
    assert_eq!(f.id, b"forest_area_1_2".to_vec());
}

#[test]
fn feature_id_renders_fractional_and_negative_coordinates() {
    let cell = MapCell {
        latitude_micro: -500_000, // -0.5
        longitude_micro: 43_700_123, // 43.700123
        value_milli: 0,
    };
    let f = gen_forest_area(&cell, 1_000_000, 1_000_000);
    assert_eq!(f.id, b"forest_area_-0.5_43.700123".to_vec());
}

#[test]
fn feature_id_trims_trailing_fraction_zeros() {
    let cell = MapCell { latitude_micro: 1_500_000, longitude_micro: 10_000, value_milli: 0 };
    let f = gen_forest_area(&cell, 1, 1);
    // 1.5 and 0.01, with no trailing zeros in the fractions.
    assert_eq!(f.id, b"forest_area_1.5_0.01".to_vec());
}

#[test]
fn every_cell_gets_a_feature_in_order() {
    let mut msg = one_cell_message();
    msg.cells.push(MapCell { latitude_micro: 0, longitude_micro: 0, value_milli: 1 });
    msg.cells.push(MapCell { latitude_micro: -1_000_000, longitude_micro: 4_000_000, value_milli: 2 });
    let features = gen_geojson(&msg);
    assert_eq!(features.len(), 3);
    assert_eq!(features[0].status_milli, 5_000);
    assert_eq!(features[1].status_milli, 1);
    assert_eq!(features[1].id, b"forest_area_0_0".to_vec());
    assert_eq!(features[2].id, b"forest_area_-1_4".to_vec());
}

#[test]
fn wind_sample_needs_both_fields() {
    let mut msg = one_cell_message();
    assert!(gen_wind_message(&msg).is_none());
    msg.wind_speed_milli = Some(3_200);
    assert!(gen_wind_message(&msg).is_none());
    msg.wind_direction_milli = Some(180_000);
    assert_eq!(
        gen_wind_message(&msg),
        Some(WindMessage { speed_milli: 3_200, direction_milli: 180_000 })
    );
    msg.wind_speed_milli = None;
    assert!(gen_wind_message(&msg).is_none());
}
