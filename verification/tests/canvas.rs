use gps_globe::canvas::{canvas_items, CanvasItem};
use gps_globe::location::Location;

fn san_francisco() -> Location {
    Location {
        latitude: 377_749,
        longitude: -1_224_194,
        city: "San Francisco".to_string(),
        country: "United States".to_string(),
    }
}

fn dot(x: i64, y: i64) -> CanvasItem {
    CanvasItem::Print { x, y, text: "·".to_string() }
}

#[test]
fn without_a_location_the_map_holds_outline_and_grid() {
    let items = canvas_items(&None);
    assert_eq!(items.len(), 1 + 91);
    assert_eq!(items[0], CanvasItem::WorldMap);
    assert_eq!(items[1], dot(-1_800_000, -900_000));
    assert_eq!(items[91], dot(1_800_000, 900_000));
}

#[test]
fn the_grid_runs_west_to_east_and_then_south_to_north() {
    let items = canvas_items(&None);
    let mut expected = Vec::new();
    let mut lat: i64 = -90;
    while lat <= 90 {
        let mut lon: i64 = -180;
        while lon <= 180 {
            expected.push(dot(lon * 10_000, lat * 10_000));
            lon += 30;
        }
        lat += 30;
    }
    assert_eq!(expected.len(), 91);
    assert_eq!(&items[1..], &expected[..]);
}

#[test]
fn grid_rows_hold_thirteen_dots() {
    let items = canvas_items(&None);
    assert_eq!(items[1 + 12], dot(1_800_000, -900_000));
    assert_eq!(items[1 + 13], dot(-1_800_000, -600_000));
    assert_eq!(items[1 + 3 * 13 + 6], dot(0, 0));
}

#[test]
fn the_pin_and_its_label_come_after_the_outline_and_before_the_grid() {
    let items = canvas_items(&Some(san_francisco()));
    assert_eq!(items.len(), 1 + 2 + 91);
    assert_eq!(items[0], CanvasItem::WorldMap);
    assert_eq!(
        items[1],
        CanvasItem::Print { x: -1_224_194, y: 377_749, text: "●".to_string() }
    );
    assert_eq!(
        items[2],
        CanvasItem::Print { x: -1_174_194, y: 427_749, text: "San Francisco".to_string() }
    );
    assert_eq!(items[3], dot(-1_800_000, -900_000));
    assert_eq!(items[93], dot(1_800_000, 900_000));
    assert_eq!(&items[3..], &canvas_items(&None)[1..]);
}

#[test]
fn the_label_is_not_held_inside_the_map() {
    let far = Location {
        latitude: 899_999,
        longitude: 1_799_999,
        city: "Edge".to_string(),
        country: "Nowhere".to_string(),
    };
    let items = canvas_items(&Some(far));
    assert_eq!(
        items[2],
        CanvasItem::Print { x: 1_849_999, y: 949_999, text: "Edge".to_string() }
    );
}

#[test]
fn the_widest_coordinates_do_not_overflow() {
    let most = Location {
        latitude: i32::MAX,
        longitude: i32::MAX,
        city: String::new(),
        country: String::new(),
    };
    let items = canvas_items(&Some(most));
    assert_eq!(
        items[2],
        CanvasItem::Print {
            x: i32::MAX as i64 + 50_000,
            y: i32::MAX as i64 + 50_000,
            text: String::new()
        }
    );
    let least = Location {
        latitude: i32::MIN,
        longitude: i32::MIN,
        city: String::new(),
        country: String::new(),
    };
    let items = canvas_items(&Some(least));
    assert_eq!(
        items[1],
        CanvasItem::Print { x: i32::MIN as i64, y: i32::MIN as i64, text: "●".to_string() }
    );
    assert_eq!(
        items[2],
        CanvasItem::Print {
            x: i32::MIN as i64 + 50_000,
            y: i32::MIN as i64 + 50_000,
            text: String::new()
        }
    );
}
