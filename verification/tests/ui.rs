use gps_globe::app::App;
use gps_globe::canvas::{canvas_items, CanvasItem};
use gps_globe::location::{get_location, Location, LocationResponse};
use gps_globe::ui::{
    compose, status_line, ui, Area, MAP_MIN_HEIGHT, MARGIN, STATUS_HEIGHT, X_BOUNDS, Y_BOUNDS,
};

fn area(x: u16, y: u16, width: u16, height: u16) -> Area {
    Area { x, y, width, height }
}

fn san_francisco() -> Location {
    get_location(Some(LocationResponse {
        lat: Some(377_749),
        lon: Some(-1_224_194),
        city: Some("San Francisco".to_string()),
        country: Some("United States".to_string()),
    }))
    .unwrap()
}

fn app_at(location: Option<Location>) -> App {
    App { location, last_update: 0, rotation: 0 }
}

#[test]
fn status_line_of_san_francisco() {
    assert_eq!(
        status_line(&Some(san_francisco())),
        "Location: San Francisco, United States | Lat: 37.7749°, Lon: -122.4194°"
    );
}

#[test]
fn status_line_without_a_location() {
    assert_eq!(status_line(&None), "Fetching location...");
}

#[test]
fn status_line_with_unknown_names() {
    let place = get_location(Some(LocationResponse {
        lat: Some(-5),
        lon: Some(1_800_000),
        city: None,
        country: None,
    }))
    .unwrap();
    assert_eq!(
        status_line(&Some(place)),
        "Location: Unknown, Unknown | Lat: -0.0005°, Lon: 180.0000°"
    );
}

#[test]
fn the_layout_constants_are_those_of_the_dashboard() {
    assert_eq!(MARGIN, 1);
    assert_eq!(STATUS_HEIGHT, 3);
    assert_eq!(MAP_MIN_HEIGHT, 0);
    assert_eq!(X_BOUNDS, (-1_800_000, 1_800_000));
    assert_eq!(Y_BOUNDS, (-900_000, 900_000));
}

#[test]
fn compose_fills_in_titles_bounds_text_and_items() {
    let app = app_at(Some(san_francisco()));
    let screen = compose(&app, area(1, 1, 78, 3), area(1, 4, 78, 19));
    assert_eq!(screen.status_area, area(1, 1, 78, 3));
    assert_eq!(screen.map_area, area(1, 4, 78, 19));
    assert_eq!(screen.status_title, "GPS Globe");
    assert_eq!(screen.map_title, "Globe");
    assert_eq!(
        screen.status_text,
        "Location: San Francisco, United States | Lat: 37.7749°, Lon: -122.4194°"
    );
    assert_eq!(screen.x_bounds, (-1_800_000, 1_800_000));
    assert_eq!(screen.y_bounds, (-900_000, 900_000));
    assert_eq!(screen.items, canvas_items(&Some(san_francisco())));
}

#[test]
fn a_full_terminal_is_split_into_band_and_map() {
    let screen = ui(&app_at(None), area(0, 0, 80, 24));
    assert_eq!(screen.status_area, area(1, 1, 78, 3));
    assert_eq!(screen.map_area, area(1, 4, 78, 19));
    assert_eq!(screen.status_text, "Fetching location...");
    assert_eq!(screen.items.len(), 92);
}

#[test]
fn an_offset_area_is_split_inside_its_margin() {
    let screen = ui(&app_at(None), area(10, 5, 40, 20));
    assert_eq!(screen.status_area, area(11, 6, 38, 3));
    assert_eq!(screen.map_area, area(11, 9, 38, 15));
}

#[test]
fn san_francisco_on_screen() {
    let screen = ui(&app_at(Some(san_francisco())), area(0, 0, 120, 40));
    assert_eq!(
        screen.status_text,
        "Location: San Francisco, United States | Lat: 37.7749°, Lon: -122.4194°"
    );
    assert_eq!(screen.status_title, "GPS Globe");
    assert_eq!(screen.map_title, "Globe");
    assert_eq!(screen.status_area, area(1, 1, 118, 3));
    assert_eq!(screen.map_area, area(1, 4, 118, 35));
    assert_eq!(screen.items[0], CanvasItem::WorldMap);
    assert_eq!(
        screen.items[1],
        CanvasItem::Print { x: -1_224_194, y: 377_749, text: "●".to_string() }
    );
    assert_eq!(
        screen.items[2],
        CanvasItem::Print { x: -1_174_194, y: 427_749, text: "San Francisco".to_string() }
    );
    assert_eq!(screen.items.len(), 94);
}

#[test]
fn a_terminal_too_small_for_the_margin_leaves_empty_panes() {
    let screen = ui(&app_at(None), area(7, 9, 1, 1));
    assert_eq!(screen.status_area, area(0, 0, 0, 0));
    assert_eq!(screen.map_area, area(0, 0, 0, 0));
    assert_eq!(screen.status_text, "Fetching location...");
}

#[test]
fn panes_stay_inside_the_margin_for_every_small_terminal() {
    let app = app_at(None);
    let mut width: u16 = 0;
    while width <= 12 {
        let mut height: u16 = 0;
        while height <= 12 {
            let screen = ui(&app, area(3, 4, width, height));
            let (left, top, inner_width, inner_height) = if width < 2 || height < 2 {
                (0, 0, 0, 0)
            } else {
                (4, 5, width - 2, height - 2)
            };
            for pane in [screen.status_area, screen.map_area] {
                assert_eq!(pane.x, left);
                assert_eq!(pane.width, inner_width);
                assert!(pane.y >= top);
                assert!(pane.y + pane.height <= top + inner_height);
            }
            height += 1;
        }
        width += 1;
    }
}

#[test]
fn the_same_state_gives_the_same_screen() {
    let app = app_at(Some(san_francisco()));
    assert_eq!(ui(&app, area(0, 0, 80, 24)), ui(&app, area(0, 0, 80, 24)));
}

#[test]
fn rotation_and_clock_do_not_show() {
    let still = App { location: Some(san_francisco()), last_update: 0, rotation: 0 };
    let turned = App { location: Some(san_francisco()), last_update: 99, rotation: 12_345 };
    assert_eq!(ui(&still, area(0, 0, 80, 24)), ui(&turned, area(0, 0, 80, 24)));
}

#[test]
fn panes_stay_inside_the_margin_at_the_far_corner() {
    let app = app_at(None);
    let corners = [
        area(65_530, 65_530, 10, 10),
        area(65_535, 65_535, 65_535, 65_535),
        area(0, 0, 65_535, 65_535),
        area(65_000, 0, 2, 65_535),
        area(0, 65_534, 300, 2),
    ];
    for whole in corners {
        let screen = ui(&app, whole);
        let left = whole.x.saturating_add(1);
        let top = whole.y.saturating_add(1);
        for pane in [screen.status_area, screen.map_area] {
            assert_eq!(pane.x, left);
            assert_eq!(pane.width, whole.width - 2);
            assert!(pane.y >= top);
            assert!(pane.y as u32 + pane.height as u32 <= top as u32 + whole.height as u32 - 2);
            assert!(pane.y as u32 + pane.height as u32 <= u16::MAX as u32);
        }
    }
}
