//! The screen: a status band over the map, both inside a margin of one cell.

use ratatui::layout::{Constraint, Direction, Layout, Rect};
use vstd::prelude::*;
use crate::app::App;
use crate::canvas::{CanvasItem, CanvasItemView, canvas_items, items_view, scene};
use crate::decimal::{fixed4, format_fixed4};
use crate::location::{Location, LocationView, known};

verus! {

/// The cells left free around the two panes, on every side.
pub const MARGIN: u16 = 1;

/// The height of the status band, its border included.
pub const STATUS_HEIGHT: u16 = 3;

/// The least height asked for the map, which takes what the band leaves.
pub const MAP_MIN_HEIGHT: u16 = 0;

/// The longitudes that the map spans, west to east, in ten-thousandths of a
/// degree.
pub const X_BOUNDS: (i64, i64) = (-1_800_000, 1_800_000);

/// The latitudes that the map spans, south to north, in ten-thousandths of a
/// degree.
pub const Y_BOUNDS: (i64, i64) = (-900_000, 900_000);

/// A rectangle of terminal cells: its top left corner and its size.
#[derive(Debug, Clone, Copy, PartialEq, Eq, Structural)]
pub struct Area {
    pub x: u16,
    pub y: u16,
    pub width: u16,
    pub height: u16,
}

/// All that one frame shows. The program draws a bordered text box titled
/// `status_title` at `status_area`, and at `map_area` a bordered canvas
/// titled `map_title` that spans `x_bounds` by `y_bounds` and holds `items`,
/// drawn in their order.
#[derive(Debug, PartialEq, Eq)]
pub struct Screen {
    pub status_area: Area,
    pub status_title: String,
    pub status_text: String,
    pub map_area: Area,
    pub map_title: String,
    pub x_bounds: (i64, i64),
    pub y_bounds: (i64, i64),
    pub items: Vec<CanvasItem>,
}

/// A `Screen` as mathematical values.
pub struct ScreenView {
    pub status_area: Area,
    pub status_title: Seq<char>,
    pub status_text: Seq<char>,
    pub map_area: Area,
    pub map_title: Seq<char>,
    pub x_bounds: (int, int),
    pub y_bounds: (int, int),
    pub items: Seq<CanvasItemView>,
}

impl View for Screen {
    type V = ScreenView;

    open spec fn view(&self) -> ScreenView {
        ScreenView {
            status_area: self.status_area,
            status_title: self.status_title@,
            status_text: self.status_text@,
            map_area: self.map_area,
            map_title: self.map_title@,
            x_bounds: (self.x_bounds.0 as int, self.x_bounds.1 as int),
            y_bounds: (self.y_bounds.0 as int, self.y_bounds.1 as int),
            items: items_view(self.items@),
        }
    }
}

/// The line of the status band: the place with its coordinates to four
/// decimal places, or a notice while no place is known.
pub open spec fn status_text(location: Option<LocationView>) -> Seq<char> {
    match location {
        Some(place) => "Location: "@ + place.city + ", "@ + place.country + " | Lat: "@ + fixed4(
            place.latitude,
        ) + "°, Lon: "@ + fixed4(place.longitude) + "°"@,
        None => "Fetching location..."@,
    }
}

/// The frame that shows `location` in the two given areas.
pub open spec fn composed(
    location: Option<LocationView>,
    status_area: Area,
    map_area: Area,
) -> ScreenView {
    ScreenView {
        status_area,
        status_title: "GPS Globe"@,
        status_text: status_text(location),
        map_area,
        map_title: "Globe"@,
        x_bounds: (X_BOUNDS.0 as int, X_BOUNDS.1 as int),
        y_bounds: (Y_BOUNDS.0 as int, Y_BOUNDS.1 as int),
        items: scene(location),
    }
}

/// A number of cells doubled, as far as sixteen bits hold it.
pub open spec fn doubled(cells: u16) -> int {
    if 2 * cells <= u16::MAX {
        2 * cells
    } else {
        u16::MAX as int
    }
}

/// What is left of `area` inside a margin of `margin` cells on every side:
/// nothing, at the origin, where the area is too small to hold the margin.
pub open spec fn inner_area(area: Area, margin: u16) -> Area {
    if area.width < doubled(margin) || area.height < doubled(margin) {
        Area { x: 0, y: 0, width: 0, height: 0 }
    } else {
        Area {
            x: if area.x + margin <= u16::MAX {
                (area.x + margin) as u16
            } else {
                u16::MAX
            },
            y: if area.y + margin <= u16::MAX {
                (area.y + margin) as u16
            } else {
                u16::MAX
            },
            width: (area.width - doubled(margin)) as u16,
            height: (area.height - doubled(margin)) as u16,
        }
    }
}

/// Writes the line of the status band.
pub fn status_line(location: &Option<Location>) -> (text: String)
    ensures
        text@ == status_text(known(*location)),
{
    match location {
        Some(place) => {
            let mut text = String::from_str("Location: ");
            text.append(place.city.as_str());
            text.append(", ");
            text.append(place.country.as_str());
            text.append(" | Lat: ");
            text.append(format_fixed4(place.latitude).as_str());
            text.append("°, Lon: ");
            text.append(format_fixed4(place.longitude).as_str());
            text.append("°");
            assert(text@ =~= status_text(known(*location)));
            text
        },
        None => String::from_str("Fetching location..."),
    }
}

/// Whether `row` is a row of `frame`: as wide as the frame, starting at its
/// left edge, and nowhere above or below it.
pub open spec fn is_row_of(row: Area, frame: Area) -> bool {
    &&& row.x == frame.x
    &&& row.width == frame.width
    &&& frame.y <= row.y
    &&& row.y + row.height <= frame.y + frame.height
    &&& row.y + row.height <= u16::MAX
}

/// Splits `area` into two rows, one above the other, inside `margin` cells
/// on every side: the upper row is asked to be `band` cells high, the lower
/// one to take the rest and be at least `rest` high.
///
/// This is ratatui's `Layout::split` for a vertical layout with the
/// constraints `Length(band)` and `Min(rest)`. Its constraint solver weighs
/// the wishes and places the rows; of how it weighs them nothing is claimed
/// here. Claimed is what does not depend on that: there is one rectangle for
/// each of the two constraints; each is as wide as the area inside the
/// margin and starts at its left edge; and, since the layout gives the
/// solver as constraints that must hold that every edge lies between the top
/// and the bottom of that area and that no row ends before it starts, each
/// lies between that top and that bottom.
#[verifier::external_body]
fn split_rows(area: Area, margin: u16, band: u16, rest: u16) -> (rows: Vec<Area>)
    ensures
        rows@.len() == 2,
        forall|i: int| 0 <= i < 2 ==> is_row_of(#[trigger] rows@[i], inner_area(area, margin)),
{
    let whole = Rect { x: area.x, y: area.y, width: area.width, height: area.height };
    Layout::default()
        .direction(Direction::Vertical)
        .margin(margin)
        .constraints([Constraint::Length(band), Constraint::Min(rest)])
        .split(whole)
        .iter()
        .map(|row| Area { x: row.x, y: row.y, width: row.width, height: row.height })
        .collect()
}

/// The frame that shows `app` with the status band at `status_area` and the
/// map at `map_area`.
pub fn compose(app: &App, status_area: Area, map_area: Area) -> (screen: Screen)
    ensures
        screen@ == composed(app@.location, status_area, map_area),
{
    Screen {
        status_area,
        status_title: String::from_str("GPS Globe"),
        status_text: status_line(&app.location),
        map_area,
        map_title: String::from_str("Globe"),
        x_bounds: X_BOUNDS,
        y_bounds: Y_BOUNDS,
        items: canvas_items(&app.location),
    }
}

/// The frame that shows `app` on a terminal of the size and place of `area`:
/// the status band and the map, each a row of the area inside the margin.
/// The layout engine is asked for a band of `STATUS_HEIGHT` cells with the
/// map below it in what is left, and decides where the rows lie.
pub fn ui(app: &App, area: Area) -> (screen: Screen)
    ensures
        screen@ == composed(app@.location, screen.status_area, screen.map_area),
        is_row_of(screen.status_area, inner_area(area, MARGIN)),
        is_row_of(screen.map_area, inner_area(area, MARGIN)),
{
    let rows = split_rows(area, MARGIN, STATUS_HEIGHT, MAP_MIN_HEIGHT);
    compose(app, rows[0], rows[1])
}

} // verus!
