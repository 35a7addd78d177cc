//! What is drawn on the map: the world's outline, the pin of the place
//! looked up, and a grid of dots.

use vstd::prelude::*;
use crate::location::{Location, LocationView, known};

verus! {

/// One degree, in the ten-thousandths that positions are counted in.
pub const DEGREE: i64 = 10_000;

/// The degrees between neighbouring dots of the grid, along both axes.
pub const GRID_STEP: i64 = 30;

/// The dots in one row of the grid: longitudes -180 to 180.
pub const GRID_COLUMNS: i64 = 13;

/// The rows of the grid: latitudes -90 to 90.
pub const GRID_ROWS: i64 = 7;

/// How far the label stands from the pin, in degrees, east and north alike.
pub const LABEL_OFFSET: i64 = 5;

/// One thing to draw on the map. Positions are in ten-thousandths of a
/// degree, `x` the longitude and `y` the latitude.
#[derive(Debug, PartialEq, Eq)]
pub enum CanvasItem {
    /// The outline of the world's coasts.
    WorldMap,
    /// A text whose first cell stands at the position.
    Print { x: i64, y: i64, text: String },
}

/// A `CanvasItem` as mathematical values.
pub enum CanvasItemView {
    WorldMap,
    Print { x: int, y: int, text: Seq<char> },
}

impl View for CanvasItem {
    type V = CanvasItemView;

    open spec fn view(&self) -> CanvasItemView {
        match *self {
            CanvasItem::WorldMap => CanvasItemView::WorldMap,
            CanvasItem::Print { x, y, text } => CanvasItemView::Print {
                x: x as int,
                y: y as int,
                text: text@,
            },
        }
    }
}

/// The items of a list, each as mathematical values, in the list's order.
pub open spec fn items_view(items: Seq<CanvasItem>) -> Seq<CanvasItemView> {
    items.map_values(|item: CanvasItem| item@)
}

/// The glyph that pins the place.
pub open spec fn pin_glyph() -> Seq<char> {
    "●"@
}

/// The glyph of a dot of the grid.
pub open spec fn grid_glyph() -> Seq<char> {
    "·"@
}

/// The pin at the place itself, then the city's name five degrees to the
/// east and five to the north of it, wherever that falls.
pub open spec fn pin(location: LocationView) -> Seq<CanvasItemView> {
    seq![
        CanvasItemView::Print { x: location.longitude, y: location.latitude, text: pin_glyph() },
        CanvasItemView::Print {
            x: location.longitude + LABEL_OFFSET * DEGREE,
            y: location.latitude + LABEL_OFFSET * DEGREE,
            text: location.city,
        },
    ]
}

/// Dot number `k` of the grid. The dots run west to east within a row, and
/// the rows south to north.
pub open spec fn grid_dot(k: int) -> CanvasItemView {
    CanvasItemView::Print {
        x: (-180 + GRID_STEP * (k % GRID_COLUMNS as int)) * DEGREE,
        y: (-90 + GRID_STEP * (k / GRID_COLUMNS as int)) * DEGREE,
        text: grid_glyph(),
    }
}

/// The grid: a dot at every latitude from -90 to 90 and every longitude from
/// -180 to 180 that is a multiple of thirty degrees.
pub open spec fn grid() -> Seq<CanvasItemView> {
    Seq::new((GRID_ROWS * GRID_COLUMNS) as nat, |k: int| grid_dot(k))
}

/// All that is drawn, in drawing order: the outline, the pin and its label
/// where a location is known, then the grid, which so lies on top.
pub open spec fn scene(location: Option<LocationView>) -> Seq<CanvasItemView> {
    let marks = match location {
        Some(place) => pin(place),
        None => Seq::<CanvasItemView>::empty(),
    };
    seq![CanvasItemView::WorldMap] + marks + grid()
}

/// The list of what to draw on the map for a dashboard that knows
/// `location`, in drawing order.
pub fn canvas_items(location: &Option<Location>) -> (items: Vec<CanvasItem>)
    ensures
        items_view(items@) == scene(known(*location)),
{
    let ghost shown = scene(known(*location));
    let mut items: Vec<CanvasItem> = Vec::new();
    items.push(CanvasItem::WorldMap);
    if let Some(place) = location {
        let x: i64 = place.longitude as i64;
        let y: i64 = place.latitude as i64;
        items.push(CanvasItem::Print { x, y, text: String::from_str("●") });
        items.push(
            CanvasItem::Print {
                x: x + LABEL_OFFSET * DEGREE,
                y: y + LABEL_OFFSET * DEGREE,
                text: place.city.clone(),
            },
        );
    }
    let ghost head = items@;
    assert(shown =~= items_view(head) + grid());
    let mut row: i64 = 0;
    while row < GRID_ROWS
        invariant
            0 <= row <= GRID_ROWS,
            items@.len() == head.len() + row * GRID_COLUMNS,
            shown == items_view(head) + grid(),
            items_view(items@) =~= shown.subrange(0, items@.len() as int),
        decreases GRID_ROWS - row,
    {
        let mut column: i64 = 0;
        while column < GRID_COLUMNS
            invariant
                0 <= row < GRID_ROWS,
                0 <= column <= GRID_COLUMNS,
                items@.len() == head.len() + row * GRID_COLUMNS + column,
                shown == items_view(head) + grid(),
                items_view(items@) =~= shown.subrange(0, items@.len() as int),
            decreases GRID_COLUMNS - column,
        {
            let ghost k = row * GRID_COLUMNS + column;
            let ghost before = items@;
            let dot = CanvasItem::Print {
                x: (-180 + GRID_STEP * column) * DEGREE,
                y: (-90 + GRID_STEP * row) * DEGREE,
                text: String::from_str("·"),
            };
            proof {
                assert(k % GRID_COLUMNS as int == column && k / GRID_COLUMNS as int == row)
                    by (nonlinear_arith)
                    requires
                        k == row * GRID_COLUMNS + column,
                        0 <= column < GRID_COLUMNS,
                        0 <= row,
                        GRID_COLUMNS == 13,
                ;
                assert(dot@ == grid_dot(k));
                assert(shown[head.len() + k] == grid()[k]);
            }
            items.push(dot);
            assert(items_view(items@) =~= items_view(before).push(dot@));
            column = column + 1;
        }
        row = row + 1;
    }
    assert(items_view(items@) =~= shown);
    items
}

} // verus!
