//! Placement arithmetic: the reserved-space hint (`_NET_WM_STRUT_PARTIAL`) and
//! the window position, derived from the monitor's geometry and the height the
//! panel was laid out with.

use vstd::prelude::*;

verus! {

/// The screen edge a panel is pinned to.
#[derive(Clone, Copy, Debug, PartialEq, Eq, Structural)]
pub enum Edge {
    Top,
    Bottom,
}

/// Whether panels are pinned to the bottom edge when nothing else is asked for.
pub const BOTTOM: bool = false;

/// A snapshot of the monitor's rectangle, as the windowing system reports it.
#[derive(Clone, Copy, Debug, PartialEq, Eq, Structural)]
pub struct MonitorGeometry {
    pub x: i32,
    pub y: i32,
    pub width: i32,
    pub height: i32,
}

/// The twelve cardinals of `_NET_WM_STRUT_PARTIAL`, by name and in the order
/// in which the property holds them.
#[derive(Clone, Copy, Debug, PartialEq, Eq, Structural)]
pub struct StrutPartial {
    pub left: u64,
    pub right: u64,
    pub top: u64,
    pub bottom: u64,
    pub left_start_y: u64,
    pub left_end_y: u64,
    pub right_start_y: u64,
    pub right_end_y: u64,
    pub top_start_x: u64,
    pub top_end_x: u64,
    pub bottom_start_x: u64,
    pub bottom_end_x: u64,
}

/// A signed value as the 64-bit cardinal that stands for it in a property:
/// itself where it is not negative, its two's complement otherwise.
pub open spec fn cardinal(v: int) -> int {
    if v < 0 {
        v + 0x1_0000_0000_0000_0000
    } else {
        v
    }
}

/// A value as a 32-bit signed coordinate, wrapping once around the range.
pub open spec fn coordinate(v: int) -> int {
    if v > i32::MAX {
        v - 0x1_0000_0000
    } else if v < i32::MIN {
        v + 0x1_0000_0000
    } else {
        v
    }
}

/// The first column of the monitor, as a cardinal.
pub open spec fn start_x(geometry: MonitorGeometry) -> u64 {
    cardinal(geometry.x as int) as u64
}

/// The last column of the monitor, as a cardinal.
pub open spec fn end_x(geometry: MonitorGeometry) -> u64 {
    cardinal(geometry.x + geometry.width - 1) as u64
}

/// The strut of a panel of the given height that spans the monitor's width:
/// the height in the slot of its edge, the monitor's first and last column in
/// the two extent slots of that edge, and zero everywhere else.
pub open spec fn strut_of(edge: Edge, geometry: MonitorGeometry, height: i32) -> StrutPartial {
    let reserved = cardinal(height as int) as u64;
    match edge {
        Edge::Top => StrutPartial {
            left: 0,
            right: 0,
            top: reserved,
            bottom: 0,
            left_start_y: 0,
            left_end_y: 0,
            right_start_y: 0,
            right_end_y: 0,
            top_start_x: start_x(geometry),
            top_end_x: end_x(geometry),
            bottom_start_x: 0,
            bottom_end_x: 0,
        },
        Edge::Bottom => StrutPartial {
            left: 0,
            right: 0,
            top: 0,
            bottom: reserved,
            left_start_y: 0,
            left_end_y: 0,
            right_start_y: 0,
            right_end_y: 0,
            top_start_x: 0,
            top_end_x: 0,
            bottom_start_x: start_x(geometry),
            bottom_end_x: end_x(geometry),
        },
    }
}

/// Where the panel's window is moved to: the monitor's first column, and row
/// zero for the top edge, or the row that leaves `height` rows below it for
/// the bottom edge.
pub open spec fn position_of(edge: Edge, geometry: MonitorGeometry, height: i32) -> (i32, i32) {
    match edge {
        Edge::Top => (geometry.x, 0i32),
        Edge::Bottom => (geometry.x, coordinate(geometry.height - height) as i32),
    }
}

/// The edge that the constant `BOTTOM` selects.
pub fn default_edge() -> (edge: Edge)
    ensures
        edge == (if BOTTOM { Edge::Bottom } else { Edge::Top }),
{
    if BOTTOM {
        Edge::Bottom
    } else {
        Edge::Top
    }
}

/// Encodes a signed value as a 64-bit cardinal.
pub fn to_cardinal(v: i64) -> (c: u64)
    ensures
        c == cardinal(v as int),
{
    if v >= 0 {
        v as u64
    } else {
        u64::MAX - ((-(v + 1)) as u64)
    }
}

/// Subtracts two 32-bit coordinates, wrapping around where the difference
/// leaves the range.
pub fn wrapping_difference(a: i32, b: i32) -> (c: i32)
    ensures
        c == coordinate(a - b),
{
    let difference: i64 = a as i64 - b as i64;
    if difference > 0x7fff_ffff {
        (difference - 0x1_0000_0000) as i32
    } else if difference < -0x8000_0000 {
        (difference + 0x1_0000_0000) as i32
    } else {
        difference as i32
    }
}

/// Computes the strut that reserves `height` rows along `edge` of the monitor.
pub fn strut_partial(edge: Edge, geometry: &MonitorGeometry, height: i32) -> (strut: StrutPartial)
    ensures
        strut == strut_of(edge, *geometry, height),
{
    let reserved: u64 = to_cardinal(height as i64);
    let first: u64 = to_cardinal(geometry.x as i64);
    let last: u64 = to_cardinal(geometry.x as i64 + geometry.width as i64 - 1);
    match edge {
        Edge::Top => StrutPartial {
            left: 0,
            right: 0,
            top: reserved,
            bottom: 0,
            left_start_y: 0,
            left_end_y: 0,
            right_start_y: 0,
            right_end_y: 0,
            top_start_x: first,
            top_end_x: last,
            bottom_start_x: 0,
            bottom_end_x: 0,
        },
        Edge::Bottom => StrutPartial {
            left: 0,
            right: 0,
            top: 0,
            bottom: reserved,
            left_start_y: 0,
            left_end_y: 0,
            right_start_y: 0,
            right_end_y: 0,
            top_start_x: 0,
            top_end_x: 0,
            bottom_start_x: first,
            bottom_end_x: last,
        },
    }
}

/// Computes the position of a panel of the given height along `edge`.
pub fn panel_position(edge: Edge, geometry: &MonitorGeometry, height: i32) -> (position: (i32, i32))
    ensures
        position == position_of(edge, *geometry, height),
{
    match edge {
        Edge::Top => (geometry.x, 0),
        Edge::Bottom => (geometry.x, wrapping_difference(geometry.height, height)),
    }
}

impl StrutPartial {
    /// The cardinals in the order of the property.
    pub open spec fn cardinals(self) -> Seq<u64> {
        seq![
            self.left,
            self.right,
            self.top,
            self.bottom,
            self.left_start_y,
            self.left_end_y,
            self.right_start_y,
            self.right_end_y,
            self.top_start_x,
            self.top_end_x,
            self.bottom_start_x,
            self.bottom_end_x,
        ]
    }

    /// The value to write to the property.
    pub fn to_array(&self) -> (cardinals: [u64; 12])
        ensures
            cardinals@ == self.cardinals(),
    {
        let cardinals: [u64; 12] = [
            self.left,
            self.right,
            self.top,
            self.bottom,
            self.left_start_y,
            self.left_end_y,
            self.right_start_y,
            self.right_end_y,
            self.top_start_x,
            self.top_end_x,
            self.bottom_start_x,
            self.bottom_end_x,
        ];
        assert(cardinals@ =~= self.cardinals());
        cardinals
    }
}

/// For a monitor at or right of the origin that is at least one column wide,
/// and a height that is not negative, the strut holds the plain numbers: the
/// height, the monitor's first column and its last.
pub proof fn strut_of_a_monitor_on_screen(edge: Edge, geometry: MonitorGeometry, height: i32)
    requires
        geometry.x >= 0,
        geometry.width >= 1,
        height >= 0,
    ensures
        edge == Edge::Top ==> strut_of(edge, geometry, height).top == height,
        edge == Edge::Top ==> strut_of(edge, geometry, height).top_start_x == geometry.x,
        edge == Edge::Top ==> strut_of(edge, geometry, height).top_end_x == geometry.x
            + geometry.width - 1,
        edge == Edge::Bottom ==> strut_of(edge, geometry, height).bottom == height,
        edge == Edge::Bottom ==> strut_of(edge, geometry, height).bottom_start_x == geometry.x,
        edge == Edge::Bottom ==> strut_of(edge, geometry, height).bottom_end_x == geometry.x
            + geometry.width - 1,
{
}

/// A strut reserves space along one edge only: the slots of the other three
/// edges, and their extents, are zero.
pub proof fn strut_reserves_one_edge(edge: Edge, geometry: MonitorGeometry, height: i32)
    ensures
        ({
            let strut = strut_of(edge, geometry, height);
            &&& strut.left == 0 && strut.right == 0
            &&& strut.left_start_y == 0 && strut.left_end_y == 0
            &&& strut.right_start_y == 0 && strut.right_end_y == 0
            &&& edge == Edge::Top ==> strut.bottom == 0 && strut.bottom_start_x == 0
                && strut.bottom_end_x == 0
            &&& edge == Edge::Bottom ==> strut.top == 0 && strut.top_start_x == 0
                && strut.top_end_x == 0
        }),
{
}

} // verus!
