//! Integer geometry for the level-editor coordinate conversion.
//!
//! The level editor stores positions in pixels with the origin at the
//! top-left corner of a layer and the Y axis pointing down.  The game
//! world uses the opposite convention: origin at the bottom-left of the
//! layer, Y axis pointing up, with an entity positioned by the centre of
//! its bounding box.  To keep the conversion exact without floating
//! point, world coordinates are expressed in thousandths of a pixel and
//! pivots in thousandths of the bounding box.

use vstd::prelude::*;

verus! {

/// Number of world units per pixel: world coordinates are in
/// thousandths of a pixel.
pub const PIXEL_SCALE: i64 = 1000;

/// A pivot of one (the far edge of the bounding box) in pivot units.
pub const PIVOT_ONE: u32 = 1000;

/// Half of the entity's bounding box, in pivot units.
pub const PIVOT_HALF: i64 = 500;

/// Largest pixel coordinate magnitude the conversion accepts; generous
/// enough for any grid point of a layer, chosen so that every
/// intermediate product below stays within `i64`.
pub const COORD_LIMIT: i64 = 0x1_0000_0000_0000;

/// Largest entity width, height or layer grid size in pixels.
pub const SIZE_LIMIT: i32 = 65536;

/// A position in pixels, top-left origin, Y down.
#[derive(Clone, Copy, Debug, PartialEq, Eq, Structural)]
pub struct PixelPoint {
    pub x: i32,
    pub y: i32,
}

/// A position in grid cells of a layer, top-left origin, Y down.
#[derive(Clone, Copy, Debug, PartialEq, Eq, Structural)]
pub struct GridPoint {
    pub x: i32,
    pub y: i32,
}

/// A position in world units (thousandths of a pixel), bottom-left
/// origin, Y up.
#[derive(Clone, Copy, Debug, PartialEq, Eq, Structural)]
pub struct WorldPoint {
    pub x: i64,
    pub y: i64,
}

/// A normalized anchor within an entity's bounding box, in thousandths:
/// `(0, 0)` is the top-left corner, `(1000, 1000)` the bottom-right.
#[derive(Clone, Copy, Debug, PartialEq, Eq, Structural)]
pub struct Pivot {
    pub x: u32,
    pub y: u32,
}

impl Pivot {
    /// Both anchor coordinates lie within the bounding box.
    pub open spec fn wf(self) -> bool {
        self.x <= PIVOT_ONE && self.y <= PIVOT_ONE
    }
}

/// Horizontal world coordinate of an entity whose pivot sits at pixel
/// column `px_x`: the centre of the bounding box, in thousandths of a
/// pixel.
pub open spec fn world_x_of(px_x: int, width: int, pivot_x: int) -> int {
    PIXEL_SCALE * px_x + (PIVOT_HALF - pivot_x) * width
}

/// Vertical world coordinate of an entity whose pivot sits at pixel row
/// `px_y` of a layer `layer_px_height` pixels tall: the Y axis is
/// flipped and the result anchored at the centre of the bounding box.
pub open spec fn world_y_of(px_y: int, layer_px_height: int, height: int, pivot_y: int) -> int {
    PIXEL_SCALE * (layer_px_height - px_y) + (pivot_y - PIVOT_HALF) * height
}

/// Full pixel-to-world conversion of a pivot position.
pub open spec fn world_of(
    px_x: int,
    px_y: int,
    layer_px_height: int,
    width: int,
    height: int,
    pivot: Pivot,
) -> WorldPoint {
    WorldPoint {
        x: world_x_of(px_x, width, pivot.x as int) as i64,
        y: world_y_of(px_y, layer_px_height, height, pivot.y as int) as i64,
    }
}

/// The inputs on which the conversion is defined: bounded pixel
/// coordinates, a non-negative bounded layer height, bounded
/// non-negative entity size and a well-formed pivot.
pub open spec fn conversion_args_wf(
    px_x: int,
    px_y: int,
    layer_px_height: int,
    width: int,
    height: int,
    pivot: Pivot,
) -> bool {
    &&& -COORD_LIMIT <= px_x <= COORD_LIMIT
    &&& -COORD_LIMIT <= px_y <= COORD_LIMIT
    &&& 0 <= layer_px_height <= COORD_LIMIT
    &&& 0 <= width <= SIZE_LIMIT
    &&& 0 <= height <= SIZE_LIMIT
    &&& pivot.wf()
}

/// Pixel coordinate of the centre of grid cell `c` when cells are
/// `grid_size` pixels wide: the cell's origin plus half a cell.
pub open spec fn cell_center_px(c: int, grid_size: int) -> int {
    c * grid_size + grid_size / 2
}

/// Converts a pivot position given in pixels (top-left origin, Y down)
/// into a world position (bottom-left origin, Y up, thousandths of a
/// pixel), anchored at the centre of the entity's bounding box.
pub fn pixel_to_world(
    px_x: i64,
    px_y: i64,
    layer_px_height: i64,
    width: i32,
    height: i32,
    pivot: Pivot,
) -> (r: WorldPoint)
    requires
        conversion_args_wf(
            px_x as int,
            px_y as int,
            layer_px_height as int,
            width as int,
            height as int,
            pivot,
        ),
    ensures
        r == world_of(
            px_x as int,
            px_y as int,
            layer_px_height as int,
            width as int,
            height as int,
            pivot,
        ),
{
    proof {
        assert(-500 * 65536 <= (PIVOT_HALF - pivot.x as int) * (width as int) <= 500
            * 65536) by (nonlinear_arith)
            requires
                -500 <= PIVOT_HALF - pivot.x as int <= 500,
                0 <= width as int <= 65536,
        ;
        assert(-500 * 65536 <= (pivot.y as int - PIVOT_HALF) * (height as int) <= 500
            * 65536) by (nonlinear_arith)
            requires
                -500 <= pivot.y as int - PIVOT_HALF <= 500,
                0 <= height as int <= 65536,
        ;
    }
    let pivot_term_x: i64 = (PIVOT_HALF - pivot.x as i64) * (width as i64);
    let pivot_term_y: i64 = (pivot.y as i64 - PIVOT_HALF) * (height as i64);
    let x: i64 = PIXEL_SCALE * px_x + pivot_term_x;
    let y: i64 = PIXEL_SCALE * (layer_px_height - px_y) + pivot_term_y;
    WorldPoint { x, y }
}

/// Pixel coordinate of the centre of grid cell `c` for a layer whose
/// cells are `grid_size` pixels wide.
pub fn grid_cell_center(c: i32, grid_size: i32) -> (r: i64)
    requires
        0 < grid_size <= SIZE_LIMIT,
    ensures
        r == cell_center_px(c as int, grid_size as int),
        -COORD_LIMIT <= r <= COORD_LIMIT,
{
    proof {
        assert(-0x8000_0000 * 65536 <= (c as int) * (grid_size as int) <= 0x8000_0000
            * 65536) by (nonlinear_arith)
            requires
                -0x8000_0000 <= c as int <= 0x8000_0000,
                0 < grid_size as int <= 65536,
        ;
    }
    let prod: i64 = (c as i64) * (grid_size as i64);
    prod + (grid_size as i64) / 2
}

/// Law: the conversion is a pure function of its five inputs — equal
/// inputs always yield equal world positions.
pub proof fn lemma_conversion_deterministic(
    px_x1: int,
    px_y1: int,
    layer_px_height1: int,
    width1: int,
    height1: int,
    pivot1: Pivot,
    px_x2: int,
    px_y2: int,
    layer_px_height2: int,
    width2: int,
    height2: int,
    pivot2: Pivot,
)
    requires
        px_x1 == px_x2,
        px_y1 == px_y2,
        layer_px_height1 == layer_px_height2,
        width1 == width2,
        height1 == height2,
        pivot1 == pivot2,
    ensures
        world_of(px_x1, px_y1, layer_px_height1, width1, height1, pivot1) == world_of(
            px_x2,
            px_y2,
            layer_px_height2,
            width2,
            height2,
            pivot2,
        ),
{
}

/// Law: the vertical axis is flipped by the conversion — of two pivot
/// positions that differ only in their pixel row, the one lower on the
/// screen (larger Y-down coordinate) is mapped strictly lower in the
/// world (smaller Y-up coordinate).
pub proof fn lemma_vertical_axis_flipped(
    px_y1: int,
    px_y2: int,
    layer_px_height: int,
    height: int,
    pivot_y: int,
)
    requires
        px_y1 < px_y2,
    ensures
        world_y_of(px_y1, layer_px_height, height, pivot_y) > world_y_of(
            px_y2,
            layer_px_height,
            height,
            pivot_y,
        ),
{
}

} // verus!

