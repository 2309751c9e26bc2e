//! Mapping the cells of a map to tiles and colors, and the grid of tiles of a window.
use vstd::prelude::*;
use crate::color::Color;
use crate::map::Map2d;
use crate::selector::Selector;
use crate::size2d::Size2d;

verus! {

/// The tile that draws nothing.
pub const EMPTY_TILE: u8 = 0;

/// The tile that fills its whole cell.
pub const FULL_TILE: u8 = 219;

/// Selects how to draw each cell of a map.
#[derive(Debug)]
pub enum CellRenderer {
    /// Selects a tile, a foreground and a background color from the value of an attribute.
    AttributeRenderer {
        attribute_id: usize,
        background_selector: Selector<Color>,
        foreground_selector: Selector<Color>,
        tile_selector: Selector<u8>,
    },
}

impl CellRenderer {
    /// Whether the selectors can select.
    pub open spec fn wf(&self) -> bool {
        match self {
            CellRenderer::AttributeRenderer {
                background_selector,
                foreground_selector,
                tile_selector,
                ..
            } => background_selector.wf() && foreground_selector.wf() && tile_selector.wf(),
        }
    }

    /// Selects the tile, foreground and background color from the attribute's value.
    pub fn new_attribute_renderer(
        attribute_id: usize,
        background_selector: Selector<Color>,
        foreground_selector: Selector<Color>,
        tile_selector: Selector<u8>,
    ) -> (r: CellRenderer)
        ensures
            r == (CellRenderer::AttributeRenderer {
                attribute_id,
                background_selector,
                foreground_selector,
                tile_selector,
            }),
    {
        CellRenderer::AttributeRenderer {
            attribute_id,
            background_selector,
            foreground_selector,
            tile_selector,
        }
    }

    /// Selects only the background color from the attribute's value: the tile is empty.
    pub fn new_color_renderer(attribute_id: usize, color_selector: Selector<Color>) -> (r: CellRenderer)
        ensures
            r == (CellRenderer::AttributeRenderer {
                attribute_id,
                background_selector: color_selector,
                foreground_selector: Selector::Const(Color { r: 255, g: 0, b: 128 }),
                tile_selector: Selector::Const(EMPTY_TILE),
            }),
    {
        CellRenderer::AttributeRenderer {
            attribute_id,
            background_selector: color_selector,
            foreground_selector: Selector::Const(Color::new(255, 0, 128)),
            tile_selector: Selector::Const(EMPTY_TILE),
        }
    }

    /// Returns the tile, the foreground and the background color of the cell with the index.
    pub fn get(&self, map: &Map2d, index: usize) -> (r: (u8, Color, Color))
        requires
            self.wf(),
            map.wf(),
            self->attribute_id < map@.names.len(),
            index < map@.size.spec_area(),
        ensures
            ({
                let value = map@.values[self->attribute_id as int][index as int];
                r == (
                    self->tile_selector.spec_get(value),
                    self->foreground_selector.spec_get(value),
                    self->background_selector.spec_get(value),
                )
            }),
    {
        proof {
            map.lemma_view_wf();
        }
        match self {
            CellRenderer::AttributeRenderer {
                attribute_id,
                background_selector,
                foreground_selector,
                tile_selector,
            } => {
                let attribute = map.get_attribute(*attribute_id);
                assert(attribute.spec_values() == map@.values[*attribute_id as int]);
                let value = attribute.get(index);
                let background_color = background_selector.get(value);
                let foreground_color = foreground_selector.get(value);
                let tile = tile_selector.get(value);
                (tile, foreground_color, background_color)
            },
        }
    }
}

/// `ceil(a / b)`.
pub open spec fn spec_div_ceil(a: u32, b: u32) -> u32 {
    ((a + b - 1) / b as int) as u32
}

/// Returns how many tiles of a size cover a window, rounding up along each axis.
pub fn calculate_tiles(window_size: Size2d, tile_size: Size2d) -> (r: Size2d)
    requires
        tile_size.width > 0,
        tile_size.height > 0,
    ensures
        r.width == spec_div_ceil(window_size.width, tile_size.width),
        r.height == spec_div_ceil(window_size.height, tile_size.height),
{
    let width = (window_size.width as u64 + tile_size.width as u64 - 1) / tile_size.width as u64;
    let height = (window_size.height as u64 + tile_size.height as u64 - 1) / tile_size.height as u64;
    proof {
        assert(width <= u32::MAX) by (nonlinear_arith)
            requires
                width == (window_size.width + tile_size.width - 1) / tile_size.width as int,
                tile_size.width >= 1,
                window_size.width <= u32::MAX,
        ;
        assert(height <= u32::MAX) by (nonlinear_arith)
            requires
                height == (window_size.height + tile_size.height - 1) / tile_size.height as int,
                tile_size.height >= 1,
                window_size.height <= u32::MAX,
        ;
    }
    Size2d::new(width as u32, height as u32)
}

/// Returns the index of the tile holding a point of the window.
pub fn calculate_tile_index(window_size: Size2d, tile_size: Size2d, point: (u32, u32)) -> (r: usize)
    requires
        tile_size.width > 0,
        tile_size.height > 0,
        point.0 < window_size.width,
        point.1 < window_size.height,
        spec_div_ceil(window_size.width, tile_size.width) * spec_div_ceil(
            window_size.height,
            tile_size.height,
        ) <= usize::MAX,
    ensures
        r == (point.1 as int / tile_size.height as int) * spec_div_ceil(window_size.width, tile_size.width)
            + point.0 as int / tile_size.width as int,
{
    let tiles = calculate_tiles(window_size, tile_size);
    let x = point.0 / tile_size.width;
    let y = point.1 / tile_size.height;
    proof {
        lemma_div_below_ceil(point.0, window_size.width, tile_size.width);
        lemma_div_below_ceil(point.1, window_size.height, tile_size.height);
    }
    tiles.to_index(x, y)
}

/// A coordinate inside a length falls into one of the tiles that cover the length.
proof fn lemma_div_below_ceil(p: u32, length: u32, tile: u32)
    requires
        p < length,
        tile > 0,
    ensures
        p as int / (tile as int) < spec_div_ceil(length, tile),
{
    vstd::arithmetic::div_mod::lemma_div_is_ordered(p as int + tile, length + tile - 1, tile as int);
    vstd::arithmetic::div_mod::lemma_div_plus_one(p as int, tile as int);
    assert(tile + p == p + tile);
    assert((length + tile - 1) / (tile as int) <= u32::MAX) by (nonlinear_arith)
        requires
            tile > 0,
            length <= u32::MAX,
    ;
}

} // verus!
