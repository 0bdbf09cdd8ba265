use crate::position::RelativePosition;
use vstd::prelude::*;

verus! {

/// The extent of a rectangular grid, stored row by row.
#[derive(Default, Debug, Clone, Copy, PartialEq, Eq, Hash)]
pub struct AreaSize {
    pub width: usize,
    pub height: usize,
}

/// Row-major index of column `x`, row `y` on a grid `width` cells wide.
pub open spec fn grid_index(width: int, x: int, y: int) -> int {
    y * width + x
}

impl AreaSize {
    pub fn new(width: usize, height: usize) -> (r: Self)
        ensures
            r.width == width,
            r.height == height,
    {
        Self { width, height }
    }

    /// A square area.
    pub fn splat(side: usize) -> (r: Self)
        ensures
            r.width == side,
            r.height == side,
    {
        Self { width: side, height: side }
    }

    pub open spec fn spec_area(self) -> int {
        self.width * self.height
    }

    /// The area fits in `usize`, so every index and coordinate of it does.
    pub open spec fn fits(self) -> bool {
        self.width * self.height <= usize::MAX
    }

    pub fn area(self) -> (r: usize)
        requires
            self.fits(),
        ensures
            r == self.spec_area(),
    {
        self.width * self.height
    }

    /// Both extents scaled: the area of a grid of `tile`-sized tiles.
    pub fn scaled(self, tile: AreaSize) -> (r: AreaSize)
        requires
            self.width * tile.width <= usize::MAX,
            self.height * tile.height <= usize::MAX,
        ensures
            r.width == self.width * tile.width,
            r.height == self.height * tile.height,
    {
        AreaSize { width: self.width * tile.width, height: self.height * tile.height }
    }

    /// Row-major index of an in-bounds position.
    pub fn coords_to_index(self, pos: RelativePosition) -> (r: usize)
        requires
            self.fits(),
            pos.x < self.width,
            pos.y < self.height,
        ensures
            r == grid_index(self.width as int, pos.x as int, pos.y as int),
            r < self.spec_area(),
    {
        proof {
            lemma_index_in_grid(self.width as int, self.height as int, pos.x as int, pos.y as int);
        }
        (pos.y as usize) * self.width + (pos.x as usize)
    }

    /// The position whose row-major index is `index`.
    pub fn index_to_coords(self, index: usize) -> (r: RelativePosition)
        requires
            self.fits(),
            index < self.spec_area(),
            self.width <= u32::MAX,
            self.height <= u32::MAX,
        ensures
            r.x < self.width,
            r.y < self.height,
            grid_index(self.width as int, r.x as int, r.y as int) == index,
    {
        assert(self.width > 0) by (nonlinear_arith)
            requires index < self.width * self.height, index >= 0;
        let x = index % self.width;
        let y = index / self.width;
        proof {
            vstd::arithmetic::div_mod::lemma_fundamental_div_mod(index as int, self.width as int);
            vstd::arithmetic::div_mod::lemma_multiply_divide_lt(index as int, self.width as int, self.height as int);
            assert(y * self.width == self.width * y) by (nonlinear_arith);
        }
        RelativePosition::new(x as u32, y as u32)
    }
}

/// An in-bounds position has an in-bounds index.
pub proof fn lemma_index_in_grid(width: int, height: int, x: int, y: int)
    requires
        0 <= x < width,
        0 <= y < height,
    ensures
        0 <= grid_index(width, x, y) < width * height,
{
    assert(0 <= y * width) by (nonlinear_arith)
        requires 0 <= y, 0 <= width;
    assert(y * width + width <= height * width) by (nonlinear_arith)
        requires y < height, 0 <= width;
    assert(height * width == width * height) by (nonlinear_arith);
}

/// Distinct in-bounds positions have distinct indices.
pub proof fn lemma_index_injective(width: int, x1: int, y1: int, x2: int, y2: int)
    requires
        0 <= x1 < width,
        0 <= x2 < width,
        0 <= y1,
        0 <= y2,
        grid_index(width, x1, y1) == grid_index(width, x2, y2),
    ensures
        x1 == x2,
        y1 == y2,
{
    vstd::arithmetic::div_mod::lemma_fundamental_div_mod_converse(
        grid_index(width, x1, y1), width, y1, x1);
    vstd::arithmetic::div_mod::lemma_fundamental_div_mod_converse(
        grid_index(width, x2, y2), width, y2, x2);
}

} // verus!
