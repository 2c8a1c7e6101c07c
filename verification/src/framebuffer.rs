//! A fixed-size, row-major grid of 32-bit pixels with bounds-checked access.
//!
//! A cell `(x, y)` lives at index `x + y * width` of the backing store and is
//! inside the buffer exactly when that index is smaller than
//! `width * height`. Coordinates are never clamped, and an index past the
//! end never wraps around to the start: it is out of bounds. A column at or
//! past `width` addresses a cell of a later row.

use vstd::prelude::*;
use crate::units::MAX_CELLS;

verus! {

/// Colour of a snow pixel: opaque white.
pub const COLOUR_FLAKE: u32 = 0xFFFF_FFFF;

/// Colour of an empty pixel: fully transparent.
pub const COLOUR_BACKGROUND: u32 = 0x0000_0000;

/// Bytes of memory one pixel takes.
pub const PIXEL_BYTES: usize = 4;

/// The one failure of the pixel accessors: the coordinate maps outside the
/// backing store.
#[derive(Clone, Copy, Debug, PartialEq, Eq)]
pub struct OutOfBounds;

/// Mathematical model of a pixel grid: its dimensions and its pixels in
/// row-major order, origin at the top left.
pub struct Grid {
    pub width: nat,
    pub height: nat,
    pub pixels: Seq<u32>,
}

impl Grid {
    /// The backing store holds exactly one pixel per cell, and the grid has
    /// no more cells than flakes can reach.
    pub open spec fn wf(self) -> bool {
        self.pixels.len() == self.width * self.height && self.pixels.len() <= MAX_CELLS
    }

    /// Position of cell `(x, y)` in the backing store.
    pub open spec fn index(self, x: int, y: int) -> int {
        x + y * self.width
    }

    /// A cell is inside the grid when neither coordinate is negative and its
    /// index falls inside the backing store.
    pub open spec fn in_bounds(self, x: int, y: int) -> bool {
        0 <= x && 0 <= y && self.index(x, y) < self.width * self.height
    }

    /// The colour at `(x, y)`, or `None` outside the grid.
    pub open spec fn get(self, x: int, y: int) -> Option<u32> {
        if self.in_bounds(x, y) {
            Some(self.pixels[self.index(x, y)])
        } else {
            None
        }
    }

    /// The grid with `(x, y)` recoloured; unchanged when the cell is outside.
    pub open spec fn set(self, x: int, y: int, value: u32) -> Grid {
        if self.in_bounds(x, y) {
            Grid { pixels: self.pixels.update(self.index(x, y), value), ..self }
        } else {
            self
        }
    }

    /// The grid with every pixel recoloured.
    pub open spec fn filled(self, value: u32) -> Grid {
        Grid { pixels: Seq::new(self.pixels.len(), |i: int| value), ..self }
    }

    /// The grid with its last `rows` rows recoloured (all of it when it has
    /// fewer rows than that).
    pub open spec fn with_bottom_rows(self, rows: int, value: u32) -> Grid {
        Grid {
            pixels: Seq::new(
                self.pixels.len(),
                |i: int|
                    if i >= self.pixels.len() - rows * self.width {
                        value
                    } else {
                        self.pixels[i]
                    },
            ),
            ..self
        }
    }

    /// Every snow pixel of `self` is still a snow pixel in `later`, and the
    /// dimensions agree: snow is only ever added.
    pub open spec fn snow_kept_by(self, later: Grid) -> bool {
        &&& later.width == self.width
        &&& later.height == self.height
        &&& later.pixels.len() == self.pixels.len()
        &&& forall|i: int|
            0 <= i < self.pixels.len() && self.pixels[i] == COLOUR_FLAKE
                ==> #[trigger] later.pixels[i] == COLOUR_FLAKE
    }
}

/// A pixel buffer of fixed dimensions.
pub struct Framebuffer {
    width: usize,
    height: usize,
    pixels: Vec<u32>,
}

impl View for Framebuffer {
    type V = Grid;

    closed spec fn view(&self) -> Grid {
        Grid { width: self.width as nat, height: self.height as nat, pixels: self.pixels@ }
    }
}

impl Framebuffer {
    /// Every buffer built by this module has one pixel per cell, and no more
    /// cells than flakes can reach.
    pub open spec fn wf(&self) -> bool {
        self@.wf()
    }

    /// A buffer of `width * height` background pixels, or `None` when that
    /// many pixels are more than one allocation can hold or more than
    /// `MAX_CELLS`.
    pub fn new(width: usize, height: usize) -> (result: Option<Framebuffer>)
        ensures
            result is Some <==> width * height * PIXEL_BYTES <= isize::MAX && width * height
                <= MAX_CELLS,
            result matches Some(fb) ==> fb.wf() && fb@.width == width && fb@.height == height
                && fb@.pixels == Seq::new((width * height) as nat, |i: int| COLOUR_BACKGROUND),
    {
        let len = match width.checked_mul(height) {
            Some(len) => len,
            None => {
                return None;
            },
        };
        if len > isize::MAX as usize / PIXEL_BYTES || len as u64 > MAX_CELLS {
            return None;
        }
        let pixels = vec![COLOUR_BACKGROUND; len];
        let fb = Framebuffer { width, height, pixels };
        assert(fb@.pixels =~= Seq::new((width * height) as nat, |i: int| COLOUR_BACKGROUND));
        Some(fb)
    }

    /// Number of columns.
    pub fn width(&self) -> (width: usize)
        ensures
            width == self@.width,
    {
        self.width
    }

    /// Number of rows.
    pub fn height(&self) -> (height: usize)
        ensures
            height == self@.height,
    {
        self.height
    }

    /// The backing store: `width * height` packed pixels, row-major, origin
    /// top-left, ready to be blitted.
    pub fn pixels(&self) -> (pixels: &Vec<u32>)
        ensures
            pixels@ == self@.pixels,
    {
        &self.pixels
    }

    /// Reads the pixel at `(x, y)`. Fails exactly when `x + y * width` lies
    /// outside the backing store.
    pub fn get(&self, x: usize, y: usize) -> (result: Result<u32, OutOfBounds>)
        requires
            self.wf(),
        ensures
            result == match self@.get(x as int, y as int) {
                Some(colour) => Ok::<u32, OutOfBounds>(colour),
                None => Err::<u32, OutOfBounds>(OutOfBounds),
            },
            x + y * self@.width >= self@.width * self@.height ==> result is Err,
    {
        match self.offset(x, y) {
            Some(index) => Ok(self.pixels[index]),
            None => Err(OutOfBounds),
        }
    }

    /// Writes the pixel at `(x, y)`. Fails, leaving the buffer untouched,
    /// exactly when `x + y * width` lies outside the backing store.
    pub fn set(&mut self, x: usize, y: usize, value: u32) -> (result: Result<(), OutOfBounds>)
        requires
            old(self).wf(),
        ensures
            final(self).wf(),
            result is Ok <==> old(self)@.in_bounds(x as int, y as int),
            final(self)@ == old(self)@.set(x as int, y as int, value),
            x + y * old(self)@.width >= old(self)@.width * old(self)@.height ==> result is Err
                && final(self)@ == old(self)@,
    {
        match self.offset(x, y) {
            Some(index) => {
                self.pixels.set(index, value);
                Ok(())
            },
            None => Err(OutOfBounds),
        }
    }

    /// Overwrites the whole backing store with that of `other`, which must
    /// have the same dimensions.
    pub fn copy_from(&mut self, other: &Framebuffer)
        requires
            old(self).wf(),
            other.wf(),
            old(self)@.width == other@.width,
            old(self)@.height == other@.height,
        ensures
            final(self).wf(),
            final(self)@ == other@,
    {
        let len = self.pixels.len();
        let mut i: usize = 0;
        while i < len
            invariant
                i <= len,
                len == self.pixels@.len(),
                len == other.pixels@.len(),
                self.width == old(self).width,
                self.height == old(self).height,
                forall|j: int| 0 <= j < i ==> self.pixels@[j] == other.pixels@[j],
            decreases len - i,
        {
            self.pixels.set(i, other.pixels[i]);
            i += 1;
        }
        assert(self.pixels@ =~= other.pixels@);
    }

    /// Recolours every pixel.
    pub fn fill(&mut self, value: u32)
        requires
            old(self).wf(),
        ensures
            final(self).wf(),
            final(self)@ == old(self)@.filled(value),
    {
        let len = self.pixels.len();
        let mut i: usize = 0;
        while i < len
            invariant
                i <= len,
                len == self.pixels@.len(),
                len == old(self).pixels@.len(),
                self.width == old(self).width,
                self.height == old(self).height,
                forall|j: int| 0 <= j < i ==> self.pixels@[j] == value,
            decreases len - i,
        {
            self.pixels.set(i, value);
            i += 1;
        }
        assert(self.pixels@ =~= old(self)@.filled(value).pixels);
    }

    /// Recolours the last `rows` rows, or the whole buffer when it has fewer
    /// rows than that.
    pub fn fill_bottom_rows(&mut self, rows: usize, value: u32)
        requires
            old(self).wf(),
        ensures
            final(self).wf(),
            final(self)@ == old(self)@.with_bottom_rows(rows as int, value),
    {
        let len = self.pixels.len();
        let start: usize = match rows.checked_mul(self.width) {
            Some(count) => if count < len {
                len - count
            } else {
                0
            },
            None => 0,
        };
        let mut i: usize = start;
        while i < len
            invariant
                start <= i <= len,
                len == self.pixels@.len(),
                len == old(self).pixels@.len(),
                self.width == old(self).width,
                self.height == old(self).height,
                forall|j: int| 0 <= j < start ==> self.pixels@[j] == old(self).pixels@[j],
                forall|j: int| start <= j < i ==> self.pixels@[j] == value,
            decreases len - i,
        {
            self.pixels.set(i, value);
            i += 1;
        }
        assert(self.pixels@ =~= old(self)@.with_bottom_rows(rows as int, value).pixels);
    }

    /// A buffer's backing store can be indexed by a `usize`.
    pub proof fn lemma_indexable(&self)
        ensures
            self@.pixels.len() <= usize::MAX,
    {
        assert(self.pixels.len() <= usize::MAX);
    }

    /// The backing-store index of `(x, y)` when the cell is inside the grid.
    fn offset(&self, x: usize, y: usize) -> (result: Option<usize>)
        requires
            self.wf(),
        ensures
            result is Some <==> self@.in_bounds(x as int, y as int),
            result matches Some(index) ==> index == self@.index(x as int, y as int),
    {
        let len = self.pixels.len();
        match y.checked_mul(self.width) {
            Some(row) => match row.checked_add(x) {
                Some(index) => if index < len {
                    Some(index)
                } else {
                    None
                },
                None => None,
            },
            None => None,
        }
    }
}

/// A cell whose index reaches past `width * height` is outside the grid for
/// every choice of dimensions: reading it yields nothing and writing it
/// changes nothing.
pub proof fn lemma_index_past_end_is_outside(grid: Grid, x: int, y: int, value: u32)
    requires
        x + y * grid.width >= grid.width * grid.height,
    ensures
        !grid.in_bounds(x, y),
        grid.get(x, y) is None,
        grid.set(x, y, value) == grid,
{
}

/// A write inside the grid is seen by the next read of the same cell and by
/// no other cell, and writing snow takes no snow away.
pub proof fn lemma_set_then_get(grid: Grid, x: int, y: int, value: u32)
    requires
        grid.wf(),
        grid.in_bounds(x, y),
    ensures
        grid.set(x, y, value).wf(),
        grid.set(x, y, value).get(x, y) == Some(value),
        forall|i: int|
            0 <= i < grid.pixels.len() && i != grid.index(x, y) ==> grid.set(x, y, value).pixels[i]
                == grid.pixels[i],
        grid.snow_kept_by(grid.set(x, y, COLOUR_FLAKE)),
{
    assert(0 <= y * grid.width) by (nonlinear_arith)
        requires
            0 <= y,
            0 <= grid.width,
    ;
}

} // verus!
