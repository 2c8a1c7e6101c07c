//! Collision with the snowbank and pile formation.
//!
//! Each frame a flake looks at the snowbank cell right below it. Over empty
//! space it keeps falling. Over snow it has landed: it slides one pixel
//! towards an empty cell beside the one below it, or, where both are taken,
//! becomes part of the snowbank and is recycled. The rule is greedy and
//! local, and it is the only way the snowbank grows.

use vstd::prelude::*;
use crate::flake::{lemma_respawn_bounds, FlakeState, Snowflake, SpawnDraws};
use crate::framebuffer::{Framebuffer, Grid, COLOUR_BACKGROUND, COLOUR_FLAKE};
use crate::units::{DRAW_RANGE, POSITION_MAX, RESPAWN_HEIGHT_JITTER, SUBPIXELS, WIDTH};

verus! {

/// The uniform draws one flake may use up in one frame: a coin for the side
/// it prefers to slide to, and five draws for when it is recycled.
#[derive(Clone, Copy, Debug, PartialEq, Eq)]
pub struct StepDraws {
    pub coin: u32,
    pub spawn: SpawnDraws,
    pub jitter: u32,
}

/// What the snowbank below a flake makes of it.
#[derive(Clone, Copy, Debug, PartialEq, Eq)]
pub enum Landing {
    /// Nothing solid below: the flake keeps falling.
    Airborne,
    /// Landed, and the flake slides one pixel to the left.
    SlideLeft,
    /// Landed, and the flake slides one pixel to the right.
    SlideRight,
    /// Landed on a local peak: the flake becomes part of the snowbank.
    Settle,
}

/// A fair coin: the lower half of the draws prefers the left side.
pub open spec fn left_first(coin: u32) -> bool {
    coin * 2 < DRAW_RANGE
}

/// A cell a flake can slide into: inside the grid and empty. Cells outside
/// the grid count as solid.
pub open spec fn is_open(bank: Grid, x: int, y: int) -> bool {
    bank.get(x, y) == Some(COLOUR_BACKGROUND)
}

/// The decision for a flake in cell `(x, y)`.
///
/// The flake has landed when the cell below it is inside the grid and holds
/// snow. A landed flake slides to the side the coin prefers if the cell
/// beside the one below is open there, else to the other side if it is open
/// there, and settles when neither is.
pub open spec fn landing(bank: Grid, x: int, y: int, coin: u32) -> Landing {
    if bank.get(x, y + 1) != Some(COLOUR_FLAKE) {
        Landing::Airborne
    } else {
        let left = is_open(bank, x - 1, y + 1);
        let right = is_open(bank, x + 1, y + 1);
        if left && (left_first(coin) || !right) {
            Landing::SlideLeft
        } else if right {
            Landing::SlideRight
        } else {
            Landing::Settle
        }
    }
}

/// The flake, the snowbank and the airborne flag after balancing.
pub open spec fn balanced(flake: FlakeState, bank: Grid, draws: StepDraws) -> (
    FlakeState,
    Grid,
    bool,
) {
    match landing(bank, flake.cell_x(), flake.cell_y(), draws.coin) {
        Landing::Airborne => (flake, bank, true),
        Landing::SlideLeft => (flake.shifted(-SUBPIXELS), bank, false),
        Landing::SlideRight => (flake.shifted(SUBPIXELS as int), bank, false),
        Landing::Settle => (
            FlakeState::respawned(draws.spawn, draws.jitter),
            bank.set(flake.cell_x(), flake.cell_y(), COLOUR_FLAKE),
            false,
        ),
    }
}

/// The colour of cell `(x, y)`, or `None` outside the buffer.
pub(crate) fn colour_at(buffer: &Framebuffer, x: i128, y: i128) -> (colour: Option<u32>)
    requires
        buffer.wf(),
    ensures
        colour == buffer@.get(x as int, y as int),
{
    if x < 0 || y < 0 {
        return None;
    }
    if x > usize::MAX as i128 || y > usize::MAX as i128 {
        proof {
            buffer.lemma_indexable();
            lemma_beyond_usize_is_outside(buffer@, x as int, y as int);
        }
        return None;
    }
    match buffer.get(x as usize, y as usize) {
        Ok(colour) => Some(colour),
        Err(_) => None,
    }
}

/// Colours cell `(x, y)` and reports whether it is inside the buffer.
pub(crate) fn paint(buffer: &mut Framebuffer, x: i128, y: i128, colour: u32) -> (inside: bool)
    requires
        old(buffer).wf(),
    ensures
        final(buffer).wf(),
        inside == old(buffer)@.in_bounds(x as int, y as int),
        final(buffer)@ == old(buffer)@.set(x as int, y as int, colour),
{
    if x < 0 || y < 0 {
        return false;
    }
    if x > usize::MAX as i128 || y > usize::MAX as i128 {
        proof {
            buffer.lemma_indexable();
            lemma_beyond_usize_is_outside(buffer@, x as int, y as int);
        }
        return false;
    }
    buffer.set(x as usize, y as usize, colour).is_ok()
}

/// No cell with a coordinate beyond `usize` is inside a grid whose backing
/// store can be held in memory.
proof fn lemma_beyond_usize_is_outside(grid: Grid, x: int, y: int)
    requires
        grid.wf(),
        grid.pixels.len() <= usize::MAX,
        0 <= x,
        0 <= y,
        x > usize::MAX || y > usize::MAX,
    ensures
        !grid.in_bounds(x, y),
{
    let w = grid.width as int;
    assert(0 <= y * w) by (nonlinear_arith)
        requires
            0 <= y,
            0 <= w,
    ;
    if y > usize::MAX && w >= 1 {
        assert(y * w >= y) by (nonlinear_arith)
            requires
                0 <= y,
                w >= 1,
        ;
    }
    if w == 0 {
        assert(grid.width * grid.height == 0) by (nonlinear_arith)
            requires
                grid.width == 0,
        ;
    }
}

/// Decides what the snowbank makes of a flake in cell `(x, y)`.
pub fn probe_landing(snowbank: &Framebuffer, x: i64, y: i64, coin: u32) -> (decision: Landing)
    requires
        snowbank.wf(),
    ensures
        decision == landing(snowbank@, x as int, y as int, coin),
{
    let column = x as i128;
    let row_below = y as i128 + 1;
    let below = colour_at(snowbank, column, row_below);
    if below != Some(COLOUR_FLAKE) {
        return Landing::Airborne;
    }
    let left = colour_at(snowbank, column - 1, row_below) == Some(COLOUR_BACKGROUND);
    let right = colour_at(snowbank, column + 1, row_below) == Some(COLOUR_BACKGROUND);
    let left_first = coin < 0x8000_0000;
    if left && (left_first || !right) {
        Landing::SlideLeft
    } else if right {
        Landing::SlideRight
    } else {
        Landing::Settle
    }
}

/// Checks whether there is snow below the flake and, if there is, slides the
/// flake aside or adds it to the snowbank and recycles it.
///
/// Returns `true` when the flake is airborne and is to be animated this
/// frame. A flake that slid, or that settled and was recycled, is not.
pub fn balance_bottom(
    flake: &mut Snowflake,
    snowbank: &mut Framebuffer,
    draws: &StepDraws,
) -> (airborne: bool)
    requires
        old(flake).wf(),
        old(snowbank).wf(),
    ensures
        final(flake).wf(),
        final(snowbank).wf(),
        (final(flake)@, final(snowbank)@, airborne) == balanced(
            old(flake)@,
            old(snowbank)@,
            *draws,
        ),
        old(snowbank)@.snow_kept_by(final(snowbank)@),
        airborne ==> final(flake)@ == old(flake)@ && final(snowbank)@ == old(snowbank)@,
        landing(old(snowbank)@, old(flake)@.cell_x(), old(flake)@.cell_y(), draws.coin)
            is SlideLeft ==> {
            &&& !airborne
            &&& final(snowbank)@ == old(snowbank)@
            &&& final(flake)@.x == old(flake)@.x - SUBPIXELS
            &&& final(flake)@.y == old(flake)@.y
            &&& final(flake)@.seed == old(flake)@.seed
            &&& final(flake)@.radius == old(flake)@.radius
        },
        landing(old(snowbank)@, old(flake)@.cell_x(), old(flake)@.cell_y(), draws.coin)
            is SlideRight ==> {
            &&& !airborne
            &&& final(snowbank)@ == old(snowbank)@
            &&& final(flake)@.x == old(flake)@.x + SUBPIXELS
            &&& final(flake)@.y == old(flake)@.y
            &&& final(flake)@.seed == old(flake)@.seed
            &&& final(flake)@.radius == old(flake)@.radius
        },
        old(snowbank)@.get(old(flake)@.cell_x(), old(flake)@.cell_y() + 1) == Some(COLOUR_FLAKE)
            && is_open(old(snowbank)@, old(flake)@.cell_x() - 1, old(flake)@.cell_y() + 1)
            && is_open(old(snowbank)@, old(flake)@.cell_x() + 1, old(flake)@.cell_y() + 1)
            ==> landing(
            old(snowbank)@,
            old(flake)@.cell_x(),
            old(flake)@.cell_y(),
            draws.coin,
        ) == if draws.coin < 0x8000_0000 {
            Landing::SlideLeft
        } else {
            Landing::SlideRight
        },
        landing(old(snowbank)@, old(flake)@.cell_x(), old(flake)@.cell_y(), draws.coin)
            is Settle ==> {
            &&& final(snowbank)@.get(old(flake)@.cell_x(), old(flake)@.cell_y()) == Some(
                COLOUR_FLAKE,
            )
            &&& -RESPAWN_HEIGHT_JITTER < final(flake)@.y < 0
            &&& 0 <= final(flake)@.x < WIDTH * SUBPIXELS
        },
{
    proof {
        lemma_balance_keeps_snow(old(flake)@, old(snowbank)@, *draws);
        lemma_slide_stays_in_range(old(flake)@, old(snowbank)@);
    }
    let x = flake.cell_x();
    let y = flake.cell_y();
    match probe_landing(snowbank, x, y, draws.coin) {
        Landing::Airborne => true,
        Landing::SlideLeft => {
            flake.shift(-SUBPIXELS);
            false
        },
        Landing::SlideRight => {
            flake.shift(SUBPIXELS);
            false
        },
        Landing::Settle => {
            proof {
                lemma_landed_cell_is_inside(snowbank@, x as int, y as int);
            }
            let _ = paint(snowbank, x as i128, y as i128, COLOUR_FLAKE);
            flake.respawn(&draws.spawn, draws.jitter);
            false
        },
    }
}

/// A cell above one that is inside the grid is inside the grid.
pub proof fn lemma_landed_cell_is_inside(grid: Grid, x: int, y: int)
    requires
        0 <= x,
        0 <= y,
        grid.in_bounds(x, y + 1),
    ensures
        grid.in_bounds(x, y),
{
    assert((y + 1) * grid.width == y * grid.width + grid.width) by (nonlinear_arith);
}

/// Balancing keeps a well-formed flake and snowbank well-formed and never
/// takes snow away: every snow pixel of the snowbank is still one afterwards.
/// A flake that settles turns its own pixel into snow and is recycled to
/// above the top edge.
pub proof fn lemma_balance_keeps_snow(flake: FlakeState, bank: Grid, draws: StepDraws)
    requires
        flake.wf(),
        bank.wf(),
    ensures
        balanced(flake, bank, draws).0.wf(),
        balanced(flake, bank, draws).1.wf(),
        bank.snow_kept_by(balanced(flake, bank, draws).1),
        landing(bank, flake.cell_x(), flake.cell_y(), draws.coin) is Settle ==> {
            &&& balanced(flake, bank, draws).1.get(flake.cell_x(), flake.cell_y()) == Some(
                COLOUR_FLAKE,
            )
            &&& -RESPAWN_HEIGHT_JITTER < balanced(flake, bank, draws).0.y < 0
            &&& 0 <= balanced(flake, bank, draws).0.x < WIDTH * SUBPIXELS
        },
{
    lemma_respawn_bounds(draws.spawn, draws.jitter);
    lemma_slide_stays_in_range(flake, bank);
    if landing(bank, flake.cell_x(), flake.cell_y(), draws.coin) is Settle {
        lemma_landed_cell_is_inside(bank, flake.cell_x(), flake.cell_y());
    }
}

/// A flake right above snow, with both cells beside that snow empty, slides
/// exactly one pixel sideways: to the left for the lower half of the coin
/// draws, to the right for the upper half. It never stays, never changes
/// row, and the snowbank is left as it is.
pub proof fn lemma_balance_slides_one_pixel(flake: FlakeState, bank: Grid, draws: StepDraws)
    requires
        flake.wf(),
        bank.wf(),
        bank.get(flake.cell_x(), flake.cell_y() + 1) == Some(COLOUR_FLAKE),
        bank.get(flake.cell_x() - 1, flake.cell_y() + 1) == Some(COLOUR_BACKGROUND),
        bank.get(flake.cell_x() + 1, flake.cell_y() + 1) == Some(COLOUR_BACKGROUND),
    ensures
        left_first(draws.coin) <==> draws.coin < 0x8000_0000,
        balanced(flake, bank, draws).2 == false,
        balanced(flake, bank, draws).1 == bank,
        balanced(flake, bank, draws).0.y == flake.y,
        balanced(flake, bank, draws).0.seed == flake.seed,
        balanced(flake, bank, draws).0.radius == flake.radius,
        balanced(flake, bank, draws).0.x == if left_first(draws.coin) {
            flake.x - SUBPIXELS
        } else {
            flake.x + SUBPIXELS
        },
        balanced(flake, bank, draws).0.cell_x() == if left_first(draws.coin) {
            flake.cell_x() - 1
        } else {
            flake.cell_x() + 1
        },
{
    lemma_slide_stays_in_range(flake, bank);
}

/// A flake with a cell inside the grid to its lower right is at least a
/// pixel short of the end of the range flakes are kept in; one with such a
/// cell to its lower left is at least a pixel from the left edge.
pub proof fn lemma_slide_stays_in_range(flake: FlakeState, bank: Grid)
    requires
        flake.wf(),
        bank.wf(),
    ensures
        bank.in_bounds(flake.cell_x() + 1, flake.cell_y() + 1) ==> flake.x + SUBPIXELS
            <= POSITION_MAX,
        bank.in_bounds(flake.cell_x() - 1, flake.cell_y() + 1) ==> flake.x - SUBPIXELS >= 0,
{
    let row = flake.cell_y() + 1;
    assert(0 <= row * bank.width) by (nonlinear_arith)
        requires
            0 <= row,
            0 <= bank.width,
    ;
}

/// Both coordinates of a cell inside a grid are smaller than the number of
/// its cells.
pub proof fn lemma_inside_cell_is_small(grid: Grid, x: int, y: int)
    requires
        grid.wf(),
        grid.in_bounds(x, y),
    ensures
        x < grid.pixels.len(),
        y < grid.pixels.len(),
{
    let w = grid.width as int;
    assert(0 <= y * w) by (nonlinear_arith)
        requires
            0 <= y,
            0 <= w,
    ;
    if w >= 1 {
        assert(y * w >= y) by (nonlinear_arith)
            requires
                0 <= y,
                w >= 1,
        ;
    } else {
        assert(grid.width * grid.height == 0) by (nonlinear_arith)
            requires
                grid.width == 0,
        ;
    }
}

} // verus!
