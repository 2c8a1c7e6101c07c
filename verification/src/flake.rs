//! A single falling snow particle: where it is, where it is in its sway, and
//! how wide it sways.

use vstd::prelude::*;
use crate::sine::{valid_samples, SineTable};
use crate::units::{
    cell, cell_of, held, hold, lemma_scaled_in_range, scale, scaled, HEIGHT, POSITION_MAX,
    POSITION_MIN, RESPAWN_HEIGHT_JITTER, SINE_TABLE_SIZE, SPIN_RADIUS_HIGH, SPIN_RADIUS_LOW,
    SPIN_SPEED, SUBPIXELS, TERMINAL_VELOCITY, WIDTH,
};

verus! {

/// The uniform draws that place a flake: one each for its column, its row,
/// its phase and its spin radius.
#[derive(Clone, Copy, Debug, PartialEq, Eq)]
pub struct SpawnDraws {
    pub x: u32,
    pub y: u32,
    pub seed: u32,
    pub radius: u32,
}

/// Mathematical model of a flake.
pub struct FlakeState {
    /// Horizontal position in sub-pixels.
    pub x: int,
    /// Vertical position in sub-pixels, growing downwards.
    pub y: int,
    /// Phase: an index into the sine table.
    pub seed: int,
    /// Sway amplitude in thousandths of a pixel.
    pub radius: int,
}

impl FlakeState {
    /// The phase indexes the sine table, the radius is at most the largest
    /// spin radius and the position fits an `i64`.
    pub open spec fn valid(self) -> bool {
        &&& i64::MIN <= self.x <= i64::MAX
        &&& i64::MIN <= self.y <= i64::MAX
        &&& 0 <= self.seed < SINE_TABLE_SIZE
        &&& 0 <= self.radius <= SPIN_RADIUS_HIGH
    }

    /// The position is within the range flakes are kept in.
    pub open spec fn in_range(self) -> bool {
        &&& POSITION_MIN <= self.x <= POSITION_MAX
        &&& POSITION_MIN <= self.y <= POSITION_MAX
    }

    /// A flake between frames: valid and within range, so that it can move
    /// by a pixel any way without leaving the `i64`.
    pub open spec fn wf(self) -> bool {
        self.valid() && self.in_range()
    }

    /// The column of the pixel the flake occupies.
    pub open spec fn cell_x(self) -> int {
        cell(self.x)
    }

    /// The row of the pixel the flake occupies.
    pub open spec fn cell_y(self) -> int {
        cell(self.y)
    }

    /// A flake at rest in the top-left corner.
    pub open spec fn origin() -> FlakeState {
        FlakeState { x: 0, y: 0, seed: 0, radius: 0 }
    }

    /// A flake placed by `draws`: anywhere on the configured buffer, at any
    /// phase, with a spin radius from the lowest up to the highest.
    pub open spec fn spawned(draws: SpawnDraws) -> FlakeState {
        FlakeState {
            x: scaled(draws.x, WIDTH * SUBPIXELS),
            y: scaled(draws.y, HEIGHT * SUBPIXELS),
            seed: scaled(draws.seed, SINE_TABLE_SIZE as int),
            radius: SPIN_RADIUS_LOW + scaled(draws.radius, SPIN_RADIUS_HIGH - SPIN_RADIUS_LOW),
        }
    }

    /// How far above the top edge a recycled flake enters: the jitter draw
    /// stretched to the respawn jitter, and at least one sub-pixel.
    pub open spec fn respawn_lift(jitter: u32) -> int {
        if scaled(jitter, RESPAWN_HEIGHT_JITTER as int) < 1 {
            1
        } else {
            scaled(jitter, RESPAWN_HEIGHT_JITTER as int)
        }
    }

    /// A recycled flake: placed by `draws`, then lifted above the top edge
    /// by less than the respawn jitter.
    pub open spec fn respawned(draws: SpawnDraws, jitter: u32) -> FlakeState {
        FlakeState { y: -Self::respawn_lift(jitter), ..Self::spawned(draws) }
    }

    /// The flake one frame of free fall later: it drops by the terminal
    /// velocity, its phase moves on, and it sways by the sine at the new
    /// phase times its radius.
    pub open spec fn animated(self, sine: Seq<i64>) -> FlakeState {
        let seed = (self.seed + SPIN_SPEED) % (SINE_TABLE_SIZE as int);
        FlakeState {
            x: self.x + sine[seed] * self.radius,
            y: self.y + TERMINAL_VELOCITY,
            seed,
            radius: self.radius,
        }
    }

    /// The flake moved sideways by `dx` sub-pixels.
    pub open spec fn shifted(self, dx: int) -> FlakeState {
        FlakeState { x: self.x + dx, ..self }
    }

    /// The flake with its position held to the range flakes are kept in.
    pub open spec fn held(self) -> FlakeState {
        FlakeState { x: held(self.x), y: held(self.y), ..self }
    }
}

/// A flake of the pool.
#[derive(Clone, Copy, Debug, PartialEq, Eq)]
pub struct Snowflake {
    x: i64,
    y: i64,
    seed: usize,
    radius: i64,
}

impl View for Snowflake {
    type V = FlakeState;

    closed spec fn view(&self) -> FlakeState {
        FlakeState {
            x: self.x as int,
            y: self.y as int,
            seed: self.seed as int,
            radius: self.radius as int,
        }
    }
}

impl Snowflake {
    /// Every flake of this module has a phase inside the sine table and a
    /// radius no larger than the largest spin radius.
    pub open spec fn valid(&self) -> bool {
        self@.valid()
    }

    /// The flake is valid and within the range flakes are kept in. Every
    /// function of this module but `animate` and `shift` leaves a flake so.
    pub open spec fn wf(&self) -> bool {
        self@.wf()
    }

    /// A flake at rest in the top-left corner.
    pub fn new() -> (flake: Snowflake)
        ensures
            flake.wf(),
            flake@ == FlakeState::origin(),
    {
        Snowflake { x: 0, y: 0, seed: 0, radius: 0 }
    }

    /// Places the flake anew from four uniform draws.
    pub fn randomize(&mut self, draws: &SpawnDraws)
        ensures
            final(self).wf(),
            final(self)@ == FlakeState::spawned(*draws),
            0 <= final(self)@.x < WIDTH * SUBPIXELS,
            0 <= final(self)@.y < HEIGHT * SUBPIXELS,
            0 <= final(self)@.seed < SINE_TABLE_SIZE,
            SPIN_RADIUS_LOW <= final(self)@.radius < SPIN_RADIUS_HIGH,
    {
        let span_x: u32 = (WIDTH as u32) * (SUBPIXELS as u32);
        let span_y: u32 = (HEIGHT as u32) * (SUBPIXELS as u32);
        let span_radius: u32 = (SPIN_RADIUS_HIGH - SPIN_RADIUS_LOW) as u32;
        self.x = scale(draws.x, span_x) as i64;
        self.y = scale(draws.y, span_y) as i64;
        self.seed = scale(draws.seed, SINE_TABLE_SIZE as u32) as usize;
        self.radius = SPIN_RADIUS_LOW + scale(draws.radius, span_radius) as i64;
    }

    /// Recycles the flake: places it anew, then lifts it above the top edge
    /// by a fifth draw, so that recycled flakes enter staggered. The lift is
    /// at least one sub-pixel: a recycled flake is never on the edge itself.
    pub fn respawn(&mut self, draws: &SpawnDraws, jitter: u32)
        ensures
            final(self).wf(),
            final(self)@ == FlakeState::respawned(*draws, jitter),
            -RESPAWN_HEIGHT_JITTER < final(self)@.y < 0,
            0 <= final(self)@.x < WIDTH * SUBPIXELS,
            0 <= final(self)@.cell_x() < WIDTH,
            final(self)@.cell_y() == 0,
    {
        self.randomize(draws);
        let lift = scale(jitter, RESPAWN_HEIGHT_JITTER as u32) as i64;
        self.y = if lift < 1 {
            -1
        } else {
            -lift
        };
    }

    /// Moves the flake by one frame of free fall: it drops by exactly the
    /// terminal velocity, its phase moves on by the spin speed, and it sways
    /// by exactly the sine at its new phase times its radius.
    ///
    /// The flake stays valid but may leave the range flakes are kept in by
    /// up to half a pixel; `hold_in_range` brings it back.
    pub fn animate(&mut self, sine_lookup: &SineTable)
        requires
            old(self).wf(),
            sine_lookup.wf(),
        ensures
            final(self).valid(),
            final(self)@ == old(self)@.animated(sine_lookup@),
            final(self)@.y == old(self)@.y + TERMINAL_VELOCITY,
            final(self)@.seed == (old(self)@.seed + SPIN_SPEED) % (SINE_TABLE_SIZE as int),
            final(self)@.x == old(self)@.x + sine_lookup@[final(self)@.seed] * old(self)@.radius,
            final(self)@.radius == old(self)@.radius,
    {
        proof {
            lemma_animate_moves(old(self)@, sine_lookup@);
        }
        self.y = self.y + TERMINAL_VELOCITY;
        self.seed = (self.seed + SPIN_SPEED) % SINE_TABLE_SIZE;
        let sine = sine_lookup.get(self.seed);
        let radius = self.radius;
        assert(-500_000 <= sine * radius <= 500_000) by (nonlinear_arith)
            requires
                -1000 <= sine <= 1000,
                0 <= radius <= 500,
        ;
        self.x = self.x + sine * radius;
    }

    /// Moves the flake sideways by `dx` sub-pixels, a pixel at most.
    ///
    /// The flake stays valid but may leave the range flakes are kept in by
    /// up to a pixel; `hold_in_range` brings it back.
    pub fn shift(&mut self, dx: i64)
        requires
            old(self).wf(),
            -SUBPIXELS <= dx <= SUBPIXELS,
        ensures
            final(self).valid(),
            final(self)@ == old(self)@.shifted(dx as int),
            final(self)@.x == old(self)@.x + dx,
    {
        self.x = self.x + dx;
    }

    /// Brings a flake that strayed past the end of the range flakes are
    /// kept in back to that end.
    pub fn hold_in_range(&mut self)
        requires
            old(self).valid(),
        ensures
            final(self).wf(),
            final(self)@ == old(self)@.held(),
            old(self).wf() ==> final(self)@ == old(self)@,
    {
        self.x = hold(self.x);
        self.y = hold(self.y);
    }

    /// Horizontal position in sub-pixels.
    pub fn x(&self) -> (x: i64)
        ensures
            x == self@.x,
    {
        self.x
    }

    /// Vertical position in sub-pixels.
    pub fn y(&self) -> (y: i64)
        ensures
            y == self@.y,
    {
        self.y
    }

    /// Phase: the flake's index into the sine table.
    pub fn seed(&self) -> (seed: usize)
        ensures
            seed == self@.seed,
    {
        self.seed
    }

    /// Sway amplitude in thousandths of a pixel.
    pub fn radius(&self) -> (radius: i64)
        ensures
            radius == self@.radius,
    {
        self.radius
    }

    /// The column of the pixel the flake occupies.
    pub fn cell_x(&self) -> (column: i64)
        ensures
            column == self@.cell_x(),
            0 <= column <= i64::MAX / SUBPIXELS,
    {
        cell_of(self.x)
    }

    /// The row of the pixel the flake occupies.
    pub fn cell_y(&self) -> (row: i64)
        ensures
            row == self@.cell_y(),
            0 <= row <= i64::MAX / SUBPIXELS,
    {
        cell_of(self.y)
    }
}

/// A freshly placed flake lies on the configured buffer, at a phase inside
/// the sine table, with a spin radius from the lowest up to the highest.
pub proof fn lemma_spawn_bounds(draws: SpawnDraws)
    ensures
        FlakeState::spawned(draws).wf(),
        0 <= FlakeState::spawned(draws).x < WIDTH * SUBPIXELS,
        0 <= FlakeState::spawned(draws).y < HEIGHT * SUBPIXELS,
        0 <= FlakeState::spawned(draws).cell_x() < WIDTH,
        0 <= FlakeState::spawned(draws).cell_y() < HEIGHT,
        0 <= FlakeState::spawned(draws).seed < SINE_TABLE_SIZE,
        SPIN_RADIUS_LOW <= FlakeState::spawned(draws).radius < SPIN_RADIUS_HIGH,
{
    lemma_scaled_in_range(draws.x, WIDTH * SUBPIXELS);
    lemma_scaled_in_range(draws.y, HEIGHT * SUBPIXELS);
    lemma_scaled_in_range(draws.seed, SINE_TABLE_SIZE as int);
    lemma_scaled_in_range(draws.radius, SPIN_RADIUS_HIGH - SPIN_RADIUS_LOW);
}

/// A recycled flake is strictly above the top edge, by less than the respawn
/// jitter, in a column of the configured buffer, whatever the draws.
pub proof fn lemma_respawn_bounds(draws: SpawnDraws, jitter: u32)
    ensures
        FlakeState::respawned(draws, jitter).wf(),
        -RESPAWN_HEIGHT_JITTER < FlakeState::respawned(draws, jitter).y < 0,
        0 <= FlakeState::respawned(draws, jitter).x < WIDTH * SUBPIXELS,
        0 <= FlakeState::respawned(draws, jitter).cell_x() < WIDTH,
        FlakeState::respawned(draws, jitter).cell_y() == 0,
{
    lemma_spawn_bounds(draws);
    lemma_scaled_in_range(jitter, RESPAWN_HEIGHT_JITTER as int);
}

/// Free fall drops a flake by exactly the terminal velocity and sways it by
/// exactly the sine at its new phase times its radius, which is at most half
/// a pixel. The flake stays valid, and holding it to the range keeps it
/// well-formed.
pub proof fn lemma_animate_moves(flake: FlakeState, sine: Seq<i64>)
    requires
        flake.wf(),
        valid_samples(sine),
    ensures
        flake.animated(sine).valid(),
        flake.animated(sine).held().wf(),
        flake.animated(sine).radius == flake.radius,
        flake.animated(sine).seed == (flake.seed + SPIN_SPEED) % (SINE_TABLE_SIZE as int),
        flake.animated(sine).y == flake.y + TERMINAL_VELOCITY,
        flake.animated(sine).x == flake.x + sine[flake.animated(sine).seed] * flake.radius,
        -SUBPIXELS <= 2 * (sine[flake.animated(sine).seed] * flake.radius) <= SUBPIXELS,
{
    let seed = (flake.seed + SPIN_SPEED) % (SINE_TABLE_SIZE as int);
    let s = sine[seed] as int;
    let r = flake.radius;
    assert(-500_000 <= s * r <= 500_000) by (nonlinear_arith)
        requires
            -1000 <= s <= 1000,
            0 <= r <= 500,
    ;
}

} // verus!
