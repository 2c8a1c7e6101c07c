//! The simulation: the settled snow, the flake pool and the sine table, and
//! the two entry points a host calls, once to set up and once per frame.
//!
//! A frame first copies the snowbank into the output buffer, which erases
//! the flakes of the frame before and keeps the settled snow, and then takes
//! every flake through balancing, free fall and drawing.
//!
//! A host that has all the draws of a frame at hand renders it with
//! `render`. A host that draws on demand clears the picture and takes the
//! flakes through the frame one by one, asking before each which draws its
//! share will read.

use vstd::prelude::*;
use crate::balance::{
    balance_bottom, balanced, colour_at, landing, lemma_balance_keeps_snow,
    lemma_inside_cell_is_small, paint, probe_landing, Landing, StepDraws,
};
use crate::flake::{
    lemma_animate_moves, lemma_respawn_bounds, lemma_spawn_bounds, FlakeState, Snowflake,
    SpawnDraws,
};
use crate::framebuffer::{Framebuffer, Grid, COLOUR_BACKGROUND, COLOUR_FLAKE};
use crate::sine::{valid_samples, SineTable};
use crate::units::{
    FLAKE_COUNT, HEIGHT, POSITION_MIN, RESPAWN_HEIGHT_JITTER, SINE_TABLE_SIZE, SUBPIXELS, WIDTH,
};

verus! {

/// Mathematical model of the simulation state.
pub struct World {
    pub flakes: Seq<FlakeState>,
    pub snowbank: Grid,
    pub sine: Seq<i64>,
}

/// Mathematical model of what a frame works on: the flakes, the settled snow
/// and the output picture.
pub struct Scene {
    pub flakes: Seq<FlakeState>,
    pub snowbank: Grid,
    pub image: Grid,
}

/// Rows of snow the snowbank starts with.
pub const BASE_ROWS: usize = 2;

/// The snowbank before any flake has settled: empty but for a flat base of
/// solid rows at the bottom.
pub open spec fn base_snowbank() -> Grid {
    Grid {
        width: WIDTH as nat,
        height: HEIGHT as nat,
        pixels: Seq::new(
            (WIDTH * HEIGHT) as nat,
            |i: int|
                if i >= (HEIGHT - BASE_ROWS) * WIDTH {
                    COLOUR_FLAKE
                } else {
                    COLOUR_BACKGROUND
                },
        ),
    }
}

impl World {
    /// The snowbank has the configured dimensions, the pool holds exactly
    /// `FLAKE_COUNT` well-formed flakes and the sine table is complete.
    pub open spec fn wf(self) -> bool {
        &&& self.snowbank.wf()
        &&& self.snowbank.width == WIDTH
        &&& self.snowbank.height == HEIGHT
        &&& self.flakes.len() == FLAKE_COUNT
        &&& forall|i: int| 0 <= i < self.flakes.len() ==> (#[trigger] self.flakes[i]).wf()
        &&& valid_samples(self.sine)
    }

    /// The state before set-up: an empty snowbank, every flake at rest in
    /// the top-left corner, a sine table of zeros.
    pub open spec fn blank() -> World {
        World {
            flakes: Seq::new(FLAKE_COUNT as nat, |i: int| FlakeState::origin()),
            snowbank: Grid {
                width: WIDTH as nat,
                height: HEIGHT as nat,
                pixels: Seq::new((WIDTH * HEIGHT) as nat, |i: int| COLOUR_BACKGROUND),
            },
            sine: Seq::new(SINE_TABLE_SIZE as nat, |i: int| 0i64),
        }
    }

    /// The state after set-up: the base snowbank, flake `i` placed by
    /// `spawns[i]`, and the given sine samples.
    pub open spec fn initial(spawns: Seq<SpawnDraws>, samples: Seq<i64>) -> World {
        World {
            flakes: Seq::new(FLAKE_COUNT as nat, |i: int| FlakeState::spawned(spawns[i])),
            snowbank: base_snowbank(),
            sine: samples,
        }
    }

    /// The scene a frame starts from: the output picture is a copy of the
    /// snowbank.
    pub open spec fn cleared(self) -> Scene {
        Scene { flakes: self.flakes, snowbank: self.snowbank, image: self.snowbank }
    }

    /// The scene made of this state and an output picture.
    pub open spec fn with_image(self, image: Grid) -> Scene {
        Scene { flakes: self.flakes, snowbank: self.snowbank, image }
    }

    /// The state one frame later, flake `i` having used `draws[i]`.
    pub open spec fn after_frame(self, draws: Seq<StepDraws>) -> World {
        let scene = frame(self.cleared(), self.sine, draws, FLAKE_COUNT as nat);
        World { flakes: scene.flakes, snowbank: scene.snowbank, sine: self.sine }
    }

    /// The state `count` frames later, frame `k` having used `draws[k]`.
    pub open spec fn after_frames(self, draws: Seq<Seq<StepDraws>>, count: nat) -> World
        decreases count,
    {
        if count == 0 {
            self
        } else {
            self.after_frames(draws, (count - 1) as nat).after_frame(draws[count - 1])
        }
    }
}

impl Scene {
    /// Both grids are well-formed and so is every flake.
    pub open spec fn wf(self) -> bool {
        &&& self.snowbank.wf()
        &&& self.image.wf()
        &&& forall|i: int| 0 <= i < self.flakes.len() ==> (#[trigger] self.flakes[i]).wf()
    }
}

/// One flake's share of a frame.
///
/// The flake is balanced against the snowbank and, if airborne, animated.
/// Then it is drawn into the picture; a flake whose pixel is outside the
/// picture is recycled instead. A drawn flake that swayed past the end of
/// the range flakes are kept in is held at that end.
pub open spec fn stepped(
    flake: FlakeState,
    snowbank: Grid,
    image: Grid,
    sine: Seq<i64>,
    draws: StepDraws,
) -> (FlakeState, Grid, Grid) {
    let (landed, snowbank_after, airborne) = balanced(flake, snowbank, draws);
    let moved = if airborne {
        landed.animated(sine)
    } else {
        landed
    };
    if image.in_bounds(moved.cell_x(), moved.cell_y()) {
        (moved.held(), snowbank_after, image.set(moved.cell_x(), moved.cell_y(), COLOUR_FLAKE))
    } else {
        (FlakeState::respawned(draws.spawn, draws.jitter), snowbank_after, image)
    }
}

/// Whether a flake's share of a frame reads the coin: it does once the flake
/// has landed.
pub open spec fn uses_coin(flake: FlakeState, snowbank: Grid) -> bool {
    snowbank.get(flake.cell_x(), flake.cell_y() + 1) == Some(COLOUR_FLAKE)
}

/// Whether a flake's share of a frame reads the draws for recycling: it does
/// when the flake settles, and when the pixel it moves to is outside the
/// picture.
pub open spec fn uses_respawn(
    flake: FlakeState,
    snowbank: Grid,
    image: Grid,
    sine: Seq<i64>,
    coin: u32,
) -> bool {
    match landing(snowbank, flake.cell_x(), flake.cell_y(), coin) {
        Landing::Settle => true,
        Landing::Airborne => !image.in_bounds(
            flake.animated(sine).cell_x(),
            flake.animated(sine).cell_y(),
        ),
        Landing::SlideLeft => !image.in_bounds(flake.shifted(-SUBPIXELS).cell_x(), flake.cell_y()),
        Landing::SlideRight => !image.in_bounds(
            flake.shifted(SUBPIXELS as int).cell_x(),
            flake.cell_y(),
        ),
    }
}

/// The scene after the first `count` flakes had their share of the frame,
/// flake `i` with `draws[i]`.
pub open spec fn frame(scene: Scene, sine: Seq<i64>, draws: Seq<StepDraws>, count: nat) -> Scene
    decreases count,
{
    if count == 0 {
        scene
    } else {
        let before = frame(scene, sine, draws, (count - 1) as nat);
        let i = count - 1;
        let (flake, snowbank, image) = stepped(
            before.flakes[i],
            before.snowbank,
            before.image,
            sine,
            draws[i],
        );
        Scene { flakes: before.flakes.update(i, flake), snowbank, image }
    }
}

/// Takes one flake through its share of a frame.
pub fn step_flake(
    flake: &mut Snowflake,
    snowbank: &mut Framebuffer,
    image: &mut Framebuffer,
    sine_lookup: &SineTable,
    draws: &StepDraws,
)
    requires
        old(flake).wf(),
        old(snowbank).wf(),
        old(image).wf(),
        sine_lookup.wf(),
    ensures
        final(flake).wf(),
        final(snowbank).wf(),
        final(image).wf(),
        (final(flake)@, final(snowbank)@, final(image)@) == stepped(
            old(flake)@,
            old(snowbank)@,
            old(image)@,
            sine_lookup@,
            *draws,
        ),
        old(snowbank)@.snow_kept_by(final(snowbank)@),
        old(image)@.snow_kept_by(final(image)@),
        final(image)@.get(final(flake)@.cell_x(), final(flake)@.cell_y()) == Some(COLOUR_FLAKE)
            || final(flake)@ == FlakeState::respawned(draws.spawn, draws.jitter),
        final(flake)@ == FlakeState::respawned(draws.spawn, draws.jitter) ==> {
            &&& -RESPAWN_HEIGHT_JITTER < final(flake)@.y < 0
            &&& 0 <= final(flake)@.x < WIDTH * SUBPIXELS
        },
{
    proof {
        lemma_step_keeps_snow(old(flake)@, old(snowbank)@, old(image)@, sine_lookup@, *draws);
    }
    if balance_bottom(flake, snowbank, draws) {
        flake.animate(sine_lookup);
    }
    let drawn = paint(image, flake.cell_x() as i128, flake.cell_y() as i128, COLOUR_FLAKE);
    if drawn {
        flake.hold_in_range();
    } else {
        flake.respawn(&draws.spawn, draws.jitter);
    }
}

/// The simulation state a host keeps between frames.
pub struct LocalData {
    snowbank: Framebuffer,
    snowflakes: Vec<Snowflake>,
    sine_table: SineTable,
}

impl View for LocalData {
    type V = World;

    closed spec fn view(&self) -> World {
        World {
            flakes: self.snowflakes@.map_values(|flake: Snowflake| flake@),
            snowbank: self.snowbank@,
            sine: self.sine_table@,
        }
    }
}

impl LocalData {
    /// The state is well-formed; see [`World::wf`].
    pub open spec fn wf(&self) -> bool {
        self@.wf()
    }

    /// The state before set-up.
    pub fn new() -> (data: LocalData)
        ensures
            data.wf(),
            data@ == World::blank(),
    {
        let snowbank = Framebuffer::new(WIDTH, HEIGHT).unwrap();
        let mut snowflakes: Vec<Snowflake> = Vec::new();
        let mut i: usize = 0;
        while i < FLAKE_COUNT
            invariant
                i <= FLAKE_COUNT,
                snowflakes@.len() == i,
                forall|j: int| 0 <= j < i ==> (#[trigger] snowflakes@[j])@ == FlakeState::origin(),
            decreases FLAKE_COUNT - i,
        {
            snowflakes.push(Snowflake::new());
            i += 1;
        }
        let data = LocalData { snowbank, snowflakes, sine_table: SineTable::new() };
        assert(data@.flakes =~= World::blank().flakes);
        data
    }

    /// The settled snow.
    pub fn snowbank(&self) -> (snowbank: &Framebuffer)
        ensures
            snowbank@ == self@.snowbank,
    {
        &self.snowbank
    }

    /// The flake pool.
    pub fn snowflakes(&self) -> (snowflakes: &Vec<Snowflake>)
        ensures
            snowflakes@.len() == self@.flakes.len(),
            forall|i: int|
                0 <= i < snowflakes@.len() ==> (#[trigger] snowflakes@[i])@ == self@.flakes[i],
    {
        &self.snowflakes
    }

    /// The sine lookup table.
    pub fn sine_table(&self) -> (sine_table: &SineTable)
        ensures
            sine_table@ == self@.sine,
    {
        &self.sine_table
    }

    /// Lays the flat base of snow: the bottom rows of the snowbank become
    /// snow, every other pixel stays as it is.
    pub fn fill_snowbank(&mut self)
        requires
            old(self).wf(),
        ensures
            final(self).wf(),
            final(self)@.snowbank == old(self)@.snowbank.with_bottom_rows(
                BASE_ROWS as int,
                COLOUR_FLAKE,
            ),
            old(self)@.snowbank.snow_kept_by(final(self)@.snowbank),
            final(self)@.flakes == old(self)@.flakes,
            final(self)@.sine == old(self)@.sine,
    {
        self.snowbank.fill_bottom_rows(BASE_ROWS, COLOUR_FLAKE);
    }

    /// Places every flake anew, flake `i` from `spawns[i]`.
    pub fn randomize_snowflakes(&mut self, spawns: &Vec<SpawnDraws>)
        requires
            old(self).wf(),
            spawns@.len() == FLAKE_COUNT,
        ensures
            final(self).wf(),
            final(self)@.flakes == World::initial(spawns@, old(self)@.sine).flakes,
            final(self)@.snowbank == old(self)@.snowbank,
            final(self)@.sine == old(self)@.sine,
    {
        assert forall|j: int| 0 <= j < self.snowflakes@.len() implies self.snowflakes@[j].wf() by {
            assert(self@.flakes[j].wf());
        }
        let mut i: usize = 0;
        while i < FLAKE_COUNT
            invariant
                i <= FLAKE_COUNT,
                spawns@.len() == FLAKE_COUNT,
                self.snowflakes@.len() == FLAKE_COUNT,
                self.snowbank == old(self).snowbank,
                self.sine_table == old(self).sine_table,
                forall|j: int|
                    0 <= j < self.snowflakes@.len() ==> (#[trigger] self.snowflakes@[j]).wf(),
                forall|j: int|
                    0 <= j < i ==> (#[trigger] self.snowflakes@[j])@ == FlakeState::spawned(
                        spawns@[j],
                    ),
            decreases FLAKE_COUNT - i,
        {
            let mut flake = self.snowflakes[i];
            flake.randomize(&spawns[i]);
            self.snowflakes.set(i, flake);
            i += 1;
        }
        assert(self@.flakes =~= World::initial(spawns@, old(self)@.sine).flakes);
    }

    /// Installs the sine samples, entry `i` being the sine of `i / 100`
    /// radians in thousandths. Leaves the table as it is, and returns
    /// `false`, unless the samples are a full set of values within `[-1, 1]`.
    pub fn calculate_sine_table(&mut self, samples: &Vec<i64>) -> (installed: bool)
        requires
            old(self).wf(),
        ensures
            final(self).wf(),
            installed == valid_samples(samples@),
            final(self)@.sine == if installed {
                samples@
            } else {
                old(self)@.sine
            },
            final(self)@.flakes == old(self)@.flakes,
            final(self)@.snowbank == old(self)@.snowbank,
    {
        match SineTable::from_samples(samples) {
            Some(table) => {
                self.sine_table = table;
                true
            },
            None => false,
        }
    }

    /// Starts a frame: copies the snowbank into the output picture, which
    /// erases the flakes drawn before and keeps the settled snow.
    pub fn clear_snowflakes(&self, image_buffer: &mut Framebuffer)
        requires
            self.wf(),
            old(image_buffer).wf(),
            old(image_buffer)@.width == WIDTH,
            old(image_buffer)@.height == HEIGHT,
        ensures
            final(image_buffer).wf(),
            final(image_buffer)@ == self@.snowbank,
    {
        image_buffer.copy_from(&self.snowbank);
    }

    /// Whether the share of flake `index` in the frame will read the coin.
    /// A host that draws on demand draws the coin only then.
    pub fn flake_uses_coin(&self, index: usize) -> (used: bool)
        requires
            self.wf(),
            index < FLAKE_COUNT,
        ensures
            used == uses_coin(self@.flakes[index as int], self@.snowbank),
    {
        let flake = self.snowflakes[index];
        let below = colour_at(&self.snowbank, flake.cell_x() as i128, flake.cell_y() as i128 + 1);
        below == Some(COLOUR_FLAKE)
    }

    /// Whether the share of flake `index` in the frame will, with this coin,
    /// read the draws for recycling. A host that draws on demand draws them
    /// only then.
    pub fn flake_uses_respawn(
        &self,
        index: usize,
        image_buffer: &Framebuffer,
        coin: u32,
    ) -> (used: bool)
        requires
            self.wf(),
            image_buffer.wf(),
            index < FLAKE_COUNT,
        ensures
            used == uses_respawn(
                self@.flakes[index as int],
                self@.snowbank,
                image_buffer@,
                self@.sine,
                coin,
            ),
    {
        assert(self@.flakes[index as int].wf());
        let mut moved = self.snowflakes[index];
        match probe_landing(&self.snowbank, moved.cell_x(), moved.cell_y(), coin) {
            Landing::Settle => {
                return true;
            },
            Landing::Airborne => {
                moved.animate(&self.sine_table);
            },
            Landing::SlideLeft => {
                moved.shift(-SUBPIXELS);
            },
            Landing::SlideRight => {
                moved.shift(SUBPIXELS);
            },
        }
        colour_at(image_buffer, moved.cell_x() as i128, moved.cell_y() as i128).is_none()
    }

    /// Takes flake `index` through its share of the frame and draws it into
    /// the output picture.
    pub fn draw_snowflake(
        &mut self,
        index: usize,
        image_buffer: &mut Framebuffer,
        draws: &StepDraws,
    )
        requires
            old(self).wf(),
            old(image_buffer).wf(),
            index < FLAKE_COUNT,
        ensures
            final(self).wf(),
            final(image_buffer).wf(),
            (
                final(self)@.flakes[index as int],
                final(self)@.snowbank,
                final(image_buffer)@,
            ) == stepped(
                old(self)@.flakes[index as int],
                old(self)@.snowbank,
                old(image_buffer)@,
                old(self)@.sine,
                *draws,
            ),
            final(self)@.flakes == old(self)@.flakes.update(
                index as int,
                final(self)@.flakes[index as int],
            ),
            final(self)@.sine == old(self)@.sine,
            old(self)@.snowbank.snow_kept_by(final(self)@.snowbank),
            old(image_buffer)@.snow_kept_by(final(image_buffer)@),
    {
        assert(self@.flakes[index as int].wf());
        let ghost before = self@.flakes;
        let mut flake = self.snowflakes[index];
        step_flake(&mut flake, &mut self.snowbank, image_buffer, &self.sine_table, draws);
        self.snowflakes.set(index, flake);
        assert(self@.flakes =~= before.update(index as int, flake@));
    }

    /// Takes every flake through its share of the frame, flake `i` with
    /// `draws[i]`, and draws it into the output picture.
    pub fn draw_snowflakes(&mut self, image_buffer: &mut Framebuffer, draws: &Vec<StepDraws>)
        requires
            old(self).wf(),
            old(image_buffer).wf(),
            draws@.len() == FLAKE_COUNT,
        ensures
            final(self).wf(),
            final(image_buffer).wf(),
            final(self)@.with_image(final(image_buffer)@) == frame(
                old(self)@.with_image(old(image_buffer)@),
                old(self)@.sine,
                draws@,
                FLAKE_COUNT as nat,
            ),
            final(self)@.sine == old(self)@.sine,
            final(self)@.flakes.len() == FLAKE_COUNT,
            old(self)@.snowbank.snow_kept_by(final(self)@.snowbank),
            old(image_buffer)@.snow_kept_by(final(image_buffer)@),
    {
        let ghost start = self@.with_image(image_buffer@);
        let ghost sine = self@.sine;
        let mut i: usize = 0;
        while i < FLAKE_COUNT
            invariant
                i <= FLAKE_COUNT,
                draws@.len() == FLAKE_COUNT,
                self.wf(),
                image_buffer.wf(),
                self@.sine == sine,
                self@.with_image(image_buffer@) == frame(start, sine, draws@, i as nat),
                start.snowbank.snow_kept_by(self@.snowbank),
                start.image.snow_kept_by(image_buffer@),
            decreases FLAKE_COUNT - i,
        {
            self.draw_snowflake(i, image_buffer, &draws[i]);
            i += 1;
        }
    }
}

/// Sets the simulation up: empties the snowbank and lays its base, places
/// every flake and installs the sine table. To be called once, before the
/// first frame.
///
/// Does nothing and returns `false` unless `samples` is a full set of sine
/// values.
pub fn init(data: &mut LocalData, spawns: &Vec<SpawnDraws>, samples: &Vec<i64>) -> (ready: bool)
    requires
        old(data).wf(),
        spawns@.len() == FLAKE_COUNT,
    ensures
        final(data).wf(),
        ready == valid_samples(samples@),
        final(data)@ == if ready {
            World::initial(spawns@, samples@)
        } else {
            old(data)@
        },
{
    if !data.calculate_sine_table(samples) {
        return false;
    }
    data.snowbank.fill(COLOUR_BACKGROUND);
    data.fill_snowbank();
    data.randomize_snowflakes(spawns);
    assert(data@.snowbank.pixels =~= base_snowbank().pixels);
    true
}

/// Renders one frame into `image_buffer` and moves the simulation on by one
/// step.
pub fn render(data: &mut LocalData, image_buffer: &mut Framebuffer, draws: &Vec<StepDraws>)
    requires
        old(data).wf(),
        old(image_buffer).wf(),
        old(image_buffer)@.width == WIDTH,
        old(image_buffer)@.height == HEIGHT,
        draws@.len() == FLAKE_COUNT,
    ensures
        final(data).wf(),
        final(image_buffer).wf(),
        final(data)@.with_image(final(image_buffer)@) == frame(
            old(data)@.cleared(),
            old(data)@.sine,
            draws@,
            FLAKE_COUNT as nat,
        ),
        final(data)@ == old(data)@.after_frame(draws@),
        final(data)@.flakes.len() == FLAKE_COUNT,
        old(data)@.snowbank.snow_kept_by(final(data)@.snowbank),
        old(data)@.snowbank.snow_kept_by(final(image_buffer)@),
{
    data.clear_snowflakes(image_buffer);
    data.draw_snowflakes(image_buffer, draws);
}

/// Renders one frame; the same as [`render`].
pub fn go(data: &mut LocalData, image_buffer: &mut Framebuffer, draws: &Vec<StepDraws>)
    requires
        old(data).wf(),
        old(image_buffer).wf(),
        old(image_buffer)@.width == WIDTH,
        old(image_buffer)@.height == HEIGHT,
        draws@.len() == FLAKE_COUNT,
    ensures
        final(data).wf(),
        final(image_buffer).wf(),
        final(data)@.with_image(final(image_buffer)@) == frame(
            old(data)@.cleared(),
            old(data)@.sine,
            draws@,
            FLAKE_COUNT as nat,
        ),
        final(data)@ == old(data)@.after_frame(draws@),
        final(data)@.flakes.len() == FLAKE_COUNT,
        old(data)@.snowbank.snow_kept_by(final(data)@.snowbank),
        old(data)@.snowbank.snow_kept_by(final(image_buffer)@),
{
    render(data, image_buffer, draws);
}

/// Hook for pointer movement. The pointer does not act on the snow: the
/// simulation is left as it is.
pub fn mouse_move(x: i32, y: i32, data: &mut LocalData)
    ensures
        *final(data) == *old(data),
{
}

/// One flake's share of a frame keeps everything well-formed, takes no snow
/// out of the snowbank and no snow pixel out of the picture, and leaves the
/// flake either drawn where it is or recycled to above the top edge. A drawn
/// flake is where balancing and free fall took it, unless that is left of
/// the range flakes are kept in.
pub proof fn lemma_step_keeps_snow(
    flake: FlakeState,
    snowbank: Grid,
    image: Grid,
    sine: Seq<i64>,
    draws: StepDraws,
)
    requires
        flake.wf(),
        snowbank.wf(),
        image.wf(),
        valid_samples(sine),
    ensures
        stepped(flake, snowbank, image, sine, draws).0.wf(),
        stepped(flake, snowbank, image, sine, draws).1.wf(),
        stepped(flake, snowbank, image, sine, draws).2.wf(),
        snowbank.snow_kept_by(stepped(flake, snowbank, image, sine, draws).1),
        image.snow_kept_by(stepped(flake, snowbank, image, sine, draws).2),
        ({
            let after = stepped(flake, snowbank, image, sine, draws);
            ||| after.2.get(after.0.cell_x(), after.0.cell_y()) == Some(COLOUR_FLAKE)
            ||| after.0 == FlakeState::respawned(draws.spawn, draws.jitter)
        }),
        ({
            let (landed, snowbank_after, airborne) = balanced(flake, snowbank, draws);
            let moved = if airborne {
                landed.animated(sine)
            } else {
                landed
            };
            image.in_bounds(moved.cell_x(), moved.cell_y()) && moved.x >= POSITION_MIN ==> stepped(
                flake,
                snowbank,
                image,
                sine,
                draws,
            ).0 == moved
        }),
{
    lemma_balance_keeps_snow(flake, snowbank, draws);
    lemma_respawn_bounds(draws.spawn, draws.jitter);
    let (landed, bank_after, airborne) = balanced(flake, snowbank, draws);
    let moved = if airborne {
        landed.animated(sine)
    } else {
        landed
    };
    if airborne {
        lemma_animate_moves(landed, sine);
    }
    if image.in_bounds(moved.cell_x(), moved.cell_y()) {
        lemma_inside_cell_is_small(image, moved.cell_x(), moved.cell_y());
    }
}

/// Draws that a flake's share of a frame does not read do not matter: two
/// sets of draws that agree on the coin where it is read, and on the draws
/// for recycling where they are read, lead to the same flake, snowbank and
/// picture.
pub proof fn lemma_unread_draws_do_not_matter(
    flake: FlakeState,
    snowbank: Grid,
    image: Grid,
    sine: Seq<i64>,
    one: StepDraws,
    other: StepDraws,
)
    requires
        uses_coin(flake, snowbank) ==> one.coin == other.coin,
        uses_respawn(flake, snowbank, image, sine, one.coin) ==> one.spawn == other.spawn
            && one.jitter == other.jitter,
    ensures
        stepped(flake, snowbank, image, sine, one) == stepped(flake, snowbank, image, sine, other),
        uses_respawn(flake, snowbank, image, sine, one.coin) == uses_respawn(
            flake,
            snowbank,
            image,
            sine,
            other.coin,
        ),
{
}

/// A frame never adds or removes a flake, never takes snow away, and keeps
/// the scene well-formed.
pub proof fn lemma_frame_keeps_pool_and_snow(
    scene: Scene,
    sine: Seq<i64>,
    draws: Seq<StepDraws>,
    count: nat,
)
    requires
        scene.wf(),
        valid_samples(sine),
        count <= scene.flakes.len(),
    ensures
        frame(scene, sine, draws, count).wf(),
        frame(scene, sine, draws, count).flakes.len() == scene.flakes.len(),
        scene.snowbank.snow_kept_by(frame(scene, sine, draws, count).snowbank),
        scene.image.snow_kept_by(frame(scene, sine, draws, count).image),
        forall|i: int|
            count <= i < scene.flakes.len() ==> frame(scene, sine, draws, count).flakes[i]
                == scene.flakes[i],
    decreases count,
{
    if count > 0 {
        let before = frame(scene, sine, draws, (count - 1) as nat);
        lemma_frame_keeps_pool_and_snow(scene, sine, draws, (count - 1) as nat);
        let i = count - 1;
        lemma_step_keeps_snow(before.flakes[i], before.snowbank, before.image, sine, draws[i]);
    }
}

/// A frame over no flakes leaves the picture an exact copy of the snowbank.
pub proof fn lemma_cleared_picture_is_snowbank(world: World, draws: Seq<StepDraws>)
    ensures
        world.cleared().image == world.snowbank,
        frame(world.cleared(), world.sine, draws, 0).image == world.snowbank,
{
}

/// After any number of frames the pool still holds exactly `FLAKE_COUNT`
/// flakes, the state is still well-formed, and every pixel of the snowbank
/// that was snow at the start is snow.
pub proof fn lemma_frames_keep_pool_and_snow(
    world: World,
    draws: Seq<Seq<StepDraws>>,
    count: nat,
)
    requires
        world.wf(),
    ensures
        world.after_frames(draws, count).wf(),
        world.after_frames(draws, count).flakes.len() == FLAKE_COUNT,
        world.after_frames(draws, count).sine == world.sine,
        world.snowbank.snow_kept_by(world.after_frames(draws, count).snowbank),
    decreases count,
{
    if count > 0 {
        let before = world.after_frames(draws, (count - 1) as nat);
        lemma_frames_keep_pool_and_snow(world, draws, (count - 1) as nat);
        lemma_frame_keeps_pool_and_snow(
            before.cleared(),
            before.sine,
            draws[count - 1],
            FLAKE_COUNT as nat,
        );
    }
}

/// Set-up yields a well-formed state whose snowbank is empty but for its two
/// bottom rows.
pub proof fn lemma_initial_is_well_formed(spawns: Seq<SpawnDraws>, samples: Seq<i64>)
    requires
        valid_samples(samples),
    ensures
        World::initial(spawns, samples).wf(),
        forall|x: int, y: int|
            0 <= x < WIDTH && 0 <= y < HEIGHT ==> #[trigger] base_snowbank().get(x, y) == Some(
                if y >= HEIGHT - BASE_ROWS {
                    COLOUR_FLAKE
                } else {
                    COLOUR_BACKGROUND
                },
            ),
{
    assert forall|i: int| 0 <= i < FLAKE_COUNT implies (#[trigger] World::initial(
        spawns,
        samples,
    ).flakes[i]).wf() by {
        lemma_spawn_bounds(spawns[i]);
    }
}

} // verus!
