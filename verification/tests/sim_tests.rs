use snow::balance::StepDraws;
use snow::flake::{Snowflake, SpawnDraws};
use snow::framebuffer::{Framebuffer, COLOUR_BACKGROUND, COLOUR_FLAKE};
use snow::sim::{go, init, mouse_move, render, step_flake, LocalData, BASE_ROWS};
use snow::sine::SineTable;

const FLAKES: usize = 10240;

fn unit_draw_for(value: u64, range: u64) -> u32 {
    let draw = (value as u128 * (1u128 << 32) + range as u128 - 1) / range as u128;
    draw as u32
}

/// Draws that place a flake at the given position (in sub-pixels), phase and
/// radius.
fn spawn_at(x: u64, y: u64, seed: u64, radius: u64) -> SpawnDraws {
    SpawnDraws {
        x: unit_draw_for(x, 600_000_000),
        y: unit_draw_for(y, 800_000_000),
        seed: unit_draw_for(seed, 628),
        radius: unit_draw_for(radius - 200, 300),
    }
}

fn samples() -> Vec<i64> {
    (0..628).map(|i| ((i as f64 / 100.0).sin() * 1000.0).round() as i64).collect()
}

/// A state set up with flake 0 placed by `first` and every other flake
/// placed in the air at `(10.5, 20.5)`.
fn state_with_first_flake(first: SpawnDraws) -> LocalData {
    let mut spawns = vec![spawn_at(10_500_000, 20_500_000, 0, 200); FLAKES];
    spawns[0] = first;
    let mut data = LocalData::new();
    assert!(init(&mut data, &spawns, &samples()));
    data
}

/// The same draws for every flake: recycling leads to `(300, -2.5)`.
fn frame_draws(coin: u32) -> Vec<StepDraws> {
    let spawn = SpawnDraws { x: 0x8000_0000, y: 5, seed: 68_391_199, radius: 0x8000_0000 };
    vec![StepDraws { coin, spawn, jitter: 0x8000_0000 }; FLAKES]
}

struct Lcg(u64);

impl Lcg {
    fn next(&mut self) -> u32 {
        self.0 = self.0.wrapping_mul(6_364_136_223_846_793_005).wrapping_add(1_442_695_040_888_963_407);
        (self.0 >> 32) as u32
    }

    fn spawn(&mut self) -> SpawnDraws {
        SpawnDraws { x: self.next(), y: self.next(), seed: self.next(), radius: self.next() }
    }

    fn step(&mut self) -> StepDraws {
        StepDraws { coin: self.next(), spawn: self.spawn(), jitter: self.next() }
    }
}

#[test]
fn new_state_is_blank() {
    let data = LocalData::new();
    assert_eq!(data.snowbank().width(), 600);
    assert_eq!(data.snowbank().height(), 800);
    assert_eq!(data.snowbank().pixels(), &vec![COLOUR_BACKGROUND; 480_000]);
    assert_eq!(data.snowflakes(), &vec![Snowflake::new(); 10240]);
    for phase in 0..628 {
        assert_eq!(data.sine_table().get(phase), 0);
    }
}

#[test]
fn init_lays_two_rows_of_snow() {
    assert_eq!(BASE_ROWS, 2);
    let data = state_with_first_flake(spawn_at(0, 0, 0, 200));
    let bank = data.snowbank();
    for x in [0usize, 1, 299, 598, 599] {
        assert_eq!(bank.get(x, 799), Ok(COLOUR_FLAKE));
        assert_eq!(bank.get(x, 798), Ok(COLOUR_FLAKE));
        assert_eq!(bank.get(x, 797), Ok(COLOUR_BACKGROUND));
        assert_eq!(bank.get(x, 0), Ok(COLOUR_BACKGROUND));
    }
    let snow = bank.pixels().iter().filter(|&&pixel| pixel == COLOUR_FLAKE).count();
    assert_eq!(snow, 1200);
    assert!(bank.pixels()[..478_800].iter().all(|&pixel| pixel == COLOUR_BACKGROUND));
    assert!(bank.pixels()[478_800..].iter().all(|&pixel| pixel == COLOUR_FLAKE));
}

#[test]
fn init_places_every_flake_and_installs_the_sine_table() {
    let mut rng = Lcg(7);
    let spawns: Vec<SpawnDraws> = (0..FLAKES).map(|_| rng.spawn()).collect();
    let mut data = LocalData::new();
    assert!(init(&mut data, &spawns, &samples()));
    assert_eq!(data.snowflakes().len(), 10240);
    for (flake, draws) in data.snowflakes().iter().zip(&spawns) {
        let mut expected = Snowflake::new();
        expected.randomize(draws);
        assert_eq!(*flake, expected);
        assert!(flake.x() >= 0 && flake.x() < 600_000_000);
        assert!(flake.y() >= 0 && flake.y() < 800_000_000);
        assert!(flake.seed() < 628);
        assert!(flake.radius() >= 200 && flake.radius() < 500);
    }
    assert_eq!(data.sine_table().get(157), 1000);
    assert_eq!(data.sine_table().get(471), -1000);
    assert_eq!(data.sine_table().get(11), 110);
}

#[test]
fn init_starts_over_from_any_state() {
    let mut data = state_with_first_flake(spawn_at(300_000_000, 797_000_000, 0, 200));
    let mut image = Framebuffer::new(600, 800).unwrap();
    render(&mut data, &mut image, &frame_draws(0));
    assert_eq!(data.snowbank().get(300, 797), Ok(COLOUR_FLAKE));
    let mut flat = vec![0i64; 628];
    flat[3] = -7;
    let spawns = vec![spawn_at(1_000_000, 2_000_000, 3, 400); FLAKES];
    assert!(init(&mut data, &spawns, &flat));
    assert_eq!(data.snowbank().get(300, 797), Ok(COLOUR_BACKGROUND));
    assert_eq!(data.snowbank().pixels(), state_with_first_flake(spawns[0]).snowbank().pixels());
    assert_eq!(data.snowflakes()[0].x(), 1_000_000);
    assert_eq!(data.snowflakes()[10239].y(), 2_000_000);
    assert_eq!(data.sine_table().get(3), -7);
    assert_eq!(data.sine_table().get(157), 0);
}

#[test]
fn init_refuses_samples_no_sine_can_give() {
    let mut data = state_with_first_flake(spawn_at(5_000_000, 6_000_000, 7, 300));
    let flakes_before = data.snowflakes().clone();
    let bank_before = data.snowbank().pixels().clone();
    let spawns = vec![spawn_at(1_000_000, 2_000_000, 3, 400); FLAKES];
    let mut bad = samples();
    bad[300] = 2000;
    assert!(!init(&mut data, &spawns, &bad));
    assert!(!init(&mut data, &spawns, &vec![0; 100]));
    assert_eq!(data.snowflakes(), &flakes_before);
    assert_eq!(data.snowbank().pixels(), &bank_before);
    assert_eq!(data.sine_table().get(157), 1000);
}

#[test]
fn set_up_step_by_step() {
    let mut data = LocalData::new();
    data.fill_snowbank();
    assert_eq!(data.snowbank().get(0, 798), Ok(COLOUR_FLAKE));
    assert_eq!(data.snowbank().get(599, 797), Ok(COLOUR_BACKGROUND));
    assert_eq!(data.snowflakes()[5], Snowflake::new());
    let spawns = vec![spawn_at(9_000_000, 8_000_000, 7, 260); FLAKES];
    data.randomize_snowflakes(&spawns);
    let flake = data.snowflakes()[10239];
    assert_eq!((flake.x(), flake.y(), flake.seed(), flake.radius()), (9_000_000, 8_000_000, 7, 260));
    assert_eq!(data.sine_table().get(100), 0);
    assert!(!data.calculate_sine_table(&vec![0; 629]));
    assert_eq!(data.sine_table().get(100), 0);
    assert!(data.calculate_sine_table(&samples()));
    assert_eq!(data.sine_table().get(100), 841);
    assert_eq!(data.snowflakes()[10239], flake);
    assert_eq!(data.snowbank().get(0, 798), Ok(COLOUR_FLAKE));
}

#[test]
fn laying_the_base_keeps_the_settled_snow() {
    let mut data = state_with_first_flake(spawn_at(300_000_000, 797_000_000, 0, 200));
    let mut image = Framebuffer::new(600, 800).unwrap();
    render(&mut data, &mut image, &frame_draws(0));
    assert_eq!(data.snowbank().get(300, 797), Ok(COLOUR_FLAKE));
    let flakes = data.snowflakes().clone();
    data.fill_snowbank();
    assert_eq!(data.snowbank().get(300, 797), Ok(COLOUR_FLAKE));
    assert_eq!(data.snowbank().get(299, 797), Ok(COLOUR_BACKGROUND));
    assert_eq!(data.snowbank().get(300, 798), Ok(COLOUR_FLAKE));
    let snow = data.snowbank().pixels().iter().filter(|&&pixel| pixel == COLOUR_FLAKE).count();
    assert_eq!(snow, 1201);
    assert_eq!(data.snowflakes(), &flakes);
}

#[test]
fn a_recycled_flake_is_never_on_the_top_edge() {
    let mut spawns = vec![spawn_at(300_000_000, 797_000_000, 0, 200); FLAKES];
    spawns[1] = spawn_at(42_000_000, 799_900_000, 0, 200);
    let mut data = LocalData::new();
    assert!(init(&mut data, &spawns, &samples()));
    let spawn = SpawnDraws { x: 0, y: u32::MAX, seed: 0, radius: 0 };
    let draws = vec![StepDraws { coin: 0, spawn, jitter: 0 }; FLAKES];
    let mut image = Framebuffer::new(600, 800).unwrap();
    render(&mut data, &mut image, &draws);
    let settled = data.snowflakes()[0];
    let fallen_out = data.snowflakes()[1];
    assert_eq!((settled.x(), settled.y()), (0, -1));
    assert_eq!((fallen_out.x(), fallen_out.y()), (0, -1));
    assert_eq!(data.snowbank().get(300, 797), Ok(COLOUR_FLAKE));
}

#[test]
fn clearing_reproduces_the_snowbank() {
    let data = state_with_first_flake(spawn_at(0, 0, 0, 200));
    let mut image = Framebuffer::new(600, 800).unwrap();
    image.fill(0x1122_3344);
    data.clear_snowflakes(&mut image);
    assert_eq!(image.pixels(), data.snowbank().pixels());
    assert_eq!(image.get(17, 798), Ok(COLOUR_FLAKE));
    assert_eq!(image.get(17, 797), Ok(COLOUR_BACKGROUND));
}

#[test]
fn a_flake_on_the_base_settles_and_is_recycled() {
    for row in [798u64, 797] {
        let mut data = state_with_first_flake(spawn_at(300_000_000, row * 1_000_000, 9, 240));
        assert_eq!(data.snowflakes()[0].cell_x(), 300);
        assert_eq!(data.snowflakes()[0].cell_y(), row as i64);
        assert_eq!(data.snowbank().get(300, row as usize + 1), Ok(COLOUR_FLAKE));
        assert_eq!(data.snowbank().get(301, row as usize + 1), Ok(COLOUR_FLAKE));
        assert_eq!(data.snowbank().get(299, row as usize + 1), Ok(COLOUR_FLAKE));
        let mut image = Framebuffer::new(600, 800).unwrap();
        render(&mut data, &mut image, &frame_draws(0x1234_5678));
        assert_eq!(data.snowbank().get(300, row as usize), Ok(COLOUR_FLAKE));
        let flake = data.snowflakes()[0];
        assert!(flake.y() < 0);
        assert_eq!(flake.y(), -2_500_000);
        assert_eq!(flake.x(), 300_000_000);
        assert_eq!((flake.seed(), flake.radius()), (10, 350));
        assert_eq!(image.get(300, 0), Ok(COLOUR_FLAKE));
        let snow = data.snowbank().pixels().iter().filter(|&&pixel| pixel == COLOUR_FLAKE).count();
        assert_eq!(snow, if row == 797 { 1201 } else { 1200 });
    }
}

#[test]
fn a_flake_in_the_air_falls_and_sways() {
    let mut data = state_with_first_flake(spawn_at(0, 100_000_000, 10, 350));
    assert_eq!(data.snowbank().get(0, 101), Ok(COLOUR_BACKGROUND));
    let bank_before = data.snowbank().pixels().clone();
    let mut image = Framebuffer::new(600, 800).unwrap();
    render(&mut data, &mut image, &frame_draws(0));
    let flake = data.snowflakes()[0];
    assert_eq!(flake.y(), 100_200_000);
    assert_eq!(flake.seed(), 11);
    assert_eq!(flake.x(), 110 * 350);
    assert_eq!(flake.radius(), 350);
    assert_eq!(image.get(0, 100), Ok(COLOUR_FLAKE));
    assert_eq!(data.snowbank().pixels(), &bank_before);
    let other = data.snowflakes()[1];
    assert_eq!((other.x(), other.y(), other.seed()), (10_502_000, 20_700_000, 1));
    assert_eq!(image.get(10, 20), Ok(COLOUR_FLAKE));
    let drawn = image.pixels().iter().filter(|&&pixel| pixel == COLOUR_FLAKE).count();
    assert_eq!(drawn, 1202);
}

#[test]
fn a_flake_that_falls_out_of_the_picture_is_recycled() {
    let mut data = state_with_first_flake(spawn_at(42_000_000, 799_900_000, 0, 200));
    let mut image = Framebuffer::new(600, 800).unwrap();
    render(&mut data, &mut image, &frame_draws(0));
    let flake = data.snowflakes()[0];
    assert_eq!((flake.x(), flake.y()), (300_000_000, -2_500_000));
    assert_eq!((flake.seed(), flake.radius()), (10, 350));
    assert_eq!(image.get(300, 0), Ok(COLOUR_BACKGROUND));
    render(&mut data, &mut image, &frame_draws(0));
    let flake = data.snowflakes()[0];
    assert_eq!(flake.y(), -2_300_000);
    assert_eq!(flake.seed(), 11);
    assert_eq!(flake.x(), 300_000_000 + 110 * 350);
    assert_eq!(image.get(300, 0), Ok(COLOUR_FLAKE));
}

#[test]
fn frames_keep_the_pool_and_the_snow() {
    let mut rng = Lcg(2021);
    let spawns: Vec<SpawnDraws> = (0..FLAKES)
        .map(|_| {
            let mut spawn = rng.spawn();
            spawn.y = spawn.y / 64 + 0xFA00_0000;
            spawn
        })
        .collect();
    let mut data = LocalData::new();
    assert!(init(&mut data, &spawns, &samples()));
    let mut image = Framebuffer::new(600, 800).unwrap();
    let mut settled = 1200;
    for _ in 0..40 {
        let before = data.snowbank().pixels().clone();
        let draws: Vec<StepDraws> = (0..FLAKES).map(|_| rng.step()).collect();
        render(&mut data, &mut image, &draws);
        assert_eq!(data.snowflakes().len(), 10240);
        assert_eq!(data.snowbank().pixels().len(), 480_000);
        for (was, is) in before.iter().zip(data.snowbank().pixels()) {
            assert!(*was != COLOUR_FLAKE || *is == COLOUR_FLAKE);
            assert!(*is == *was || *is == COLOUR_FLAKE);
        }
        for (bank, picture) in before.iter().zip(image.pixels()) {
            assert!(*picture == *bank || *picture == COLOUR_FLAKE);
        }
        for flake in data.snowflakes() {
            let cell = flake.cell_x() + flake.cell_y() * 600;
            assert!(cell < 480_000);
            assert!(image.pixels()[cell as usize] == COLOUR_FLAKE || flake.y() <= 0);
            assert!(flake.y() > -5_000_000 && flake.y() < 800_000_000);
            assert!(flake.seed() < 628);
        }
        let now = data.snowbank().pixels().iter().filter(|&&pixel| pixel == COLOUR_FLAKE).count();
        assert!(now >= settled);
        settled = now;
    }
    assert!(settled > 1200);
}

#[test]
fn a_landed_flake_reads_the_coin() {
    let mut spawns = vec![spawn_at(0, 100_000_000, 10, 350); FLAKES];
    spawns[1] = spawn_at(300_000_000, 797_000_000, 0, 200);
    spawns[2] = spawn_at(300_000_000, 796_900_000, 0, 200);
    spawns[3] = spawn_at(42_000_000, 799_900_000, 0, 200);
    let mut data = LocalData::new();
    assert!(init(&mut data, &spawns, &samples()));
    assert!(!data.flake_uses_coin(0));
    assert!(data.flake_uses_coin(1));
    assert!(!data.flake_uses_coin(2));
    assert!(!data.flake_uses_coin(3));
    assert!(!data.flake_uses_coin(10239));
}

#[test]
fn a_flake_that_settles_or_falls_out_reads_the_recycling_draws() {
    let mut spawns = vec![spawn_at(0, 100_000_000, 10, 350); FLAKES];
    spawns[1] = spawn_at(300_000_000, 797_000_000, 0, 200);
    spawns[2] = spawn_at(42_000_000, 799_900_000, 0, 200);
    spawns[3] = spawn_at(42_000_000, 799_700_000, 0, 200);
    let mut data = LocalData::new();
    assert!(init(&mut data, &spawns, &samples()));
    let mut image = Framebuffer::new(600, 800).unwrap();
    data.clear_snowflakes(&mut image);
    for coin in [0, u32::MAX] {
        assert!(!data.flake_uses_respawn(0, &image, coin));
        assert!(data.flake_uses_respawn(1, &image, coin));
        assert!(data.flake_uses_respawn(2, &image, coin));
        assert!(!data.flake_uses_respawn(3, &image, coin));
    }
    let small = Framebuffer::new(5, 4).unwrap();
    assert!(data.flake_uses_respawn(0, &small, 0));
}

#[test]
fn a_sliding_flake_reads_the_coin_only() {
    let mut spawns = vec![spawn_at(10_500_000, 20_500_000, 0, 200); FLAKES];
    spawns[0] = spawn_at(300_500_000, 797_500_000, 0, 200);
    spawns[1] = spawn_at(300_500_000, 796_500_000, 0, 200);
    let mut data = LocalData::new();
    assert!(init(&mut data, &spawns, &samples()));
    let mut image = Framebuffer::new(600, 800).unwrap();
    data.clear_snowflakes(&mut image);
    let spawn = spawn_at(300_500_000, 0, 0, 200);
    assert!(data.flake_uses_coin(0));
    assert!(data.flake_uses_respawn(0, &image, 0));
    data.draw_snowflake(0, &mut image, &StepDraws { coin: 0, spawn, jitter: 0 });
    assert_eq!(data.snowbank().get(300, 797), Ok(COLOUR_FLAKE));
    assert_eq!(data.snowflakes()[0].y(), -1);
    assert!(data.flake_uses_coin(1));
    assert!(!data.flake_uses_respawn(1, &image, 0));
    assert!(!data.flake_uses_respawn(1, &image, u32::MAX));
    data.draw_snowflake(1, &mut image, &StepDraws { coin: u32::MAX, spawn, jitter: 9 });
    let slid = data.snowflakes()[1];
    assert_eq!((slid.x(), slid.y()), (301_500_000, 796_500_000));
    assert_eq!(image.get(301, 796), Ok(COLOUR_FLAKE));
    assert_eq!(data.snowflakes()[2].x(), 10_500_000);
}

#[test]
fn drawing_on_demand_renders_the_same_frames() {
    let mut rng = Lcg(31);
    let spawns: Vec<SpawnDraws> = (0..FLAKES)
        .map(|_| {
            let mut spawn = rng.spawn();
            spawn.y = spawn.y / 128 + 0xFE00_0000;
            spawn
        })
        .collect();
    let mut all_at_once = LocalData::new();
    let mut on_demand = LocalData::new();
    assert!(init(&mut all_at_once, &spawns, &samples()));
    assert!(init(&mut on_demand, &spawns, &samples()));
    let mut image_one = Framebuffer::new(600, 800).unwrap();
    let mut image_two = Framebuffer::new(600, 800).unwrap();
    let unread = SpawnDraws { x: 0, y: 0, seed: 0, radius: 0 };
    let mut coins = 0;
    let mut recycled = 0;
    for _ in 0..12 {
        let draws: Vec<StepDraws> = (0..FLAKES).map(|_| rng.step()).collect();
        render(&mut all_at_once, &mut image_one, &draws);
        on_demand.clear_snowflakes(&mut image_two);
        for index in 0..FLAKES {
            let mut read = StepDraws { coin: 0, spawn: unread, jitter: 0 };
            if on_demand.flake_uses_coin(index) {
                read.coin = draws[index].coin;
                coins += 1;
            }
            if on_demand.flake_uses_respawn(index, &image_two, read.coin) {
                read.spawn = draws[index].spawn;
                read.jitter = draws[index].jitter;
                recycled += 1;
            }
            on_demand.draw_snowflake(index, &mut image_two, &read);
        }
        assert_eq!(on_demand.snowflakes(), all_at_once.snowflakes());
        assert_eq!(on_demand.snowbank().pixels(), all_at_once.snowbank().pixels());
        assert_eq!(image_two.pixels(), image_one.pixels());
    }
    assert!(coins > 0 && coins < 12 * FLAKES);
    assert!(recycled > 0 && recycled < 12 * FLAKES);
}

#[test]
fn go_renders_a_frame_like_render() {
    let first = spawn_at(300_000_000, 797_000_000, 5, 300);
    let mut one = state_with_first_flake(first);
    let mut other = state_with_first_flake(first);
    let mut image_one = Framebuffer::new(600, 800).unwrap();
    let mut image_other = Framebuffer::new(600, 800).unwrap();
    let mut rng = Lcg(99);
    for _ in 0..3 {
        let draws: Vec<StepDraws> = (0..FLAKES).map(|_| rng.step()).collect();
        render(&mut one, &mut image_one, &draws);
        go(&mut other, &mut image_other, &draws);
        assert_eq!(one.snowflakes(), other.snowflakes());
        assert_eq!(one.snowbank().pixels(), other.snowbank().pixels());
        assert_eq!(image_one.pixels(), image_other.pixels());
    }
    assert_eq!(one.snowbank().get(300, 797), Ok(COLOUR_FLAKE));
}

#[test]
fn the_pointer_does_not_move_the_snow() {
    let mut data = state_with_first_flake(spawn_at(300_000_000, 797_000_000, 5, 300));
    let flakes = data.snowflakes().clone();
    let bank = data.snowbank().pixels().clone();
    for (x, y) in [(0, 0), (300, 797), (-5, 10_000), (i32::MAX, i32::MIN)] {
        mouse_move(x, y, &mut data);
    }
    assert_eq!(data.snowflakes(), &flakes);
    assert_eq!(data.snowbank().pixels(), &bank);
    assert_eq!(data.sine_table().get(157), 1000);
}

#[test]
fn step_flake_slides_without_falling() {
    let mut bank = Framebuffer::new(5, 4).unwrap();
    bank.set(2, 2, COLOUR_FLAKE).unwrap();
    let mut image = Framebuffer::new(5, 4).unwrap();
    image.copy_from(&bank);
    let sine = SineTable::from_samples(&samples()).unwrap();
    let mut flake = Snowflake::new();
    flake.randomize(&spawn_at(2_500_000, 1_500_000, 10, 350));
    let draws = StepDraws { coin: u32::MAX, spawn: spawn_at(0, 0, 0, 200), jitter: 0 };
    step_flake(&mut flake, &mut bank, &mut image, &sine, &draws);
    assert_eq!((flake.x(), flake.y(), flake.seed()), (3_500_000, 1_500_000, 10));
    assert_eq!(image.get(3, 1), Ok(COLOUR_FLAKE));
    assert_eq!(image.get(2, 1), Ok(COLOUR_BACKGROUND));
    assert_eq!(bank.get(3, 1), Ok(COLOUR_BACKGROUND));
    step_flake(&mut flake, &mut bank, &mut image, &sine, &draws);
    assert_eq!((flake.x(), flake.y(), flake.seed()), (3_538_500, 1_700_000, 11));
}

#[test]
fn step_flake_recycles_a_flake_it_cannot_draw() {
    let mut bank = Framebuffer::new(5, 4).unwrap();
    let mut image = Framebuffer::new(5, 4).unwrap();
    let sine = SineTable::new();
    let mut flake = Snowflake::new();
    flake.randomize(&spawn_at(1_500_000, 3_900_000, 0, 200));
    let draws = StepDraws { coin: 0, spawn: spawn_at(4_250_000, 0, 3, 220), jitter: 859 };
    step_flake(&mut flake, &mut bank, &mut image, &sine, &draws);
    assert_eq!((flake.x(), flake.y(), flake.seed(), flake.radius()), (4_250_000, -1, 3, 220));
    assert!(image.pixels().iter().all(|&pixel| pixel == COLOUR_BACKGROUND));
    assert!(bank.pixels().iter().all(|&pixel| pixel == COLOUR_BACKGROUND));
    step_flake(&mut flake, &mut bank, &mut image, &sine, &draws);
    assert_eq!((flake.x(), flake.y(), flake.seed()), (4_250_000, 199_999, 4));
    assert_eq!(image.get(4, 0), Ok(COLOUR_FLAKE));
}
