use chimera_core::stealth::path::{
    noise_position, path_length, path_point, DiffusionMousePath, StepDraw, JITTER_LIMIT,
    MAX_STEPS, NOISE_UNIT, UNITS_PER_PIXEL,
};
use noise::{NoiseFn, Perlin};

const STILL: StepDraw = StepDraw { jitter_x: 0, jitter_y: 0, variation: 1000, pause_ms: 0 };

fn units(pixels: f64) -> i32 {
    (pixels * UNITS_PER_PIXEL as f64).round() as i32
}

fn pixels(units: i64) -> f64 {
    units as f64 / UNITS_PER_PIXEL as f64
}

fn sample_noise(generator: &DiffusionMousePath, steps: usize) -> Vec<(i32, i32)> {
    let perlin = Perlin::new(generator.seed());
    (0..=steps)
        .map(|i| {
            let position = noise_position(i, steps) as f64 / 1000.0;
            let x = perlin.get([position, 0.0]);
            let y = perlin.get([position, 1.0]);
            ((x * NOISE_UNIT as f64).round() as i32, (y * NOISE_UNIT as f64).round() as i32)
        })
        .collect()
}

#[test]
fn test_diffusion_path_generation() {
    let generator = DiffusionMousePath::new();
    let noise = sample_noise(&generator, 20);
    let path = generator.generate_path((units(0.0), units(0.0)), (units(100.0), units(100.0)), 20, &noise);

    assert_eq!(path.len(), 21);

    assert!(pixels(path[0].0).abs() < 5.0);
    assert!(pixels(path[0].1).abs() < 5.0);

    let last = path.last().unwrap();
    assert!((pixels(last.0) - 100.0).abs() < 10.0);
    assert!((pixels(last.1) - 100.0).abs() < 10.0);
}

#[test]
fn path_length_is_the_rounded_down_distance() {
    assert_eq!(path_length((0, 0), (3000, 4000)), 5000);
    assert_eq!(path_length((0, 0), (100_000, 100_000)), 141_421);
    assert_eq!(path_length((5, -7), (5, -7)), 0);
    assert_eq!(path_length((0, 0), (1, 1)), 1);
    assert_eq!(path_length((0, 0), (0, -9)), 9);
    assert_eq!(path_length((-2, 0), (2, 0)), 4);
    assert_eq!(path_length((i32::MIN, 0), (i32::MAX, 0)), u32::MAX as u64);
    assert_eq!(
        path_length((i32::MIN, i32::MIN), (i32::MAX, i32::MAX)),
        ((2.0f64).sqrt() * u32::MAX as f64).floor() as u64
    );
}

#[test]
fn noise_positions_run_from_0_to_10() {
    assert_eq!(noise_position(0, 20), 0);
    assert_eq!(noise_position(5, 20), 2500);
    assert_eq!(noise_position(20, 20), 10_000);
    assert_eq!(noise_position(1, 3), 3333);
    assert_eq!(noise_position(2, 3), 6666);
    assert_eq!(noise_position(0, 0), 0);
    assert_eq!(noise_position(usize::MAX, usize::MAX), 10_000);
}

#[test]
fn travel_eases_in_and_out() {
    let start = (0, 0);
    let end = (100_000, 0);
    let xs: Vec<i64> =
        (0..=4).map(|i| path_point(start, end, 4, i, (0, 0), STILL).0).collect();
    assert_eq!(xs, vec![0, 12_500, 50_000, 87_500, 100_000]);
    let xs: Vec<i64> =
        (0..=5).map(|i| path_point(start, end, 5, i, (0, 0), STILL).0).collect();
    assert_eq!(xs, vec![0, 8_000, 32_000, 68_000, 92_000, 100_000]);
}

#[test]
fn travel_rounds_toward_the_start_in_both_directions() {
    assert_eq!(path_point((0, 0), (100_000, 0), 3, 1, (0, 0), STILL).0, 22_222);
    assert_eq!(path_point((100_000, 0), (0, 0), 3, 1, (0, 0), STILL).0, 100_000 - 22_222);
    assert_eq!(path_point((0, 0), (0, -100_000), 3, 1, (0, 0), STILL).1, -22_222);
    assert_eq!(path_point((0, 0), (0, -100_000), 3, 2, (0, 0), STILL).1, -77_777);
}

#[test]
fn both_axes_travel_together() {
    let point = path_point((10_000, -20_000), (110_000, 180_000), 4, 2, (0, 0), STILL);
    assert_eq!((point.0, point.1), (60_000, 80_000));
}

#[test]
fn noise_sways_by_a_twentieth_of_the_distance() {
    let start = (0, 0);
    let end = (100_000, 0);
    let full = NOISE_UNIT as i32;
    let point = path_point(start, end, 4, 0, (full, -full), STILL);
    assert_eq!((point.0, point.1), (5_000, -5_000));
    let point = path_point(start, end, 4, 2, (full / 2, full / 4), STILL);
    assert_eq!((point.0, point.1), (52_500, 1_250));
    let point = path_point(start, end, 4, 4, (-333_333, 1), STILL);
    assert_eq!((point.0, point.1), (100_000 - 1_666, 0));
}

#[test]
fn jitter_is_added_as_drawn() {
    let draw = StepDraw { jitter_x: -1500, jitter_y: 1499, variation: 1000, pause_ms: 0 };
    let point = path_point((0, 0), (100_000, 0), 4, 2, (0, 0), draw);
    assert_eq!((point.0, point.1), (48_500, 1_499));
}

#[test]
fn base_delay_grows_with_distance_within_5_and_100() {
    let delay = |length_px: i32| path_point((0, 0), (length_px * 1000, 0), 1, 0, (0, 0), STILL).2;
    assert_eq!(delay(0), 5);
    assert_eq!(delay(1), 5);
    assert_eq!(delay(10), 5);
    assert_eq!(delay(11), 5);
    assert_eq!(delay(12), 6);
    assert_eq!(delay(13), 6);
    assert_eq!(delay(100), 50);
    assert_eq!(delay(199), 99);
    assert_eq!(delay(200), 100);
    assert_eq!(delay(201), 100);
    assert_eq!(delay(2_000_000), 100);
    assert_eq!(path_point((0, 0), (100_000, 100_000), 20, 3, (0, 0), STILL).2, 70);
}

#[test]
fn delay_varies_and_hesitates_as_drawn() {
    let end = (100_000, 0);
    let with = |variation: u16, pause_ms: u16| {
        let draw = StepDraw { jitter_x: 0, jitter_y: 0, variation, pause_ms };
        path_point((0, 0), end, 4, 1, (0, 0), draw).2
    };
    assert_eq!(with(1000, 0), 50);
    assert_eq!(with(700, 0), 35);
    assert_eq!(with(1299, 0), 64);
    assert_eq!(with(999, 0), 49);
    assert_eq!(with(1000, 20), 70);
    assert_eq!(with(700, 79), 114);
}

#[test]
fn a_path_of_no_steps_is_its_start() {
    let point = path_point((7_000, -3_000), (90_000, 40_000), 0, 0, (0, 0), STILL);
    assert_eq!((point.0, point.1), (7_000, -3_000));

    let generator = DiffusionMousePath::new();
    let noise = sample_noise(&generator, 0);
    assert_eq!(noise, vec![(0, 0)]);
    let path = generator.generate_path((7_000, -3_000), (90_000, 40_000), 0, &noise);
    assert_eq!(path.len(), 1);
    assert!((path[0].0 - 7_000).abs() <= JITTER_LIMIT);
    assert!((path[0].1 + 3_000).abs() <= JITTER_LIMIT);
}

#[test]
fn a_path_in_place_clusters_at_its_start() {
    let generator = DiffusionMousePath::new();
    let start = (250_000, 125_000);
    let noise: Vec<(i32, i32)> = (0..=30).map(|i| (i * 30_000, -i * 30_000)).collect();
    let path = generator.generate_path(start, start, 30, &noise);
    assert_eq!(path.len(), 31);
    for point in &path {
        assert!(-JITTER_LIMIT <= point.0 - 250_000 && point.0 - 250_000 < JITTER_LIMIT);
        assert!(-JITTER_LIMIT <= point.1 - 125_000 && point.1 - 125_000 < JITTER_LIMIT);
        assert!(3 <= point.2 && point.2 <= 85);
    }
    assert_eq!(path_point(start, start, 30, 17, (900_000, -900_000), STILL), (250_000, 125_000, 5));
}

#[test]
fn generated_points_stay_near_the_eased_line() {
    let generator = DiffusionMousePath::new();
    let start = (0, 0);
    let end = (500_000, 300_000);
    let steps = 30;
    let noise = sample_noise(&generator, steps);
    let path = generator.generate_path(start, end, steps, &noise);
    assert_eq!(path.len(), steps + 1);
    let reach = path_length(start, end) as i64 / 20 + JITTER_LIMIT;
    for (i, point) in path.iter().enumerate() {
        assert!(noise[i].0.abs() as i64 <= NOISE_UNIT && noise[i].1.abs() as i64 <= NOISE_UNIT);
        let line = path_point(start, end, steps, i, noise[i], STILL);
        assert!(-JITTER_LIMIT <= point.0 - line.0 && point.0 - line.0 < JITTER_LIMIT);
        assert!(-JITTER_LIMIT <= point.1 - line.1 && point.1 - line.1 < JITTER_LIMIT);
        assert!(-reach <= point.0 && point.0 <= 500_000 + reach);
        assert!(-reach <= point.1 && point.1 <= 300_000 + reach);
        assert!(70 <= point.2 && point.2 <= 130 + 79);
    }
    assert!((path[0].0).abs() <= JITTER_LIMIT && (path[0].1).abs() <= JITTER_LIMIT);
    assert!((path[steps].0 - 500_000).abs() <= JITTER_LIMIT);
    assert!((path[steps].1 - 300_000).abs() <= JITTER_LIMIT);
}

#[test]
fn generated_paths_differ_in_jitter_and_delay() {
    let generator = DiffusionMousePath::new();
    let noise = vec![(0, 0); 41];
    let first = generator.generate_path((0, 0), (400_000, 0), 40, &noise);
    let second = generator.generate_path((0, 0), (400_000, 0), 40, &noise);
    assert_ne!(first, second);
    assert!(first.iter().any(|p| p.2 != first[0].2));
    assert!(first.iter().any(|p| p.1 != first[0].1));
}

#[test]
fn generators_draw_their_own_seeds() {
    let seeds: Vec<u32> = (0..8).map(|_| DiffusionMousePath::new().seed()).collect();
    assert!(seeds.iter().any(|seed| *seed != seeds[0]));
}

#[test]
fn the_longest_path_still_has_exact_points() {
    let start = (i32::MIN, i32::MAX);
    let end = (i32::MAX, i32::MIN);
    let whole = u32::MAX as i64;
    let first = path_point(start, end, MAX_STEPS, 0, (0, 0), STILL);
    assert_eq!((first.0, first.1), (i32::MIN as i64, i32::MAX as i64));
    let last = path_point(start, end, MAX_STEPS, MAX_STEPS, (0, 0), STILL);
    assert_eq!((last.0, last.1), (i32::MIN as i64 + whole, i32::MAX as i64 - whole));
    assert_eq!(last.2, 100);
    let swayed = path_point(start, end, MAX_STEPS, 0, (999_999, -1), STILL);
    let reach = path_length(start, end) as i128 / 20;
    assert_eq!(swayed.0 as i128, i32::MIN as i128 + reach * 999_999 / 1_000_000);
    assert_eq!(swayed.1 as i128, i32::MAX as i128 - reach / 1_000_000);
}

#[test]
fn noise_beyond_the_field_counts_as_its_nearest_end() {
    let start = (0, 0);
    let end = (100_000, 0);
    let full = NOISE_UNIT as i32;
    let at_the_ends = path_point(start, end, 4, 2, (full, -full), STILL);
    assert_eq!((at_the_ends.0, at_the_ends.1), (55_000, -5_000));
    for beyond in [full + 1, 2 * full, i32::MAX] {
        assert_eq!(path_point(start, end, 4, 2, (beyond, -beyond), STILL), at_the_ends);
    }
    assert_eq!(path_point(start, end, 4, 2, (i32::MAX, i32::MIN), STILL), at_the_ends);
    let within = path_point(start, end, 4, 2, (full - 1, 1 - full), STILL);
    assert_eq!((within.0, within.1), (54_999, -4_999));
}

#[test]
fn path_ends_stay_near_whatever_the_noise() {
    let generator = DiffusionMousePath::new();
    let start = (-40_000, 90_000);
    let end = (260_000, -310_000);
    let steps = 12;
    let noise: Vec<(i32, i32)> = (0..=steps as i32)
        .map(|i| if i % 2 == 0 { (i32::MAX, i32::MIN) } else { (i32::MIN, i32::MAX) })
        .collect();
    let path = generator.generate_path(start, end, steps, &noise);
    assert_eq!(path.len(), steps + 1);
    assert_eq!(path_length(start, end), 500_000);
    let reach = 500_000 / 20 + JITTER_LIMIT;
    assert!((path[0].0 - start.0 as i64).abs() <= reach);
    assert!((path[0].1 - start.1 as i64).abs() <= reach);
    assert!((path[steps].0 - end.0 as i64).abs() <= reach);
    assert!((path[steps].1 - end.1 as i64).abs() <= reach);
}
