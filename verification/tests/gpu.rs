use galaxy_gen::bits::ONE;
use galaxy_gen::config::Config;
use galaxy_gen::gpu::{blank_batch, draw_seeds, prepare, prepare_with};
use turborand::rng::Rng;
use turborand::{GenCore, SeededCore};

#[test]
fn one_seed_for_every_group() {
    let rng = Rng::with_seed(1);
    assert_eq!(draw_seeds(0, &rng).len(), 0);
    assert_eq!(draw_seeds(10, &rng).len(), 10);
    let config = Config::new(ONE, ONE, 1050, 1, 100, 1).unwrap();
    assert_eq!(prepare_with(&config, &rng).seeds.len(), 10);
    assert_eq!(prepare(&config).seeds.len(), 10);
    let config = Config::new(ONE, ONE, 99, 1, 100, 1).unwrap();
    assert_eq!(prepare_with(&config, &rng).seeds.len(), 0);
}

#[test]
fn seeds_are_the_generator_s_values_in_order() {
    let rng = Rng::with_seed(42);
    let same = Rng::with_seed(42);
    let seeds = draw_seeds(32, &rng);
    let expected: Vec<i64> = (0..32).map(|_| same.gen_i64()).collect();
    assert_eq!(seeds, expected);
    let mut distinct = seeds.clone();
    distinct.sort();
    distinct.dedup();
    assert_eq!(distinct.len(), 32);
}

#[test]
fn every_cycle_gets_a_seed_set_of_its_own() {
    let config = Config::new(ONE, ONE, 6400, 64, 100, 3).unwrap();
    let rng = Rng::with_seed(7);
    let first = prepare_with(&config, &rng);
    let second = prepare_with(&config, &rng);
    assert_eq!(first.seeds.len(), 64);
    assert_eq!(second.seeds.len(), 64);
    assert_ne!(first.seeds, second.seeds);
    assert_ne!(prepare(&config).seeds, prepare(&config).seeds);
}

#[test]
fn the_launch_is_sized_by_the_settings() {
    let radial = (1.0f32 / 30003.2615637769).to_bits();
    let vertical = (1.0f32 / 2503.2615637769).to_bits();
    let config = Config::new(radial, vertical, 6400, 64, 100, 3).unwrap();
    let launch = prepare_with(&config, &Rng::with_seed(0));
    assert_eq!(launch.result_len, 19200);
    assert_eq!(launch.work_size, 6400);
    assert_eq!(launch.radial_rate, radial);
    assert_eq!(launch.vertical_rate, vertical);
}

#[test]
fn a_blank_batch_is_all_zero() {
    let config = Config::new(ONE, ONE, 50, 1, 100, 3).unwrap();
    let batch = blank_batch(&config);
    assert_eq!(batch.len(), 150);
    assert!(batch.iter().all(|w| f32::from_bits(*w) == 0.0 && *w == 0));
}
