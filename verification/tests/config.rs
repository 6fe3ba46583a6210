use galaxy_gen::bits::{INFINITY, ONE, SIGN_BIT};
use galaxy_gen::config::{Config, ConfigError, COORDINATES, COORDINATE_BYTES, POINT_BYTES};

#[test]
fn sound_settings_are_kept_as_given() {
    let rate = (1.0f32 / 2503.2615637769).to_bits();
    let config = Config::new(ONE, rate, 1024, 64, 100, 10).unwrap();
    assert_eq!(config.radial_rate(), ONE);
    assert_eq!(config.vertical_rate(), rate);
    assert_eq!(config.point_count(), 1024);
    assert_eq!(config.lane_width(), 64);
    assert_eq!(config.group_size(), 100);
    assert_eq!(config.iterations(), 10);
}

#[test]
fn record_sizes() {
    assert_eq!(COORDINATES, 3);
    assert_eq!(COORDINATE_BYTES, 4);
    assert_eq!(POINT_BYTES, COORDINATES * COORDINATE_BYTES);
}

#[test]
fn zero_iterations_and_an_infinite_rate_are_sound() {
    assert!(Config::new(INFINITY, 1, 1, 1, 1, 0).is_ok());
}

#[test]
fn radial_rate_must_be_positive() {
    for rate in [0, SIGN_BIT, ONE | SIGN_BIT, f32::NAN.to_bits(), INFINITY + 1, 0xffff_ffff] {
        assert_eq!(
            Config::new(rate, ONE, 1024, 64, 100, 10).unwrap_err(),
            ConfigError::RadialRateNotPositive
        );
    }
}

#[test]
fn vertical_rate_must_be_positive() {
    for rate in [0, SIGN_BIT, (-2.5f32).to_bits(), f32::NAN.to_bits()] {
        assert_eq!(
            Config::new(ONE, rate, 1024, 64, 100, 10).unwrap_err(),
            ConfigError::VerticalRateNotPositive
        );
    }
}

#[test]
fn point_count_must_not_be_zero() {
    assert_eq!(Config::new(ONE, ONE, 0, 64, 100, 10).unwrap_err(), ConfigError::NoPoints);
}

#[test]
fn lane_width_must_not_be_zero() {
    assert_eq!(Config::new(ONE, ONE, 1024, 0, 100, 10).unwrap_err(), ConfigError::NoLanes);
}

#[test]
fn lane_width_must_divide_the_point_count() {
    assert_eq!(Config::new(ONE, ONE, 1000, 64, 100, 10).unwrap_err(), ConfigError::UnevenLanes);
    assert_eq!(Config::new(ONE, ONE, 63, 64, 100, 10).unwrap_err(), ConfigError::UnevenLanes);
    assert!(Config::new(ONE, ONE, 100_000_000, 64, 100, 10).is_ok());
}

#[test]
fn group_size_must_not_be_zero() {
    assert_eq!(Config::new(ONE, ONE, 1024, 64, 0, 10).unwrap_err(), ConfigError::NoGroups);
}

#[test]
fn a_batch_must_be_addressable() {
    let too_many = usize::MAX / POINT_BYTES + 1;
    assert_eq!(
        Config::new(ONE, ONE, too_many, 1, 100, 10).unwrap_err(),
        ConfigError::TooManyPoints
    );
    assert!(Config::new(ONE, ONE, usize::MAX / POINT_BYTES, 1, 100, 10).is_ok());
}

#[test]
fn the_first_fault_is_the_one_reported() {
    assert_eq!(Config::new(0, 0, 0, 0, 0, 0).unwrap_err(), ConfigError::RadialRateNotPositive);
    assert_eq!(Config::new(ONE, 0, 0, 0, 0, 0).unwrap_err(), ConfigError::VerticalRateNotPositive);
    assert_eq!(Config::new(ONE, ONE, 0, 0, 0, 0).unwrap_err(), ConfigError::NoPoints);
    assert_eq!(Config::new(ONE, ONE, 7, 0, 0, 0).unwrap_err(), ConfigError::NoLanes);
    assert_eq!(Config::new(ONE, ONE, 7, 2, 0, 0).unwrap_err(), ConfigError::UnevenLanes);
    assert_eq!(Config::new(ONE, ONE, 8, 2, 0, 0).unwrap_err(), ConfigError::NoGroups);
}
