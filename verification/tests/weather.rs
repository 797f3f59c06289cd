use fox_field::components::{Position, RainDrop, Velocity};
use fox_field::resources::WeatherState;
use fox_field::weather::{
    moved, rain_drop_count, rain_spawn_at, spawn_rain, sun_illuminance, update_rain,
    update_weather, WeatherChange, RAIN_AREA_WIDTH,
};

#[test]
fn the_sun_is_dimmer_in_rain() {
    assert_eq!(sun_illuminance(false), 30_000);
    assert_eq!(sun_illuminance(true), 8_000);
}

#[test]
fn a_game_starts_in_clear_weather_for_half_a_minute_to_two() {
    for _ in 0..200 {
        let weather = WeatherState::start();
        assert!(!weather.is_raining);
        assert!(weather.time_until_change >= 30_000_000);
        assert!(weather.time_until_change < 120_000_000);
    }
}

#[test]
fn the_first_wait_is_drawn_anew_each_time() {
    let first = WeatherState::start().time_until_change;
    let mut differs = false;
    for _ in 0..200 {
        if WeatherState::start().time_until_change != first {
            differs = true;
        }
    }
    assert!(differs);
}

#[test]
fn time_runs_down_until_the_weather_is_due() {
    let mut weather = WeatherState::clear_for(1_000);
    assert!(!weather.elapse(400));
    assert_eq!(weather, WeatherState { is_raining: false, time_until_change: 600 });
    assert!(!weather.elapse(599));
    assert_eq!(weather.time_until_change, 1);
    assert!(weather.elapse(1));
    assert_eq!(weather.time_until_change, 0);
    let mut weather = WeatherState::clear_for(1_000);
    assert!(weather.elapse(u64::MAX));
    assert_eq!(weather, WeatherState { is_raining: false, time_until_change: 0 });
}

#[test]
fn a_turn_changes_the_kind_of_weather() {
    let mut weather = WeatherState::clear_for(0);
    let change = weather.turn(45_000_000);
    assert_eq!(
        change,
        WeatherChange { is_raining: true, illuminance: 8_000, time_until_change: 45_000_000 }
    );
    assert_eq!(weather, WeatherState { is_raining: true, time_until_change: 45_000_000 });
    let change = weather.turn(70_000_000);
    assert_eq!(
        change,
        WeatherChange { is_raining: false, illuminance: 30_000, time_until_change: 70_000_000 }
    );
    assert_eq!(weather, WeatherState { is_raining: false, time_until_change: 70_000_000 });
}

#[test]
fn the_weather_stays_while_time_is_left() {
    let mut weather = WeatherState { is_raining: true, time_until_change: 5_000_000 };
    assert_eq!(update_weather(&mut weather, 16_667), None);
    assert_eq!(weather, WeatherState { is_raining: true, time_until_change: 4_983_333 });
}

#[test]
fn clear_weather_turns_into_rain_for_half_a_minute_to_three() {
    for _ in 0..200 {
        let mut weather = WeatherState::clear_for(10_000);
        let change = update_weather(&mut weather, 10_000).unwrap();
        assert!(weather.is_raining);
        assert!(weather.time_until_change >= 30_000_000);
        assert!(weather.time_until_change < 180_000_000);
        assert_eq!(
            change,
            WeatherChange {
                is_raining: true,
                illuminance: 8_000,
                time_until_change: weather.time_until_change,
            }
        );
    }
}

#[test]
fn rain_turns_into_clear_weather_for_one_to_five_minutes() {
    for _ in 0..200 {
        let mut weather = WeatherState { is_raining: true, time_until_change: 3 };
        let change = update_weather(&mut weather, 20_000).unwrap();
        assert!(!weather.is_raining);
        assert!(weather.time_until_change >= 60_000_000);
        assert!(weather.time_until_change < 300_000_000);
        assert_eq!(change.illuminance, 30_000);
        assert_eq!(change.time_until_change, weather.time_until_change);
    }
}

#[test]
fn the_rate_of_rain_is_150_drops_a_second() {
    assert_eq!(rain_drop_count(0), 0);
    assert_eq!(rain_drop_count(6_666), 0);
    assert_eq!(rain_drop_count(6_667), 1);
    assert_eq!(rain_drop_count(16_667), 2);
    assert_eq!(rain_drop_count(1_000_000), 150);
    assert_eq!(rain_drop_count(14_316_557_653_333), 2_147_483_647);
    assert_eq!(rain_drop_count(u64::MAX), 2_147_483_647);
}

#[test]
fn a_drop_appears_over_the_field_at_the_spawn_height() {
    let spawn = rain_spawn_at(0, RAIN_AREA_WIDTH - 1);
    assert_eq!(
        spawn.position,
        Position { x: -72_000_000, y: 200_000_000, z: 71_999_999 }
    );
    assert_eq!(
        spawn.drop,
        RainDrop { velocity: Velocity { x: 0, y: -200, z: 0 }, lifetime: 5_000_000 }
    );
    assert_eq!(rain_spawn_at(72_000_000, 72_000_000).position, Position { x: 0, y: 200_000_000, z: 0 });
}

#[test]
fn no_drops_appear_in_clear_weather() {
    let weather = WeatherState::clear_for(5);
    assert!(spawn_rain(&weather, 1_000_000).is_empty());
}

#[test]
fn rain_brings_drops_all_over_the_field() {
    let weather = WeatherState { is_raining: true, time_until_change: 5 };
    let spawns = spawn_rain(&weather, 2_000_000);
    assert_eq!(spawns.len(), 300);
    for spawn in &spawns {
        assert!(spawn.position.x >= -72_000_000 && spawn.position.x < 72_000_000);
        assert!(spawn.position.z >= -72_000_000 && spawn.position.z < 72_000_000);
        assert_eq!(spawn.position.y, 200_000_000);
        assert_eq!(
            spawn.drop,
            RainDrop { velocity: Velocity { x: 0, y: -200, z: 0 }, lifetime: 5_000_000 }
        );
    }
    let first = spawns[0].position;
    assert!(spawns.iter().any(|s| s.position.x != first.x));
    assert!(spawns.iter().any(|s| s.position.z != first.z));
    assert!(spawns.iter().any(|s| s.position.x != -72_000_000));
    assert!(spawn_rain(&weather, 6_000).is_empty());
}

#[test]
fn a_coordinate_moves_by_speed_times_time() {
    assert_eq!(moved(200_000_000, -200, 16_667), 196_666_600);
    assert_eq!(moved(0, 3, 1_000_000), 3_000_000);
    assert_eq!(moved(5, 0, u64::MAX), 5);
    assert_eq!(moved(0, 1, u64::MAX), i64::MAX);
    assert_eq!(moved(0, -1, u64::MAX), i64::MIN);
    assert_eq!(moved(i64::MIN, i32::MIN, u64::MAX), i64::MIN);
    assert_eq!(moved(i64::MAX, i32::MAX, u64::MAX), i64::MAX);
}

#[test]
fn a_drop_falls_and_ages() {
    let mut position = Position { x: 1_000_000, y: 200_000_000, z: -2_000_000 };
    let mut drop = RainDrop { velocity: Velocity { x: 0, y: -200, z: 0 }, lifetime: 5_000_000 };
    assert!(!update_rain(&mut position, &mut drop, 500_000));
    assert_eq!(position, Position { x: 1_000_000, y: 100_000_000, z: -2_000_000 });
    assert_eq!(drop, RainDrop { velocity: Velocity { x: 0, y: -200, z: 0 }, lifetime: 4_500_000 });
    assert!(!update_rain(&mut position, &mut drop, 500_000));
    assert_eq!(position.y, 0);
    assert!(update_rain(&mut position, &mut drop, 1));
    assert_eq!(position.y, -200);
    assert_eq!(drop.lifetime, 3_999_999);
}

#[test]
fn a_drop_goes_away_when_its_time_is_up() {
    let mut position = Position { x: 0, y: 900_000_000, z: 0 };
    let mut drop = RainDrop { velocity: Velocity { x: 1, y: -1, z: 2 }, lifetime: 1_000 };
    assert!(!update_rain(&mut position, &mut drop, 999));
    assert_eq!(drop.lifetime, 1);
    assert_eq!(position, Position { x: 999, y: 899_999_001, z: 1_998 });
    assert!(update_rain(&mut position, &mut drop, 1));
    assert_eq!(drop.lifetime, 0);
    assert!(update_rain(&mut position, &mut drop, 1));
    assert_eq!(drop.lifetime, 0);
}
