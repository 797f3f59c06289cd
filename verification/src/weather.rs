//! Rain and shine: when the weather turns, and the drops that fall.

use vstd::prelude::*;
use crate::components::{clamp_i64, clamp_to_i64, Position, RainDrop, Velocity};
use crate::constants::{
    BLOCK_SIZE, FIELD_SIZE, RAIN_FALL_VELOCITY, RAIN_LIFETIME, RAIN_SPAWN_HEIGHT, RAIN_SPAWN_RATE,
    SCALE, SUN_ILLUMINANCE_CLEAR, SUN_ILLUMINANCE_RAIN, WEATHER_CLEAR_DURATION_MAX,
    WEATHER_CLEAR_DURATION_MIN, WEATHER_INITIAL_CHANGE_MAX, WEATHER_INITIAL_CHANGE_MIN,
    WEATHER_RAIN_DURATION_MAX, WEATHER_RAIN_DURATION_MIN,
};
use crate::random::random_range;
use crate::resources::WeatherState;

verus! {

/// A change of weather that has just taken place.
#[derive(Clone, Copy, Debug, PartialEq, Eq, Structural)]
pub struct WeatherChange {
    pub is_raining: bool,
    /// The sunlight that goes with the new weather, in lux.
    pub illuminance: u32,
    /// Time until the next change, in microseconds.
    pub time_until_change: u64,
}

/// The sunlight that goes with a kind of weather, in lux.
pub open spec fn illuminance_spec(is_raining: bool) -> u32 {
    if is_raining {
        SUN_ILLUMINANCE_RAIN
    } else {
        SUN_ILLUMINANCE_CLEAR
    }
}

/// The shortest time that a kind of weather lasts.
pub open spec fn duration_min(is_raining: bool) -> u64 {
    if is_raining {
        WEATHER_RAIN_DURATION_MIN
    } else {
        WEATHER_CLEAR_DURATION_MIN
    }
}

/// The time that a kind of weather always stays under.
pub open spec fn duration_max(is_raining: bool) -> u64 {
    if is_raining {
        WEATHER_RAIN_DURATION_MAX
    } else {
        WEATHER_CLEAR_DURATION_MAX
    }
}

/// The sunlight that goes with a kind of weather, in lux.
pub fn sun_illuminance(is_raining: bool) -> (lux: u32)
    ensures
        lux == illuminance_spec(is_raining),
{
    if is_raining {
        SUN_ILLUMINANCE_RAIN
    } else {
        SUN_ILLUMINANCE_CLEAR
    }
}

impl WeatherState {
    /// Clear weather that lasts for `time_until_change`.
    pub fn clear_for(time_until_change: u64) -> (weather: Self)
        ensures
            weather == (WeatherState { is_raining: false, time_until_change: time_until_change }),
    {
        WeatherState { is_raining: false, time_until_change: time_until_change }
    }

    /// The weather at the start of a game: clear, for a time drawn at random
    /// between the two bounds of the first wait.
    pub fn start() -> (weather: Self)
        ensures
            !weather.is_raining,
            WEATHER_INITIAL_CHANGE_MIN <= weather.time_until_change < WEATHER_INITIAL_CHANGE_MAX,
    {
        let mut rng = rand::rng();
        let wait = random_range(&mut rng, WEATHER_INITIAL_CHANGE_MIN, WEATHER_INITIAL_CHANGE_MAX);
        Self::clear_for(wait)
    }

    /// Lets `delta` microseconds pass and says whether the weather is due to
    /// change: it is once the time left is used up.
    pub fn elapse(&mut self, delta: u64) -> (due: bool)
        ensures
            due == (old(self).time_until_change <= delta),
            final(self).is_raining == old(self).is_raining,
            final(self).time_until_change == (if due {
                0
            } else {
                old(self).time_until_change - delta
            }),
    {
        if self.time_until_change <= delta {
            self.time_until_change = 0;
            true
        } else {
            self.time_until_change = self.time_until_change - delta;
            false
        }
    }

    /// Turns the weather into the other kind, to last for `duration`.
    pub fn turn(&mut self, duration: u64) -> (change: WeatherChange)
        ensures
            *final(self) == (WeatherState {
                is_raining: !old(self).is_raining,
                time_until_change: duration,
            }),
            change == (WeatherChange {
                is_raining: !old(self).is_raining,
                illuminance: illuminance_spec(!old(self).is_raining),
                time_until_change: duration,
            }),
    {
        self.is_raining = !self.is_raining;
        self.time_until_change = duration;
        WeatherChange {
            is_raining: self.is_raining,
            illuminance: sun_illuminance(self.is_raining),
            time_until_change: duration,
        }
    }
}

/// One frame of weather: `delta` microseconds pass. While time is left
/// nothing else happens. Once it is used up the weather turns into the other
/// kind, for a time drawn at random within the bounds of that kind.
pub fn update_weather(weather: &mut WeatherState, delta: u64) -> (change: Option<WeatherChange>)
    ensures
        old(weather).time_until_change > delta ==> change is None && *final(weather) == (
        WeatherState {
            is_raining: old(weather).is_raining,
            time_until_change: (old(weather).time_until_change - delta) as u64,
        }),
        old(weather).time_until_change <= delta ==> {
            &&& final(weather).is_raining == !old(weather).is_raining
            &&& duration_min(final(weather).is_raining) <= final(weather).time_until_change
                < duration_max(final(weather).is_raining)
            &&& change == Some(
                WeatherChange {
                    is_raining: final(weather).is_raining,
                    illuminance: illuminance_spec(final(weather).is_raining),
                    time_until_change: final(weather).time_until_change,
                },
            )
        },
{
    let mut rng = rand::rng();
    if weather.elapse(delta) {
        let duration = if !weather.is_raining {
            random_range(&mut rng, WEATHER_RAIN_DURATION_MIN, WEATHER_RAIN_DURATION_MAX)
        } else {
            random_range(&mut rng, WEATHER_CLEAR_DURATION_MIN, WEATHER_CLEAR_DURATION_MAX)
        };
        Some(weather.turn(duration))
    } else {
        None
    }
}

/// The number of drops that `delta` microseconds of rain bring: the spawn
/// rate times the time, rounded down, and no more than `i32::MAX`.
pub open spec fn rain_drop_count_spec(delta: u64) -> int {
    let drops = (RAIN_SPAWN_RATE * delta) / (SCALE as int);
    if drops > i32::MAX {
        i32::MAX as int
    } else {
        drops
    }
}

/// The number of drops that `delta` microseconds of rain bring.
pub fn rain_drop_count(delta: u64) -> (count: u32)
    ensures
        count == rain_drop_count_spec(delta),
{
    let drops: u128 = (RAIN_SPAWN_RATE as u128 * delta as u128) / (SCALE as u128);
    if drops > i32::MAX as u128 {
        i32::MAX as u32
    } else {
        drops as u32
    }
}

/// Width of the square over which rain falls, in millionths of a world unit.
pub const RAIN_AREA_WIDTH: u64 = 144_000_000;

/// A drop of rain that is to appear, and where.
#[derive(Clone, Copy, Debug, PartialEq, Eq, Structural)]
pub struct RainSpawn {
    pub position: Position,
    pub drop: RainDrop,
}

/// A drop as it appears: falling straight down, with its whole life ahead.
pub open spec fn fresh_drop() -> RainDrop {
    RainDrop {
        velocity: Velocity { x: 0, y: RAIN_FALL_VELOCITY, z: 0 },
        lifetime: RAIN_LIFETIME,
    }
}

/// The drop that appears `across` and `along` from the corner of the rain
/// area, both in millionths of a world unit. The area is centred on the
/// origin; the drop starts at the spawn height.
pub open spec fn rain_spawn_spec(across: u64, along: u64) -> RainSpawn {
    RainSpawn {
        position: Position {
            x: (across - RAIN_AREA_WIDTH / 2) as i64,
            y: (RAIN_SPAWN_HEIGHT * SCALE) as i64,
            z: (along - RAIN_AREA_WIDTH / 2) as i64,
        },
        drop: fresh_drop(),
    }
}

/// The drop that appears `across` and `along` from the corner of the rain
/// area.
pub fn rain_spawn_at(across: u64, along: u64) -> (spawn: RainSpawn)
    requires
        across < RAIN_AREA_WIDTH,
        along < RAIN_AREA_WIDTH,
    ensures
        spawn == rain_spawn_spec(across, along),
{
    assert(RAIN_AREA_WIDTH == FIELD_SIZE * BLOCK_SIZE * SCALE);
    assert(RAIN_SPAWN_HEIGHT * SCALE == 200_000_000);
    RainSpawn {
        position: Position {
            x: across as i64 - (RAIN_AREA_WIDTH / 2) as i64,
            y: RAIN_SPAWN_HEIGHT as i64 * SCALE as i64,
            z: along as i64 - (RAIN_AREA_WIDTH / 2) as i64,
        },
        drop: RainDrop {
            velocity: Velocity { x: 0, y: RAIN_FALL_VELOCITY, z: 0 },
            lifetime: RAIN_LIFETIME,
        },
    }
}

/// A spawn lies over the field, at the spawn height, and is fresh.
pub open spec fn is_rain_spawn(spawn: RainSpawn) -> bool {
    &&& -(RAIN_AREA_WIDTH / 2) <= spawn.position.x < RAIN_AREA_WIDTH / 2
    &&& -(RAIN_AREA_WIDTH / 2) <= spawn.position.z < RAIN_AREA_WIDTH / 2
    &&& spawn.position.y == RAIN_SPAWN_HEIGHT * SCALE
    &&& spawn.drop == fresh_drop()
}

/// The drops that appear in a frame of `delta` microseconds. In clear
/// weather there are none. In rain there are as many as the spawn rate
/// gives, each at a place drawn at random over the field.
pub fn spawn_rain(weather: &WeatherState, delta: u64) -> (spawns: Vec<RainSpawn>)
    ensures
        !weather.is_raining ==> spawns.len() == 0,
        weather.is_raining ==> spawns.len() == rain_drop_count_spec(delta),
        forall|i: int| 0 <= i < spawns.len() ==> is_rain_spawn(#[trigger] spawns[i]),
{
    let mut spawns: Vec<RainSpawn> = Vec::new();
    if !weather.is_raining {
        return spawns;
    }
    let mut rng = rand::rng();
    let count = rain_drop_count(delta);
    let mut made: u32 = 0;
    while made < count
        invariant
            made <= count,
            spawns.len() == made,
            forall|i: int| 0 <= i < spawns.len() ==> is_rain_spawn(#[trigger] spawns[i]),
        decreases count - made,
    {
        let across = random_range(&mut rng, 0, RAIN_AREA_WIDTH);
        let along = random_range(&mut rng, 0, RAIN_AREA_WIDTH);
        let spawn = rain_spawn_at(across, along);
        spawns.push(spawn);
        made += 1;
    }
    spawns
}

/// A coordinate after `delta` microseconds at `speed` world units per second,
/// in millionths of a world unit, kept within the range of `i64`.
pub open spec fn moved_spec(coordinate: i64, speed: i32, delta: u64) -> int {
    clamp_i64(coordinate + speed * delta)
}

/// A coordinate after `delta` microseconds at `speed` world units per second.
pub fn moved(coordinate: i64, speed: i32, delta: u64) -> (after: i64)
    ensures
        after == moved_spec(coordinate, speed, delta),
{
    assert(-0x8000_0000 * 0x1_0000_0000_0000_0000 <= speed * delta <= 0x8000_0000
        * 0x1_0000_0000_0000_0000) by (nonlinear_arith)
        requires
            -0x8000_0000 <= speed <= 0x8000_0000,
            0 <= delta <= 0x1_0000_0000_0000_0000,
    ;
    clamp_to_i64(coordinate as i128 + speed as i128 * delta as i128)
}

/// The position of a drop after `delta` microseconds.
pub open spec fn drop_position_after(position: Position, drop: RainDrop, delta: u64) -> Position {
    Position {
        x: moved_spec(position.x, drop.velocity.x, delta) as i64,
        y: moved_spec(position.y, drop.velocity.y, delta) as i64,
        z: moved_spec(position.z, drop.velocity.z, delta) as i64,
    }
}

/// One frame in the life of a drop of rain: it moves on by its velocity and
/// ages by `delta` microseconds. The drop is to go away once it is below the
/// ground or has no time left.
pub fn update_rain(position: &mut Position, drop: &mut RainDrop, delta: u64) -> (despawn: bool)
    ensures
        *final(position) == drop_position_after(*old(position), *old(drop), delta),
        final(drop).velocity == old(drop).velocity,
        final(drop).lifetime == (if old(drop).lifetime <= delta {
            0
        } else {
            old(drop).lifetime - delta
        }),
        despawn == (final(position).y < 0 || old(drop).lifetime <= delta),
{
    position.x = moved(position.x, drop.velocity.x, delta);
    position.y = moved(position.y, drop.velocity.y, delta);
    position.z = moved(position.z, drop.velocity.z, delta);
    let spent = drop.lifetime <= delta;
    if spent {
        drop.lifetime = 0;
    } else {
        drop.lifetime = drop.lifetime - delta;
    }
    position.y < 0 || spent
}

} // verus!
