use vstd::prelude::*;

verus! {

/// Largest magnitude of a configured length (thousandths of a pixel).
pub const MAX_EXTENT: i64 = 1_000_000_000_000;

/// Largest configured speed (thousandths of a pixel per second).
pub const MAX_SPEED: i64 = 1_000_000_000;

/// A point or a velocity in the plane.
#[derive(Clone, Copy, Debug, PartialEq, Eq, Structural)]
pub struct Vector2 {
    pub x: i64,
    pub y: i64,
}

/// The size of the visible world.
#[derive(Clone, Copy, Debug, PartialEq, Eq, Structural)]
pub struct WindowDimensions {
    pub width: i64,
    pub height: i64,
}

/// How many platforms are generated above the anchor platform.
#[derive(Clone, Copy, Debug, PartialEq, Eq, Structural)]
pub struct SpawnCount(pub i8);

/// The constants a session is played with.
#[derive(Clone, Copy, Debug, PartialEq, Eq, Structural)]
pub struct GameConfig {
    pub window: WindowDimensions,
    pub spawn_count: SpawnCount,
    /// Width of a platform's footprint.
    pub platform_width: i64,
    /// Side of the player's square sprite.
    pub player_size: i64,
    pub movement_speed: i64,
    pub jump_force: i64,
    /// Fast fall drops at `jump_force` times this factor.
    pub fast_fall_multiplier: i64,
    /// Below this height the player has fallen into the death region.
    pub death_threshold: i64,
    /// Moving platforms get a speed in `[min_platform_speed, max_platform_speed)`.
    pub min_platform_speed: i64,
    pub max_platform_speed: i64,
    /// Whether a session reset also brings moving platforms back to where
    /// they were spawned.
    pub reset_moving_platforms: bool,
}

impl GameConfig {
    pub open spec fn wf(&self) -> bool {
        &&& 0 < self.window.width <= MAX_EXTENT
        &&& 0 < self.window.height <= MAX_EXTENT
        &&& 0 <= self.spawn_count.0 < 127
        &&& 0 < self.platform_width < self.window.width / 2
        &&& 0 < self.player_size <= MAX_EXTENT
        &&& 0 <= self.movement_speed <= MAX_SPEED
        &&& 0 <= self.jump_force <= MAX_SPEED
        &&& 0 <= self.fast_fall_multiplier
        &&& self.jump_force * self.fast_fall_multiplier <= MAX_SPEED
        &&& -MAX_EXTENT <= self.death_threshold <= MAX_EXTENT
        &&& 0 <= self.min_platform_speed < self.max_platform_speed <= MAX_SPEED
    }

    /// Leftmost x a generated platform may take.
    pub open spec fn left_bound(&self) -> int {
        -(self.window.width / 2 - self.platform_width)
    }

    /// Rightmost x a generated platform may take.
    pub open spec fn right_bound(&self) -> int {
        self.window.width / 2 - self.platform_width
    }

    /// Total number of platforms: the anchor and the generated ones.
    pub open spec fn platform_total(&self) -> int {
        self.spawn_count.0 + 1
    }

    pub fn left_bound_exec(&self) -> (r: i64)
        requires
            self.wf(),
        ensures
            r == self.left_bound(),
            r < 0,
    {
        -(self.window.width / 2 - self.platform_width)
    }

    pub fn right_bound_exec(&self) -> (r: i64)
        requires
            self.wf(),
        ensures
            r == self.right_bound(),
            r > 0,
    {
        self.window.width / 2 - self.platform_width
    }

    /// The game as it is shipped: a 960 x 540 window, nineteen generated
    /// platforms, and the player's tuning.
    pub fn standard() -> (r: GameConfig)
        ensures
            r.wf(),
            r == (GameConfig {
                window: WindowDimensions { width: 960_000, height: 540_000 },
                spawn_count: SpawnCount(19),
                platform_width: 120_000,
                player_size: 49_920,
                movement_speed: 356_000,
                jump_force: 268_200,
                fast_fall_multiplier: 5,
                death_threshold: -400_000i64,
                min_platform_speed: 100_000,
                max_platform_speed: 200_000,
                reset_moving_platforms: false,
            }),
    {
        GameConfig {
            window: WindowDimensions { width: 960_000, height: 540_000 },
            spawn_count: SpawnCount(19),
            platform_width: 120_000,
            player_size: 49_920,
            movement_speed: 356_000,
            jump_force: 268_200,
            fast_fall_multiplier: 5,
            death_threshold: -400_000,
            min_platform_speed: 100_000,
            max_platform_speed: 200_000,
            reset_moving_platforms: false,
        }
    }
}

} // verus!
