use crate::random::draw_in_range;
use crate::world::{GameConfig, Vector2, MAX_EXTENT, MAX_SPEED};
use vstd::prelude::*;

verus! {

/// How a platform behaves. `Undefined` marks the fixed anchor platform.
#[derive(Clone, Copy, Debug, PartialEq, Eq, Structural)]
pub enum PlatformType {
    Undefined,
    Stationary,
    Moving,
}

#[derive(Clone, Copy, Debug, PartialEq, Eq, Structural)]
pub struct Platform {
    pub position: Vector2,
    /// Where the platform was placed when the field was generated.
    pub spawn_position: Vector2,
    /// Set the first time the player lands on the platform in a session.
    pub already_collided: bool,
    pub platform_type: PlatformType,
    /// `1` while moving right, `-1` while moving left.
    pub direction: i64,
    pub platform_moving_speed: i64,
}

/// The random choices behind one generated platform.
#[derive(Clone, Copy, Debug, PartialEq, Eq, Structural)]
pub struct PlatformDraw {
    pub x: i64,
    /// An even roll makes the platform move.
    pub type_roll: i64,
    pub speed: i64,
}

/// Exclusive upper end of a platform's type roll.
pub const TYPE_ROLL_RANGE: i64 = 200;

/// A draw that the generator could have made.
pub open spec fn draw_wf(cfg: GameConfig, d: PlatformDraw) -> bool {
    &&& cfg.left_bound() <= d.x < cfg.right_bound()
    &&& 0 <= d.type_roll
    &&& cfg.min_platform_speed <= d.speed < cfg.max_platform_speed
}

/// Height of the anchor platform.
pub open spec fn anchor_height(cfg: GameConfig) -> int {
    -(cfg.window.height / 4)
}

/// Vertical distance between consecutive platforms: the height over 4.2.
pub open spec fn platform_spacing(cfg: GameConfig) -> int {
    cfg.window.height * 10 / 42
}

/// Height of the generated platform with the given index (the first is 1).
pub open spec fn platform_height(cfg: GameConfig, index: int) -> int {
    anchor_height(cfg) + platform_spacing(cfg) * index
}

pub open spec fn anchor_platform(cfg: GameConfig) -> Platform {
    let pos = Vector2 { x: 0, y: anchor_height(cfg) as i64 };
    Platform {
        position: pos,
        spawn_position: pos,
        already_collided: false,
        platform_type: PlatformType::Undefined,
        direction: 1,
        platform_moving_speed: 0,
    }
}

pub open spec fn generated_platform(cfg: GameConfig, index: int, d: PlatformDraw) -> Platform {
    let pos = Vector2 { x: d.x, y: platform_height(cfg, index) as i64 };
    if d.type_roll % 2 == 0 {
        Platform {
            position: pos,
            spawn_position: pos,
            already_collided: false,
            platform_type: PlatformType::Moving,
            direction: 1,
            platform_moving_speed: d.speed,
        }
    } else {
        Platform {
            position: pos,
            spawn_position: pos,
            already_collided: false,
            platform_type: PlatformType::Stationary,
            direction: 1,
            platform_moving_speed: 0,
        }
    }
}

/// What holds of a generated platform whatever the random draws were.
pub open spec fn fresh_platform(cfg: GameConfig, index: int, p: Platform) -> bool {
    &&& p.spawn_position == p.position
    &&& cfg.left_bound() <= p.position.x < cfg.right_bound()
    &&& p.position.y == platform_height(cfg, index)
    &&& !p.already_collided
    &&& p.direction == 1
    &&& {
        ||| p.platform_type == PlatformType::Moving && cfg.min_platform_speed
            <= p.platform_moving_speed < cfg.max_platform_speed
        ||| p.platform_type == PlatformType::Stationary && p.platform_moving_speed == 0
    }
}

/// A platform that the field keeps: a valid direction and speed, and inside
/// the horizontal bounds.
pub open spec fn platform_wf(cfg: GameConfig, p: Platform) -> bool {
    &&& p.direction == 1 || p.direction == -1
    &&& 0 <= p.platform_moving_speed <= MAX_SPEED
    &&& cfg.left_bound() <= p.position.x <= cfg.right_bound()
    &&& cfg.left_bound() <= p.spawn_position.x <= cfg.right_bound()
}

/// Distance covered at `speed` (per second) in `dt_ms` milliseconds.
pub open spec fn travel(speed: int, dt_ms: int) -> int {
    speed * dt_ms / 1000
}

/// A platform after `dt_ms` milliseconds: a moving one advances in its
/// direction and is stopped at a bound, where its direction turns inward.
pub open spec fn advanced(cfg: GameConfig, p: Platform, dt_ms: int) -> Platform {
    if p.platform_type == PlatformType::Moving {
        let candidate = p.position.x + p.direction * travel(p.platform_moving_speed as int, dt_ms);
        if candidate >= cfg.right_bound() {
            Platform {
                position: Vector2 { x: cfg.right_bound() as i64, ..p.position },
                direction: -1i64,
                ..p
            }
        } else if candidate <= cfg.left_bound() {
            Platform {
                position: Vector2 { x: cfg.left_bound() as i64, ..p.position },
                direction: 1i64,
                ..p
            }
        } else {
            Platform { position: Vector2 { x: candidate as i64, ..p.position }, ..p }
        }
    } else {
        p
    }
}

/// The anchor platform at the bottom of the field.
pub fn spawn_initial_platform(cfg: &GameConfig) -> (r: Platform)
    requires
        cfg.wf(),
    ensures
        r == anchor_platform(*cfg),
        platform_wf(*cfg, r),
{
    let pos = Vector2 { x: 0, y: -(cfg.window.height / 4) };
    Platform {
        position: pos,
        spawn_position: pos,
        already_collided: false,
        platform_type: PlatformType::Undefined,
        direction: 1,
        platform_moving_speed: 0,
    }
}

proof fn lemma_generated_fresh(cfg: GameConfig, index: int, d: PlatformDraw)
    requires
        cfg.wf(),
        draw_wf(cfg, d),
        1 <= index < 127,
    ensures
        fresh_platform(cfg, index, generated_platform(cfg, index, d)),
        platform_wf(cfg, generated_platform(cfg, index, d)),
{
    lemma_platform_height_bounds(cfg, index);
}

proof fn lemma_platform_height_bounds(cfg: GameConfig, index: int)
    requires
        cfg.wf(),
        0 <= index < 127,
    ensures
        -MAX_EXTENT <= platform_height(cfg, index) <= 127 * MAX_EXTENT,
{
    let s = platform_spacing(cfg);
    assert(0 <= s <= MAX_EXTENT) by (nonlinear_arith)
        requires
            s == cfg.window.height * 10 / 42,
            0 < cfg.window.height <= MAX_EXTENT,
    ;
    assert(0 <= s * index <= 126 * MAX_EXTENT) by (nonlinear_arith)
        requires
            0 <= s <= MAX_EXTENT,
            0 <= index < 127,
    ;
}

/// One generated platform, from its index above the anchor and its draw.
pub fn generate_platform(cfg: &GameConfig, index: i64, d: PlatformDraw) -> (r: Platform)
    requires
        cfg.wf(),
        1 <= index < 127,
        draw_wf(*cfg, d),
    ensures
        r == generated_platform(*cfg, index as int, d),
        fresh_platform(*cfg, index as int, r),
        platform_wf(*cfg, r),
{
    proof {
        lemma_platform_height_bounds(*cfg, index as int);
        lemma_generated_fresh(*cfg, index as int, d);
    }
    let spacing: i64 = cfg.window.height * 10 / 42;
    let y: i64 = -(cfg.window.height / 4) + spacing * index;
    let pos = Vector2 { x: d.x, y };
    if d.type_roll % 2 == 0 {
        Platform {
            position: pos,
            spawn_position: pos,
            already_collided: false,
            platform_type: PlatformType::Moving,
            direction: 1,
            platform_moving_speed: d.speed,
        }
    } else {
        Platform {
            position: pos,
            spawn_position: pos,
            already_collided: false,
            platform_type: PlatformType::Stationary,
            direction: 1,
            platform_moving_speed: 0,
        }
    }
}

/// The generated platforms for the given draws, the first at index 1.
pub fn layout_platform_batch(cfg: &GameConfig, draws: &Vec<PlatformDraw>) -> (r: Vec<Platform>)
    requires
        cfg.wf(),
        draws@.len() == cfg.spawn_count.0,
        forall|i: int| 0 <= i < draws@.len() ==> draw_wf(*cfg, #[trigger] draws@[i]),
    ensures
        r@.len() == draws@.len(),
        forall|i: int|
            0 <= i < r@.len() ==> #[trigger] r@[i] == generated_platform(*cfg, i + 1, draws@[i]),
        forall|i: int| 0 <= i < r@.len() ==> fresh_platform(*cfg, i + 1, #[trigger] r@[i]),
        forall|i: int| 0 <= i < r@.len() ==> platform_wf(*cfg, #[trigger] r@[i]),
{
    let mut r: Vec<Platform> = Vec::new();
    let mut i: usize = 0;
    while i < draws.len()
        invariant
            cfg.wf(),
            draws@.len() == cfg.spawn_count.0,
            forall|j: int| 0 <= j < draws@.len() ==> draw_wf(*cfg, #[trigger] draws@[j]),
            i <= draws@.len(),
            r@.len() == i,
            forall|j: int|
                0 <= j < i ==> #[trigger] r@[j] == generated_platform(*cfg, j + 1, draws@[j]),
            forall|j: int| 0 <= j < i ==> fresh_platform(*cfg, j + 1, #[trigger] r@[j]),
            forall|j: int| 0 <= j < i ==> platform_wf(*cfg, #[trigger] r@[j]),
        decreases draws@.len() - i,
    {
        let p = generate_platform(cfg, (i + 1) as i64, draws[i]);
        r.push(p);
        i = i + 1;
    }
    r
}

/// Draws the random choices for the generated platforms: for each, its x in
/// the bounds, its type roll, and its speed.
pub fn draw_platform_batch(cfg: &GameConfig) -> (r: Vec<PlatformDraw>)
    requires
        cfg.wf(),
    ensures
        r@.len() == cfg.spawn_count.0,
        forall|i: int| 0 <= i < r@.len() ==> draw_wf(*cfg, #[trigger] r@[i]),
        forall|i: int| 0 <= i < r@.len() ==> (#[trigger] r@[i]).type_roll < TYPE_ROLL_RANGE,
{
    let left = cfg.left_bound_exec();
    let right = cfg.right_bound_exec();
    let mut rng = rand::thread_rng();
    let mut r: Vec<PlatformDraw> = Vec::new();
    let n: i8 = cfg.spawn_count.0;
    let mut index: i8 = 1;
    while index <= n
        invariant
            cfg.wf(),
            left == cfg.left_bound(),
            right == cfg.right_bound(),
            n == cfg.spawn_count.0,
            1 <= index <= n + 1,
            r@.len() == index - 1,
            forall|i: int| 0 <= i < r@.len() ==> draw_wf(*cfg, #[trigger] r@[i]),
            forall|i: int| 0 <= i < r@.len() ==> (#[trigger] r@[i]).type_roll < TYPE_ROLL_RANGE,
        decreases n + 1 - index,
    {
        let x = draw_in_range(&mut rng, left, right);
        let type_roll = draw_in_range(&mut rng, 0, TYPE_ROLL_RANGE);
        let speed = draw_in_range(&mut rng, cfg.min_platform_speed, cfg.max_platform_speed);
        r.push(PlatformDraw { x, type_roll, speed });
        index = index + 1;
    }
    r
}

/// Generates the platforms above the anchor at random: each at its height,
/// at a random x within the bounds, and by a fair roll either moving at a
/// random speed or stationary.
pub fn spawn_platform_batch(cfg: &GameConfig) -> (r: Vec<Platform>)
    requires
        cfg.wf(),
    ensures
        r@.len() == cfg.spawn_count.0,
        forall|i: int| 0 <= i < r@.len() ==> fresh_platform(*cfg, i + 1, #[trigger] r@[i]),
        forall|i: int| 0 <= i < r@.len() ==> platform_wf(*cfg, #[trigger] r@[i]),
{
    let draws = draw_platform_batch(cfg);
    layout_platform_batch(cfg, &draws)
}

impl Platform {
    /// Moves a moving platform by `dt_ms` milliseconds of travel, turning it
    /// around at the bounds; other platforms stay where they are.
    pub fn advance(&mut self, cfg: &GameConfig, dt_ms: u32)
        requires
            cfg.wf(),
            platform_wf(*cfg, *old(self)),
        ensures
            *final(self) == advanced(*cfg, *old(self), dt_ms as int),
            platform_wf(*cfg, *final(self)),
            cfg.left_bound() <= final(self).position.x <= cfg.right_bound(),
            final(self).direction != old(self).direction ==> (final(self).position.x
                == cfg.left_bound() || final(self).position.x == cfg.right_bound()),
            final(self).position.x == cfg.right_bound() && old(self).platform_type
                == PlatformType::Moving ==> final(self).direction == -1,
            final(self).position.x == cfg.left_bound() && old(self).platform_type
                == PlatformType::Moving ==> final(self).direction == 1,
    {
        if self.platform_type == PlatformType::Moving {
            let left = cfg.left_bound_exec();
            let right = cfg.right_bound_exec();
            let speed = self.platform_moving_speed;
            let dt = dt_ms as i64;
            assert(0 <= speed * dt <= MAX_SPEED * 0x1_0000_0000) by (nonlinear_arith)
                requires
                    0 <= speed <= MAX_SPEED,
                    0 <= dt < 0x1_0000_0000,
            ;
            let distance: i64 = speed * dt / 1000;
            assert(distance == travel(speed as int, dt_ms as int));
            let candidate: i64 = if self.direction == 1 {
                self.position.x + distance
            } else {
                let ghost d = self.direction;
                assert(d * distance == -distance) by (nonlinear_arith)
                    requires
                        d == -1,
                ;
                self.position.x - distance
            };
            if candidate >= right {
                self.position.x = right;
                self.direction = -1;
            } else if candidate <= left {
                self.position.x = left;
                self.direction = 1;
            } else {
                self.position.x = candidate;
            }
        }
    }
}

/// Advances every platform of the field by `dt_ms` milliseconds.
pub fn advance_platforms(platforms: &mut Vec<Platform>, cfg: &GameConfig, dt_ms: u32)
    requires
        cfg.wf(),
        forall|i: int| 0 <= i < old(platforms)@.len() ==> platform_wf(*cfg, #[trigger] old(platforms)@[i]),
    ensures
        final(platforms)@.len() == old(platforms)@.len(),
        forall|i: int|
            0 <= i < final(platforms)@.len() ==> #[trigger] final(platforms)@[i] == advanced(
                *cfg,
                old(platforms)@[i],
                dt_ms as int,
            ),
        forall|i: int| 0 <= i < final(platforms)@.len() ==> platform_wf(*cfg, #[trigger] final(platforms)@[i]),
{
    let mut i: usize = 0;
    while i < platforms.len()
        invariant
            cfg.wf(),
            i <= platforms@.len(),
            platforms@.len() == old(platforms)@.len(),
            forall|j: int| 0 <= j < i ==> #[trigger] platforms@[j] == advanced(*cfg, old(platforms)@[j], dt_ms as int),
            forall|j: int| i <= j < platforms@.len() ==> #[trigger] platforms@[j] == old(platforms)@[j],
            forall|j: int| 0 <= j < platforms@.len() ==> platform_wf(*cfg, #[trigger] platforms@[j]),
        decreases platforms@.len() - i,
    {
        let mut p = platforms[i];
        p.advance(cfg, dt_ms);
        platforms.set(i, p);
        i = i + 1;
    }
}

} // verus!
