use crate::gameplay_state::DeathRegionReachedEvent;
use crate::world::{GameConfig, Vector2, MAX_EXTENT};
use vstd::prelude::*;

verus! {

#[derive(Clone, Copy, Debug, PartialEq, Eq, Structural)]
pub struct Player {
    pub position: Vector2,
    /// The velocity the player asks the physics engine for.
    pub velocity: Vector2,
    pub movement_speed: i64,
    pub jump_force: i64,
    /// The player's body touches a platform.
    pub player_colliding: bool,
    /// The player's ground sensor touches a platform.
    pub player_grounded: bool,
    pub player_facing_right: bool,
    /// Platforms landed on in this session.
    pub score: i8,
}

/// The keys held (and the respawn key just pressed) in one tick.
#[derive(Clone, Copy, Debug, PartialEq, Eq, Structural)]
pub struct PlayerInput {
    pub left: bool,
    pub right: bool,
    pub down: bool,
    pub respawn: bool,
}

/// Where the player starts, and returns to on a session reset.
pub open spec fn player_start(cfg: GameConfig) -> Vector2 {
    Vector2 { x: 0, y: (-(2 * cfg.player_size)) as i64 }
}

pub open spec fn spawned_player(cfg: GameConfig) -> Player {
    Player {
        position: player_start(cfg),
        velocity: Vector2 { x: 0, y: 0 },
        movement_speed: cfg.movement_speed,
        jump_force: cfg.jump_force,
        player_colliding: false,
        player_grounded: false,
        player_facing_right: true,
        score: 0,
    }
}

/// The player carries the configured tuning.
pub open spec fn player_wf(cfg: GameConfig, p: Player) -> bool {
    &&& p.movement_speed == cfg.movement_speed
    &&& p.jump_force == cfg.jump_force
}

/// `-1` for left, `1` for right, `0` for neither or both.
pub open spec fn horizontal_intent(input: PlayerInput) -> int {
    (if input.right { 1int } else { 0int }) - (if input.left { 1int } else { 0int })
}

/// The player after reading one tick's input: horizontal speed from the
/// intent, a jump while touching a platform, a fast fall while down is held,
/// and the facing of the last key looked at, right after left.
pub open spec fn steered(cfg: GameConfig, p: Player, input: PlayerInput) -> Player {
    let vx = horizontal_intent(input) * p.movement_speed;
    let vy = if input.down {
        -(p.jump_force * cfg.fast_fall_multiplier)
    } else if p.player_colliding {
        p.jump_force as int
    } else {
        p.velocity.y as int
    };
    let facing = if input.right {
        true
    } else if input.left {
        false
    } else {
        p.player_facing_right
    };
    Player { velocity: Vector2 { x: vx as i64, y: vy as i64 }, player_facing_right: facing, ..p }
}

/// The respawn key was pressed, or the player is below the death threshold.
pub open spec fn death_region_reached(cfg: GameConfig, p: Player, input: PlayerInput) -> bool {
    input.respawn || p.position.y < cfg.death_threshold
}

/// The x a player at `x` is moved to: past the right edge of the world by
/// more than half its size it reappears at the left edge, and the mirror
/// image on the left.
pub open spec fn wrapped_x(x: int, width: int, half_size: int) -> int {
    if x > width / 2 + half_size {
        -(width / 2) + half_size
    } else if x < -(width / 2 + half_size) {
        width / 2 - half_size
    } else {
        x
    }
}

/// The player moved to the other side of the world once it has left it.
pub open spec fn looped_player(cfg: GameConfig, p: Player) -> Player {
    Player {
        position: Vector2 {
            x: wrapped_x(p.position.x as int, cfg.window.width as int, cfg.player_size / 2) as i64,
            ..p.position
        },
        ..p
    }
}

/// A fresh player at the start position.
pub fn spawn_player_system(cfg: &GameConfig) -> (r: Player)
    requires
        cfg.wf(),
    ensures
        r == spawned_player(*cfg),
        player_wf(*cfg, r),
{
    Player {
        position: Vector2 { x: 0, y: -(2 * cfg.player_size) },
        velocity: Vector2 { x: 0, y: 0 },
        movement_speed: cfg.movement_speed,
        jump_force: cfg.jump_force,
        player_colliding: false,
        player_grounded: false,
        player_facing_right: true,
        score: 0,
    }
}

/// Screen wrap of one coordinate.
pub fn wrap_x(x: i64, width: i64, half_size: i64) -> (r: i64)
    requires
        0 < width <= MAX_EXTENT,
        0 <= half_size <= MAX_EXTENT,
    ensures
        r == wrapped_x(x as int, width as int, half_size as int),
{
    let half_width = width / 2;
    if x > half_width + half_size {
        -half_width + half_size
    } else if x < -(half_width + half_size) {
        half_width - half_size
    } else {
        x
    }
}

impl Player {
    /// Reads one tick's input: sets the velocity and facing, and raises the
    /// death region event on a respawn request or below the death threshold.
    pub fn apply_input(&mut self, cfg: &GameConfig, input: &PlayerInput) -> (r: Option<
        DeathRegionReachedEvent,
    >)
        requires
            cfg.wf(),
            player_wf(*cfg, *old(self)),
        ensures
            *final(self) == steered(*cfg, *old(self), *input),
            r.is_some() == death_region_reached(*cfg, *old(self), *input),
            player_wf(*cfg, *final(self)),
    {
        let mut x_input: i64 = 0;
        if input.right {
            x_input = x_input + 1;
        }
        if input.left {
            x_input = x_input - 1;
        }
        assert(x_input == horizontal_intent(*input));
        let speed = self.movement_speed;
        let vx: i64 = if x_input == 1 {
            speed
        } else if x_input == -1 {
            -speed
        } else {
            0
        };
        let ghost h = horizontal_intent(*input);
        assert(vx == h * speed) by (nonlinear_arith)
            requires
                h == x_input,
                x_input == 1 ==> vx == speed,
                x_input == -1 ==> vx == -speed,
                x_input != 1 && x_input != -1 ==> vx == 0,
                -1 <= x_input <= 1,
        ;
        self.velocity.x = vx;
        if self.player_colliding {
            self.velocity.y = self.jump_force;
        }
        if input.down {
            let force = self.jump_force;
            let k = cfg.fast_fall_multiplier;
            assert(0 <= force * k <= crate::world::MAX_SPEED);
            self.velocity.y = -(force * k);
        }
        if input.right {
            self.player_facing_right = true;
        } else if input.left {
            self.player_facing_right = false;
        }
        if input.respawn || self.position.y < cfg.death_threshold {
            Some(DeathRegionReachedEvent)
        } else {
            None
        }
    }

    /// Moves the player to the other side of the world once it has left it.
    pub fn loop_around_screen(&mut self, cfg: &GameConfig)
        requires
            cfg.wf(),
        ensures
            *final(self) == looped_player(*cfg, *old(self)),
    {
        self.position.x = wrap_x(self.position.x, cfg.window.width, cfg.player_size / 2);
    }
}

} // verus!
