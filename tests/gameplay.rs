use floor_fifty::collision::{
    resolve_collision, resolve_collisions, Body, ColliderPair, CollisionEvent, ContactChange,
};
use floor_fifty::game_timer::{FinalGameTime, GameTimer};
use floor_fifty::gameplay_state::{
    DeathRegionReachedEvent, GameplayStateSubstates, Session, TickInput, TopFloorReachedEvent,
};
use floor_fifty::platforms::{Platform, PlatformDraw, PlatformType};
use floor_fifty::player::{spawn_player_system, PlayerInput};
use floor_fifty::world::{GameConfig, SpawnCount, Vector2};

fn small_config(spawn_count: i8) -> GameConfig {
    let mut cfg = GameConfig::standard();
    cfg.spawn_count = SpawnCount(spawn_count);
    cfg
}

fn stationary_draws(n: usize) -> Vec<PlatformDraw> {
    (0..n)
        .map(|i| PlatformDraw { x: 1_000 * i as i64, type_roll: 1, speed: 100_000 })
        .collect()
}

fn event(a: Body, b: Body, change: ContactChange, pair: ColliderPair) -> CollisionEvent {
    CollisionEvent { body_a: a, body_b: b, change, pair }
}

fn landing(i: usize) -> CollisionEvent {
    event(Body::Player, Body::Platform(i), ContactChange::Started, ColliderPair::GroundSensor)
}

fn lift_off(i: usize) -> CollisionEvent {
    event(Body::Player, Body::Platform(i), ContactChange::Stopped, ColliderPair::GroundSensor)
}

fn no_keys() -> PlayerInput {
    PlayerInput { left: false, right: false, down: false, respawn: false }
}

fn tick_with(collisions: Vec<CollisionEvent>, y: i64) -> TickInput {
    TickInput {
        keys: no_keys(),
        dt_ms: 16,
        player_position: Vector2 { x: 0, y },
        player_velocity: Vector2 { x: 0, y: 0 },
        collisions,
    }
}

fn session_in_play(spawn_count: i8) -> Session {
    let mut s = Session::with_layout(small_config(spawn_count), &stationary_draws(spawn_count as usize));
    s.tick(&tick_with(vec![], 0));
    assert_eq!(s.phase, GameplayStateSubstates::DuringGame);
    s
}

#[test]
fn landing_on_every_platform_reaches_top_floor() {
    let mut s = session_in_play(2);
    assert_eq!(s.platforms.len(), 3);

    let r = s.tick(&tick_with(vec![landing(0)], 0));
    assert_eq!(s.player.score, 1);
    assert!(r.top_floor_reached.is_none());

    let r = s.tick(&tick_with(vec![lift_off(0), landing(0)], 0));
    assert_eq!(s.player.score, 1);
    assert!(r.top_floor_reached.is_none());
    assert_eq!(s.phase, GameplayStateSubstates::DuringGame);

    let r = s.tick(&tick_with(vec![landing(1), landing(2)], 0));
    assert_eq!(r.top_floor_reached, Some(TopFloorReachedEvent));
    assert!(r.death_region_reached.is_none());
    assert_eq!(s.phase, GameplayStateSubstates::PostGame);
    assert_eq!(s.player.score, 0);
    assert!(s.platforms.iter().all(|p| !p.already_collided));
    assert_eq!(s.final_time, FinalGameTime(48));
}

#[test]
fn score_counts_each_platform_once() {
    let cfg = small_config(2);
    let mut player = spawn_player_system(&cfg);
    let s = Session::with_layout(cfg, &stationary_draws(2));
    let mut platforms = s.platforms.clone();

    let r = resolve_collisions(&mut player, &mut platforms, &vec![landing(0)]);
    assert_eq!(player.score, 1);
    assert!(r.is_none());
    let r = resolve_collisions(&mut player, &mut platforms, &vec![landing(0), landing(0)]);
    assert_eq!(player.score, 1);
    assert!(r.is_none());
    let r = resolve_collisions(&mut player, &mut platforms, &vec![landing(1), landing(2)]);
    assert_eq!(player.score, 3);
    assert_eq!(r, Some(TopFloorReachedEvent));
    assert!(platforms.iter().all(|p| p.already_collided));
}

#[test]
fn falling_below_death_threshold_ends_and_resets_session() {
    let mut cfg = small_config(2);
    cfg.death_threshold = -400;
    let mut s = Session::with_layout(cfg, &stationary_draws(2));
    s.tick(&tick_with(vec![], 0));
    s.tick(&tick_with(vec![landing(1)], 0));
    assert_eq!(s.player.score, 1);

    let r = s.tick(&tick_with(vec![], -401));
    assert_eq!(r.death_region_reached, Some(DeathRegionReachedEvent));
    assert_eq!(s.phase, GameplayStateSubstates::PostGame);
    assert_eq!(s.player.position, Vector2 { x: 0, y: -2 * cfg.player_size });
    assert_eq!(s.player.position, Vector2 { x: 0, y: -99_840 });
    assert_eq!(s.player.score, 0);
    assert!(!s.player.player_grounded);
    assert!(!s.platforms[1].already_collided);
}

#[test]
fn standing_at_death_threshold_is_not_death() {
    let mut cfg = small_config(2);
    cfg.death_threshold = -400;
    let mut s = Session::with_layout(cfg, &stationary_draws(2));
    s.tick(&tick_with(vec![], 0));
    let r = s.tick(&tick_with(vec![], -400));
    assert!(r.death_region_reached.is_none());
    assert_eq!(s.phase, GameplayStateSubstates::DuringGame);
}

#[test]
fn respawn_key_raises_death_region() {
    let mut s = session_in_play(2);
    let mut input = tick_with(vec![], 0);
    input.keys.respawn = true;
    let r = s.tick(&input);
    assert_eq!(r.death_region_reached, Some(DeathRegionReachedEvent));
    assert_eq!(s.phase, GameplayStateSubstates::PostGame);
}

#[test]
fn both_directions_held_face_right_and_cancel() {
    let cfg = GameConfig::standard();
    let mut p = spawn_player_system(&cfg);
    p.player_facing_right = false;
    let input = PlayerInput { left: true, right: true, down: false, respawn: false };
    let r = p.apply_input(&cfg, &input);
    assert!(p.player_facing_right);
    assert_eq!(p.velocity.x, 0);
    assert!(r.is_none());
}

#[test]
fn left_faces_left_and_moves_at_movement_speed() {
    let cfg = GameConfig::standard();
    let mut p = spawn_player_system(&cfg);
    let input = PlayerInput { left: true, right: false, down: false, respawn: false };
    p.apply_input(&cfg, &input);
    assert!(!p.player_facing_right);
    assert_eq!(p.velocity.x, -356_000);
    let input = PlayerInput { left: false, right: true, down: false, respawn: false };
    p.apply_input(&cfg, &input);
    assert!(p.player_facing_right);
    assert_eq!(p.velocity.x, 356_000);
    p.apply_input(&cfg, &no_keys());
    assert!(p.player_facing_right);
    assert_eq!(p.velocity.x, 0);
}

#[test]
fn contact_keeps_jumping_and_down_falls_fast() {
    let cfg = GameConfig::standard();
    let mut p = spawn_player_system(&cfg);
    p.velocity.y = -1_234;
    p.apply_input(&cfg, &no_keys());
    assert_eq!(p.velocity.y, -1_234);
    p.player_colliding = true;
    p.apply_input(&cfg, &no_keys());
    assert_eq!(p.velocity.y, 268_200);
    p.velocity.y = 0;
    p.apply_input(&cfg, &no_keys());
    assert_eq!(p.velocity.y, 268_200);
    let input = PlayerInput { left: false, right: false, down: true, respawn: false };
    p.apply_input(&cfg, &input);
    assert_eq!(p.velocity.y, -1_341_000);
}

#[test]
fn body_contacts_set_and_clear_colliding_in_either_order() {
    let cfg = small_config(2);
    let mut player = spawn_player_system(&cfg);
    let mut platforms = Session::with_layout(cfg, &stationary_draws(2)).platforms;
    let start = event(Body::Platform(2), Body::Player, ContactChange::Started, ColliderPair::MainBody);
    resolve_collision(&mut player, &mut platforms, &start);
    assert!(player.player_colliding);
    assert_eq!(player.score, 0);
    let stop = event(Body::Player, Body::Platform(2), ContactChange::Stopped, ColliderPair::MainBody);
    resolve_collision(&mut player, &mut platforms, &stop);
    assert!(!player.player_colliding);
    let land = event(Body::Platform(1), Body::Player, ContactChange::Started, ColliderPair::GroundSensor);
    resolve_collision(&mut player, &mut platforms, &land);
    assert!(player.player_grounded);
    assert_eq!(player.score, 1);
    assert!(platforms[1].already_collided);
    resolve_collision(&mut player, &mut platforms, &lift_off(1));
    assert!(!player.player_grounded);
    assert!(platforms[1].already_collided);
}

#[test]
fn events_without_a_known_platform_are_ignored() {
    let cfg = small_config(2);
    let mut player = spawn_player_system(&cfg);
    let mut platforms = Session::with_layout(cfg, &stationary_draws(2)).platforms;
    let before_player = player;
    let before = platforms.clone();
    let events = vec![
        landing(3),
        landing(99),
        event(Body::Player, Body::Other(7), ContactChange::Started, ColliderPair::GroundSensor),
        event(Body::Platform(0), Body::Platform(1), ContactChange::Started, ColliderPair::GroundSensor),
        event(Body::Player, Body::Player, ContactChange::Started, ColliderPair::MainBody),
    ];
    let r = resolve_collisions(&mut player, &mut platforms, &events);
    assert!(r.is_none());
    assert_eq!(player, before_player);
    assert_eq!(platforms, before);
}

#[test]
fn reset_clears_score_and_flags() {
    let mut s = session_in_play(3);
    s.tick(&tick_with(vec![landing(0), landing(2)], 0));
    assert_eq!(s.player.score, 2);
    s.player.player_colliding = true;
    s.reset();
    assert_eq!(s.player.score, 0);
    assert!(!s.player.player_colliding);
    assert!(!s.player.player_grounded);
    assert!(s.platforms.iter().all(|p| !p.already_collided));
    assert_eq!(s.phase, GameplayStateSubstates::DuringGame);
}

#[test]
fn reset_returns_moving_platforms_only_when_configured() {
    let draws = vec![PlatformDraw { x: 0, type_roll: 0, speed: 150_000 }];
    let mut cfg = small_config(1);
    let mut s = Session::with_layout(cfg, &draws);
    s.tick(&tick_with(vec![], 0));
    s.tick(&tick_with(vec![], 0));
    assert_eq!(s.platforms[1].position.x, 2_400);
    s.reset();
    assert_eq!(s.platforms[1].position.x, 2_400);

    cfg.reset_moving_platforms = true;
    let mut s = Session::with_layout(cfg, &draws);
    s.tick(&tick_with(vec![], 0));
    s.tick(&tick_with(vec![], 0));
    assert_eq!(s.platforms[1].position.x, 2_400);
    s.reset();
    assert_eq!(s.platforms[1].position.x, 0);
    assert_eq!(s.platforms[1].direction, 1);
}

#[test]
fn phases_advance_pre_during_post_and_restart() {
    let mut s = Session::with_layout(small_config(2), &stationary_draws(2));
    assert_eq!(s.phase, GameplayStateSubstates::PreGame);
    assert_eq!(s.timer, GameTimer { elapsed_ms: 0, paused: true });
    s.tick(&tick_with(vec![landing(0)], 0));
    assert_eq!(s.phase, GameplayStateSubstates::DuringGame);
    assert_eq!(s.player.score, 0);
    assert_eq!(s.timer, GameTimer { elapsed_ms: 0, paused: false });

    s.tick(&tick_with(vec![], 0));
    s.handle_phase_events(None, None);
    assert_eq!(s.phase, GameplayStateSubstates::DuringGame);
    s.handle_phase_events(None, Some(DeathRegionReachedEvent));
    assert_eq!(s.phase, GameplayStateSubstates::PostGame);
    assert_eq!(s.final_time, FinalGameTime(16));
    assert!(s.timer.paused);

    let r = s.tick(&tick_with(vec![landing(0)], -1_000_000_000));
    assert!(r.death_region_reached.is_none());
    assert_eq!(s.player.score, 0);
    assert_eq!(s.timer.elapsed_ms, 16);
    s.start();
    assert_eq!(s.phase, GameplayStateSubstates::PostGame);
    s.handle_phase_events(Some(TopFloorReachedEvent), None);
    assert_eq!(s.phase, GameplayStateSubstates::PostGame);

    s.restart();
    assert_eq!(s.phase, GameplayStateSubstates::PreGame);
    assert_eq!(s.timer, GameTimer { elapsed_ms: 0, paused: true });
    assert_eq!(s.final_time, FinalGameTime(16));
    s.restart();
    assert_eq!(s.phase, GameplayStateSubstates::PreGame);
}

#[test]
fn tick_wraps_player_and_moves_platforms() {
    let draws = vec![
        PlatformDraw { x: 0, type_roll: 4, speed: 150_000 },
        PlatformDraw { x: 500, type_roll: 7, speed: 150_000 },
    ];
    let mut s = Session::with_layout(small_config(2), &draws);
    s.tick(&tick_with(vec![], 0));
    let mut input = tick_with(vec![], 0);
    input.player_position = Vector2 { x: 600_000, y: 5 };
    s.tick(&input);
    assert_eq!(s.player.position, Vector2 { x: -480_000 + 24_960, y: 5 });
    assert_eq!(s.platforms[0].position, Vector2 { x: 0, y: -135_000 });
    assert_eq!(s.platforms[1].position, Vector2 { x: 2_400, y: -6_429 });
    assert_eq!(s.platforms[2].position, Vector2 { x: 500, y: 122_142 });
    assert_eq!(s.platforms[1].platform_type, PlatformType::Moving);
    assert_eq!(s.platforms[2].platform_type, PlatformType::Stationary);
}

#[test]
fn standard_session_starts_with_full_random_field() {
    let cfg = GameConfig::standard();
    let s = Session::new(cfg);
    assert_eq!(s.phase, GameplayStateSubstates::PreGame);
    assert_eq!(s.platforms.len(), 20);
    let anchor: Platform = s.platforms[0];
    assert_eq!(anchor.platform_type, PlatformType::Undefined);
    assert_eq!(anchor.position, Vector2 { x: 0, y: -135_000 });
    for (i, p) in s.platforms.iter().enumerate().skip(1) {
        assert!(p.position.x >= -360_000 && p.position.x < 360_000);
        assert_eq!(p.position.y, -135_000 + 128_571 * i as i64);
        assert_eq!(p.direction, 1);
        assert!(!p.already_collided);
        match p.platform_type {
            PlatformType::Moving => {
                assert!(p.platform_moving_speed >= 100_000 && p.platform_moving_speed < 200_000)
            }
            PlatformType::Stationary => assert_eq!(p.platform_moving_speed, 0),
            PlatformType::Undefined => panic!("generated platform without a type"),
        }
    }
    assert_eq!(s.player.position, Vector2 { x: 0, y: -99_840 });
    assert_eq!(s.player.score, 0);
    assert!(s.player.player_facing_right);
}
