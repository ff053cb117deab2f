use crate::collision::{
    collected_count, contact_wf, flags_only_raised, lemma_collected_count_bound,
    lemma_collected_count_monotone,
    lemma_resolve_events_keeps_count, resolve_collisions, resolve_events, CollisionEvent,
};
use crate::game_timer::{ticked_timer, FinalGameTime, GameTimer};
use crate::platforms::{
    advance_platforms, advanced, anchor_platform, fresh_platform, generated_platform,
    layout_platform_batch, platform_wf, spawn_initial_platform, spawn_platform_batch, draw_wf,
    Platform, PlatformDraw, PlatformType,
};
use crate::player::{
    death_region_reached, looped_player, player_start, player_wf, spawn_player_system,
    spawned_player, steered, Player, PlayerInput,
};
use crate::world::{GameConfig, Vector2};
use vstd::prelude::*;

verus! {

/// The phase of play.
#[derive(Clone, Copy, Debug, PartialEq, Eq, Hash, Structural)]
pub enum GameplayStateSubstates {
    /// Player and platforms are placed; the timer is shown but paused.
    PreGame,
    /// Simulation and scoring run.
    DuringGame,
    /// The session is over and its time recorded.
    PostGame,
}

/// Raised when every platform has been landed on.
#[derive(Clone, Copy, Debug, PartialEq, Eq, Structural)]
pub struct TopFloorReachedEvent;

/// Raised when the player falls into the death region or asks to respawn.
#[derive(Clone, Copy, Debug, PartialEq, Eq, Structural)]
pub struct DeathRegionReachedEvent;

/// What the outside world hands the simulation each tick: the input, the
/// time passed, where the physics step left the player, and the contacts it
/// began or ended.
pub struct TickInput {
    pub keys: PlayerInput,
    pub dt_ms: u32,
    pub player_position: Vector2,
    pub player_velocity: Vector2,
    pub collisions: Vec<CollisionEvent>,
}

/// The events raised during a tick.
#[derive(Clone, Copy, Debug, PartialEq, Eq, Structural)]
pub struct TickReport {
    pub top_floor_reached: Option<TopFloorReachedEvent>,
    pub death_region_reached: Option<DeathRegionReachedEvent>,
}

/// Everything a session of play holds.
pub struct Session {
    pub config: GameConfig,
    pub phase: GameplayStateSubstates,
    pub player: Player,
    /// The anchor platform first, then the generated ones from the bottom up.
    pub platforms: Vec<Platform>,
    pub timer: GameTimer,
    pub final_time: FinalGameTime,
}

pub struct SessionView {
    pub config: GameConfig,
    pub phase: GameplayStateSubstates,
    pub player: Player,
    pub platforms: Seq<Platform>,
    pub timer: GameTimer,
    pub final_time: FinalGameTime,
}

impl View for Session {
    type V = SessionView;

    open spec fn view(&self) -> SessionView {
        SessionView {
            config: self.config,
            phase: self.phase,
            player: self.player,
            platforms: self.platforms@,
            timer: self.timer,
            final_time: self.final_time,
        }
    }
}

impl SessionView {
    /// A session in a valid state: the full platform set, each platform
    /// within bounds, and the score equal to the number of platforms landed
    /// on.
    pub open spec fn wf(&self) -> bool {
        &&& self.config.wf()
        &&& self.platforms.len() == self.config.platform_total()
        &&& contact_wf(self.player, self.platforms)
        &&& player_wf(self.config, self.player)
        &&& forall|i: int|
            0 <= i < self.platforms.len() ==> platform_wf(self.config, #[trigger] self.platforms[i])
    }
}

/// A platform as a session reset leaves it: not landed on, and, where the
/// configuration asks for it, a moving platform back where it was spawned.
pub open spec fn reset_platform(cfg: GameConfig, p: Platform) -> Platform {
    if cfg.reset_moving_platforms && p.platform_type == PlatformType::Moving {
        Platform { already_collided: false, position: p.spawn_position, direction: 1i64, ..p }
    } else {
        Platform { already_collided: false, ..p }
    }
}

/// The session after a reset: the player at the start with no score and no
/// contacts, and no platform landed on.
pub open spec fn session_reset(s: SessionView) -> SessionView {
    SessionView {
        player: Player {
            position: player_start(s.config),
            score: 0,
            player_colliding: false,
            player_grounded: false,
            ..s.player
        },
        platforms: Seq::new(s.platforms.len(), |i: int| reset_platform(s.config, s.platforms[i])),
        ..s
    }
}

/// Entering the post-game phase: the timer stops, its time is recorded, and
/// the session is reset.
pub open spec fn session_finished(s: SessionView) -> SessionView {
    session_reset(
        SessionView {
            phase: GameplayStateSubstates::PostGame,
            timer: GameTimer { paused: true, ..s.timer },
            final_time: FinalGameTime(s.timer.elapsed_ms),
            ..s
        },
    )
}

/// Leaving the pre-game phase starts the timer.
pub open spec fn session_started(s: SessionView) -> SessionView {
    if s.phase == GameplayStateSubstates::PreGame {
        SessionView {
            phase: GameplayStateSubstates::DuringGame,
            timer: GameTimer { paused: false, ..s.timer },
            ..s
        }
    } else {
        s
    }
}

/// A restart after a finished session: back to the pre-game phase with the
/// timer at zero and paused.
pub open spec fn session_restarted(s: SessionView) -> SessionView {
    if s.phase == GameplayStateSubstates::PostGame {
        SessionView {
            phase: GameplayStateSubstates::PreGame,
            timer: GameTimer { elapsed_ms: 0, paused: true },
            ..s
        }
    } else {
        s
    }
}

/// Either event ends a session in play; outside play they change nothing.
pub open spec fn after_phase_events(s: SessionView, top_floor: bool, death: bool) -> SessionView {
    if s.phase == GameplayStateSubstates::DuringGame && (top_floor || death) {
        session_finished(s)
    } else {
        s
    }
}

/// The player as the physics step left it, then after this tick's contacts.
pub open spec fn tick_contacts(s: SessionView, input: TickInput) -> (Player, Seq<Platform>) {
    let p = Player {
        position: input.player_position,
        velocity: input.player_velocity,
        ..s.player
    };
    resolve_events(p, s.platforms, input.collisions@)
}

/// Whether a tick in play raises the top floor event.
pub open spec fn tick_top_floor(s: SessionView, input: TickInput) -> bool {
    s.phase == GameplayStateSubstates::DuringGame && tick_contacts(s, input).0.score
        == tick_contacts(s, input).1.len()
}

/// Whether a tick in play raises the death region event.
pub open spec fn tick_death(s: SessionView, input: TickInput) -> bool {
    s.phase == GameplayStateSubstates::DuringGame && death_region_reached(
        s.config,
        tick_contacts(s, input).0,
        input.keys,
    )
}

/// A tick of play up to the phase check: the timer has run, the contacts
/// are resolved, the input is read, the player has wrapped around the screen
/// and the platforms have moved.
pub open spec fn session_moved(s: SessionView, input: TickInput) -> SessionView {
    let c = tick_contacts(s, input);
    SessionView {
        player: looped_player(s.config, steered(s.config, c.0, input.keys)),
        platforms: Seq::new(c.1.len(), |i: int| advanced(s.config, c.1[i], input.dt_ms as int)),
        timer: ticked_timer(s.timer, input.dt_ms as int),
        ..s
    }
}

/// One tick of play, in order: the timer runs, the contacts are resolved,
/// the input is read, the player wraps around the screen, the platforms
/// move, and a raised event ends the session. A tick before play starts it;
/// a tick after play changes nothing.
pub open spec fn session_ticked(s: SessionView, input: TickInput) -> SessionView {
    if s.phase == GameplayStateSubstates::PreGame {
        session_started(s)
    } else if s.phase == GameplayStateSubstates::PostGame {
        s
    } else {
        after_phase_events(session_moved(s, input), tick_top_floor(s, input), tick_death(s, input))
    }
}

/// The score never leaves `0..=` the number of platforms.
pub proof fn lemma_score_within_platform_count(s: SessionView)
    requires
        s.wf(),
    ensures
        0 <= s.player.score <= s.platforms.len(),
        s.platforms.len() == s.config.platform_total(),
{
    lemma_collected_count_bound(s.platforms);
}

/// After a session reset the score is zero and no platform is landed on.
pub proof fn lemma_reset_clears_session(s: SessionView)
    requires
        s.wf(),
    ensures
        session_reset(s).wf(),
        session_reset(s).player.score == 0,
        session_reset(s).player.position == player_start(s.config),
        forall|i: int|
            0 <= i < session_reset(s).platforms.len() ==> !(
            #[trigger] session_reset(s).platforms[i]).already_collided,
{
    let r = session_reset(s);
    lemma_collected_count_none(r.platforms);
}

proof fn lemma_collected_count_none(ps: Seq<Platform>)
    requires
        forall|i: int| 0 <= i < ps.len() ==> !(#[trigger] ps[i]).already_collided,
    ensures
        collected_count(ps) == 0,
    decreases ps.len(),
{
    if ps.len() > 0 {
        lemma_collected_count_none(ps.drop_last());
    }
}

/// A finished session is a reset one.
pub proof fn lemma_finish_keeps_session_valid(s: SessionView)
    requires
        s.wf(),
    ensures
        session_finished(s).wf(),
        session_finished(s).player.score == 0,
        session_finished(s).phase == GameplayStateSubstates::PostGame,
        session_finished(s).final_time == FinalGameTime(s.timer.elapsed_ms),
{
    let t = SessionView {
        phase: GameplayStateSubstates::PostGame,
        timer: GameTimer { paused: true, ..s.timer },
        final_time: FinalGameTime(s.timer.elapsed_ms),
        ..s
    };
    lemma_reset_clears_session(t);
}

/// A tick keeps the session valid, so the score stays within the platform
/// count at all times.
pub proof fn lemma_tick_keeps_session_valid(s: SessionView, input: TickInput)
    requires
        s.wf(),
    ensures
        s.phase == GameplayStateSubstates::DuringGame ==> session_moved(s, input).wf(),
        session_ticked(s, input).wf(),
        0 <= session_ticked(s, input).player.score <= session_ticked(s, input).platforms.len(),
{
    if s.phase == GameplayStateSubstates::DuringGame {
        let p = Player {
            position: input.player_position,
            velocity: input.player_velocity,
            ..s.player
        };
        lemma_resolve_events_keeps_count(p, s.platforms, input.collisions@);
        let c = tick_contacts(s, input);
        let moved = session_moved(s, input);
        assert forall|i: int| 0 <= i < moved.platforms.len() implies platform_wf(
            s.config,
            #[trigger] moved.platforms[i],
        ) by {
            assert(platform_wf(s.config, c.1[i]));
            lemma_advanced_wf(s.config, c.1[i], input.dt_ms as int);
        }
        lemma_advanced_keeps_count(s.config, c.1, input.dt_ms as int);
        assert(moved.wf());
        if tick_top_floor(s, input) || tick_death(s, input) {
            lemma_finish_keeps_session_valid(moved);
        }
    }
    lemma_score_within_platform_count(session_ticked(s, input));
}

proof fn lemma_advanced_wf(cfg: GameConfig, p: Platform, dt_ms: int)
    requires
        cfg.wf(),
        platform_wf(cfg, p),
        0 <= dt_ms < 0x1_0000_0000,
    ensures
        platform_wf(cfg, advanced(cfg, p, dt_ms)),
        advanced(cfg, p, dt_ms).already_collided == p.already_collided,
{
}

proof fn lemma_advanced_keeps_count(cfg: GameConfig, ps: Seq<Platform>, dt_ms: int)
    ensures
        collected_count(Seq::new(ps.len(), |i: int| advanced(cfg, ps[i], dt_ms)))
            == collected_count(ps),
    decreases ps.len(),
{
    let qs = Seq::new(ps.len(), |i: int| advanced(cfg, ps[i], dt_ms));
    if ps.len() > 0 {
        let front = ps.drop_last();
        lemma_advanced_keeps_count(cfg, front, dt_ms);
        assert(qs.drop_last() =~= Seq::new(front.len(), |i: int| advanced(cfg, front[i], dt_ms)));
    }
}

/// Within a session, a tick only ever raises landed flags: a platform's
/// flag turns from false to true at most once until the session ends.
pub proof fn lemma_tick_never_clears_flags_in_play(s: SessionView, input: TickInput)
    requires
        s.wf(),
        s.phase == GameplayStateSubstates::DuringGame,
        session_ticked(s, input).phase == GameplayStateSubstates::DuringGame,
    ensures
        forall|i: int|
            0 <= i < s.platforms.len() && s.platforms[i].already_collided ==> (
            #[trigger] session_ticked(s, input).platforms[i]).already_collided,
{
    let p = Player {
        position: input.player_position,
        velocity: input.player_velocity,
        ..s.player
    };
    lemma_resolve_events_keeps_count(p, s.platforms, input.collisions@);
    let c = tick_contacts(s, input);
    assert(flags_only_raised(s.platforms, c.1));
    assert forall|i: int|
        0 <= i < s.platforms.len() && s.platforms[i].already_collided implies (
        #[trigger] session_ticked(s, input).platforms[i]).already_collided by {
        assert(c.1[i].already_collided);
    }
}

/// Within a session the score never goes down.
pub proof fn lemma_tick_score_never_drops_in_play(s: SessionView, input: TickInput)
    requires
        s.wf(),
        s.phase == GameplayStateSubstates::DuringGame,
        session_ticked(s, input).phase == GameplayStateSubstates::DuringGame,
    ensures
        s.player.score <= session_ticked(s, input).player.score,
{
    lemma_tick_keeps_session_valid(s, input);
    lemma_tick_never_clears_flags_in_play(s, input);
    lemma_collected_count_monotone(s.platforms, session_ticked(s, input).platforms);
}

impl Session {
    fn assemble(config: GameConfig, batch: Vec<Platform>) -> (r: Session)
        requires
            config.wf(),
            batch@.len() == config.spawn_count.0,
            forall|i: int| 0 <= i < batch@.len() ==> platform_wf(config, #[trigger] batch@[i]),
            forall|i: int| 0 <= i < batch@.len() ==> !(#[trigger] batch@[i]).already_collided,
        ensures
            r@.wf(),
            r.config == config,
            r.phase == GameplayStateSubstates::PreGame,
            r.player == spawned_player(config),
            r.platforms@ == seq![anchor_platform(config)] + batch@,
            r.timer == (GameTimer { elapsed_ms: 0, paused: true }),
            r.final_time == FinalGameTime(0),
    {
        let mut platforms: Vec<Platform> = Vec::new();
        platforms.push(spawn_initial_platform(&config));
        let mut i: usize = 0;
        while i < batch.len()
            invariant
                config.wf(),
                i <= batch@.len(),
                platforms@ == seq![anchor_platform(config)] + batch@.subrange(0, i as int),
            decreases batch@.len() - i,
        {
            platforms.push(batch[i]);
            i = i + 1;
            assert(platforms@ =~= seq![anchor_platform(config)] + batch@.subrange(0, i as int));
        }
        assert(batch@.subrange(0, batch@.len() as int) =~= batch@);
        let r = Session {
            config,
            phase: GameplayStateSubstates::PreGame,
            player: spawn_player_system(&config),
            platforms,
            timer: GameTimer::new(),
            final_time: FinalGameTime(0),
        };
        proof {
            assert forall|j: int| 0 <= j < r.platforms@.len() implies platform_wf(
                config,
                #[trigger] r.platforms@[j],
            ) && !r.platforms@[j].already_collided by {
                if j > 0 {
                    assert(r.platforms@[j] == batch@[j - 1]);
                }
            }
            lemma_collected_count_none(r.platforms@);
        }
        r
    }

    /// A new session in the pre-game phase: the player at the start, and the
    /// anchor platform with a freshly generated batch above it.
    pub fn new(config: GameConfig) -> (r: Session)
        requires
            config.wf(),
        ensures
            r@.wf(),
            r.config == config,
            r.phase == GameplayStateSubstates::PreGame,
            r.player == spawned_player(config),
            r.platforms@[0] == anchor_platform(config),
            forall|i: int| 1 <= i < r.platforms@.len() ==> fresh_platform(config, i, #[trigger] r.platforms@[i]),
            r.timer == (GameTimer { elapsed_ms: 0, paused: true }),
            r.final_time == FinalGameTime(0),
    {
        let batch = spawn_platform_batch(&config);
        let r = Session::assemble(config, batch);
        assert forall|i: int| 1 <= i < r.platforms@.len() implies fresh_platform(
            config,
            i,
            #[trigger] r.platforms@[i],
        ) by {
            assert(r.platforms@[i] == batch@[i - 1]);
        }
        r
    }

    /// A new session in the pre-game phase whose generated platforms come
    /// from the given draws, the first draw for the lowest platform.
    pub fn with_layout(config: GameConfig, draws: &Vec<PlatformDraw>) -> (r: Session)
        requires
            config.wf(),
            draws@.len() == config.spawn_count.0,
            forall|i: int| 0 <= i < draws@.len() ==> draw_wf(config, #[trigger] draws@[i]),
        ensures
            r@.wf(),
            r.config == config,
            r.phase == GameplayStateSubstates::PreGame,
            r.player == spawned_player(config),
            r.platforms@[0] == anchor_platform(config),
            forall|i: int|
                1 <= i < r.platforms@.len() ==> #[trigger] r.platforms@[i] == generated_platform(
                    config,
                    i,
                    draws@[i - 1],
                ),
            r.timer == (GameTimer { elapsed_ms: 0, paused: true }),
            r.final_time == FinalGameTime(0),
    {
        let batch = layout_platform_batch(&config, draws);
        let r = Session::assemble(config, batch);
        assert forall|i: int| 1 <= i < r.platforms@.len() implies #[trigger] r.platforms@[i]
            == generated_platform(config, i, draws@[i - 1]) by {
            assert(r.platforms@[i] == batch@[i - 1]);
        }
        r
    }

    /// Resets the session: the player back at the start with no score and
    /// no contacts, and every platform not landed on.
    pub fn reset(&mut self)
        requires
            old(self)@.wf(),
        ensures
            final(self)@ == session_reset(old(self)@),
            final(self)@.wf(),
            final(self).player.score == 0,
            forall|i: int|
                0 <= i < final(self).platforms@.len() ==> !(
                #[trigger] final(self).platforms@[i]).already_collided,
    {
        proof {
            lemma_reset_clears_session(self@);
        }
        let ghost before = self@;
        self.player.position = Vector2 { x: 0, y: -(2 * self.config.player_size) };
        self.player.score = 0;
        self.player.player_colliding = false;
        self.player.player_grounded = false;
        let mut i: usize = 0;
        while i < self.platforms.len()
            invariant
                before.wf(),
                self.config == before.config,
                self.phase == before.phase,
                self.player == session_reset(before).player,
                self.timer == before.timer,
                self.final_time == before.final_time,
                i <= self.platforms@.len(),
                self.platforms@.len() == before.platforms.len(),
                forall|j: int| 0 <= j < i ==> #[trigger] self.platforms@[j] == reset_platform(self.config, before.platforms[j]),
                forall|j: int| i <= j < self.platforms@.len() ==> #[trigger] self.platforms@[j] == before.platforms[j],
            decreases self.platforms@.len() - i,
        {
            let mut p = self.platforms[i];
            p.already_collided = false;
            if self.config.reset_moving_platforms && p.platform_type == PlatformType::Moving {
                p.position = p.spawn_position;
                p.direction = 1;
            }
            self.platforms.set(i, p);
            i = i + 1;
        }
        assert(self@ == session_reset(before)) by {
            assert(self.platforms@ =~= session_reset(before).platforms);
        }
    }

    /// Ends the session: the timer stops, its time is recorded, and the
    /// session is reset.
    fn finish(&mut self)
        requires
            old(self)@.wf(),
        ensures
            final(self)@ == session_finished(old(self)@),
            final(self)@.wf(),
    {
        proof {
            lemma_finish_keeps_session_valid(self@);
        }
        self.phase = GameplayStateSubstates::PostGame;
        self.timer.pause();
        self.final_time = FinalGameTime(self.timer.elapsed_ms);
        self.reset();
    }

    /// Leaves the pre-game phase for play and starts the timer; in any other
    /// phase nothing changes.
    pub fn start(&mut self)
        requires
            old(self)@.wf(),
        ensures
            final(self)@ == session_started(old(self)@),
            final(self)@.wf(),
    {
        if self.phase == GameplayStateSubstates::PreGame {
            self.phase = GameplayStateSubstates::DuringGame;
            self.timer.unpause();
        }
    }

    /// The restart command: after a finished session, back to the pre-game
    /// phase with the timer at zero; in any other phase nothing changes.
    pub fn restart(&mut self)
        requires
            old(self)@.wf(),
        ensures
            final(self)@ == session_restarted(old(self)@),
            final(self)@.wf(),
    {
        if self.phase == GameplayStateSubstates::PostGame {
            self.phase = GameplayStateSubstates::PreGame;
            self.timer = GameTimer::new();
        }
    }

    /// Consumes the events raised in a tick: either one ends a session in
    /// play; outside play they are ignored.
    pub fn handle_phase_events(
        &mut self,
        top_floor: Option<TopFloorReachedEvent>,
        death: Option<DeathRegionReachedEvent>,
    )
        requires
            old(self)@.wf(),
        ensures
            final(self)@ == after_phase_events(old(self)@, top_floor.is_some(), death.is_some()),
            final(self)@.wf(),
    {
        if self.phase == GameplayStateSubstates::DuringGame && (top_floor.is_some()
            || death.is_some()) {
            self.finish();
        }
    }

    /// One tick of the simulation (see `session_ticked`).
    pub fn tick(&mut self, input: &TickInput) -> (r: TickReport)
        requires
            old(self)@.wf(),
        ensures
            final(self)@ == session_ticked(old(self)@, *input),
            final(self)@.wf(),
            r.top_floor_reached.is_some() == tick_top_floor(old(self)@, *input),
            r.death_region_reached.is_some() == tick_death(old(self)@, *input),
    {
        proof {
            lemma_tick_keeps_session_valid(self@, *input);
        }
        if self.phase == GameplayStateSubstates::PreGame {
            self.start();
            return TickReport { top_floor_reached: None, death_region_reached: None };
        }
        if self.phase == GameplayStateSubstates::PostGame {
            return TickReport { top_floor_reached: None, death_region_reached: None };
        }
        let ghost s0 = self@;
        self.timer.tick(input.dt_ms);
        self.player.position = input.player_position;
        self.player.velocity = input.player_velocity;
        let top_floor = resolve_collisions(&mut self.player, &mut self.platforms, &input.collisions);
        let death = self.player.apply_input(&self.config, &input.keys);
        self.player.loop_around_screen(&self.config);
        let ghost contacts = self.platforms@;
        advance_platforms(&mut self.platforms, &self.config, input.dt_ms);
        proof {
            assert(self.platforms@ =~= Seq::new(
                contacts.len(),
                |i: int| advanced(s0.config, contacts[i], input.dt_ms as int),
            ));
            assert(self@ == session_moved(s0, *input));
        }
        self.handle_phase_events(top_floor, death);
        TickReport { top_floor_reached: top_floor, death_region_reached: death }
    }
}

} // verus!
