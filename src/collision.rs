use crate::gameplay_state::TopFloorReachedEvent;
use crate::platforms::Platform;
use crate::player::Player;
use vstd::prelude::*;

verus! {

/// A body that a collision can involve.
#[derive(Clone, Copy, Debug, PartialEq, Eq, Structural)]
pub enum Body {
    /// The player; with the ground sensor pair, its ground sensor.
    Player,
    /// A platform, by its index in the field.
    Platform(usize),
    /// Anything else the physics engine knows of.
    Other(u64),
}

#[derive(Clone, Copy, Debug, PartialEq, Eq, Structural)]
pub enum ContactChange {
    Started,
    Stopped,
}

/// Which of the player's colliders took part.
#[derive(Clone, Copy, Debug, PartialEq, Eq, Structural)]
pub enum ColliderPair {
    MainBody,
    GroundSensor,
}

/// A contact between two bodies that began or ended in the last physics step.
#[derive(Clone, Copy, Debug, PartialEq, Eq, Structural)]
pub struct CollisionEvent {
    pub body_a: Body,
    pub body_b: Body,
    pub change: ContactChange,
    pub pair: ColliderPair,
}

/// The platform that an event between the player and a platform names, in
/// either order.
pub open spec fn touched_platform(e: CollisionEvent) -> Option<int> {
    match e.body_a {
        Body::Player => match e.body_b {
            Body::Platform(i) => Some(i as int),
            _ => None,
        },
        Body::Platform(i) => match e.body_b {
            Body::Player => Some(i as int),
            _ => None,
        },
        _ => None,
    }
}

/// Number of platforms landed on.
pub open spec fn collected_count(ps: Seq<Platform>) -> nat
    decreases ps.len(),
{
    if ps.len() == 0 {
        0
    } else {
        collected_count(ps.drop_last()) + if ps.last().already_collided {
            1nat
        } else {
            0nat
        }
    }
}

/// The score counts exactly the platforms landed on, and fits the score.
pub open spec fn contact_wf(p: Player, ps: Seq<Platform>) -> bool {
    &&& p.score == collected_count(ps)
    &&& ps.len() <= 127
}

/// The player and platforms after one event. Only events between the player
/// and a known platform count: the body's contact sets or clears
/// `player_colliding`, the ground sensor's sets or clears `player_grounded`,
/// and a landing on a platform not yet landed on scores it.
pub open spec fn resolve_event(p: Player, ps: Seq<Platform>, e: CollisionEvent) -> (Player, Seq<
    Platform,
>) {
    let t = touched_platform(e);
    if t.is_some() && t.unwrap() < ps.len() {
        let i = t.unwrap();
        if e.pair == ColliderPair::MainBody {
            (Player { player_colliding: e.change == ContactChange::Started, ..p }, ps)
        } else if e.change == ContactChange::Stopped {
            (Player { player_grounded: false, ..p }, ps)
        } else if ps[i].already_collided {
            (Player { player_grounded: true, ..p }, ps)
        } else {
            (
                Player { player_grounded: true, score: (p.score + 1) as i8, ..p },
                ps.update(i, Platform { already_collided: true, ..ps[i] }),
            )
        }
    } else {
        (p, ps)
    }
}

/// The player and platforms after the events, in order.
pub open spec fn resolve_events(p: Player, ps: Seq<Platform>, es: Seq<CollisionEvent>) -> (Player, Seq<
    Platform,
>)
    decreases es.len(),
{
    if es.len() == 0 {
        (p, ps)
    } else {
        let r = resolve_events(p, ps, es.drop_last());
        resolve_event(r.0, r.1, es.last())
    }
}

/// The platforms differ at most in their landed flags, and none was cleared.
pub open spec fn flags_only_raised(before: Seq<Platform>, after: Seq<Platform>) -> bool {
    &&& after.len() == before.len()
    &&& forall|i: int|
        0 <= i < before.len() ==> #[trigger] after[i] == Platform {
            already_collided: after[i].already_collided,
            ..before[i]
        }
    &&& forall|i: int|
        0 <= i < before.len() && before[i].already_collided ==> #[trigger] after[i].already_collided
}

pub proof fn lemma_collected_count_bound(ps: Seq<Platform>)
    ensures
        collected_count(ps) <= ps.len(),
    decreases ps.len(),
{
    if ps.len() > 0 {
        lemma_collected_count_bound(ps.drop_last());
    }
}

/// Changing one platform changes the count by the change of its flag.
pub proof fn lemma_collected_count_update(ps: Seq<Platform>, i: int, q: Platform)
    requires
        0 <= i < ps.len(),
    ensures
        collected_count(ps.update(i, q)) + (if ps[i].already_collided {
            1int
        } else {
            0int
        }) == collected_count(ps) + (if q.already_collided {
            1int
        } else {
            0int
        }),
    decreases ps.len(),
{
    let us = ps.update(i, q);
    if i == ps.len() - 1 {
        assert(us.drop_last() =~= ps.drop_last());
    } else {
        assert(us.drop_last() =~= ps.drop_last().update(i, q));
        lemma_collected_count_update(ps.drop_last(), i, q);
    }
}

/// Raising landed flags never lowers the count.
pub proof fn lemma_collected_count_monotone(before: Seq<Platform>, after: Seq<Platform>)
    requires
        after.len() == before.len(),
        forall|i: int|
            0 <= i < before.len() && before[i].already_collided ==> #[trigger] after[i].already_collided,
    ensures
        collected_count(before) <= collected_count(after),
    decreases before.len(),
{
    if before.len() > 0 {
        let n = before.len() - 1;
        assert(before[n].already_collided ==> after[n].already_collided);
        lemma_collected_count_monotone(before.drop_last(), after.drop_last());
    }
}

/// One event keeps the score equal to the count of platforms landed on, and
/// only raises landed flags.
pub proof fn lemma_resolve_event_keeps_count(p: Player, ps: Seq<Platform>, e: CollisionEvent)
    requires
        contact_wf(p, ps),
    ensures
        contact_wf(resolve_event(p, ps, e).0, resolve_event(p, ps, e).1),
        flags_only_raised(ps, resolve_event(p, ps, e).1),
        resolve_event(p, ps, e).0 == (Player {
            player_colliding: resolve_event(p, ps, e).0.player_colliding,
            player_grounded: resolve_event(p, ps, e).0.player_grounded,
            score: resolve_event(p, ps, e).0.score,
            ..p
        }),
{
    let t = touched_platform(e);
    if t.is_some() && t.unwrap() < ps.len() {
        let i = t.unwrap();
        if e.pair == ColliderPair::GroundSensor && e.change == ContactChange::Started
            && !ps[i].already_collided {
            let q = Platform { already_collided: true, ..ps[i] };
            lemma_collected_count_update(ps, i, q);
            lemma_collected_count_bound(ps.update(i, q));
        }
    }
}

pub proof fn lemma_resolve_events_keeps_count(p: Player, ps: Seq<Platform>, es: Seq<CollisionEvent>)
    requires
        contact_wf(p, ps),
    ensures
        contact_wf(resolve_events(p, ps, es).0, resolve_events(p, ps, es).1),
        flags_only_raised(ps, resolve_events(p, ps, es).1),
        resolve_events(p, ps, es).0 == (Player {
            player_colliding: resolve_events(p, ps, es).0.player_colliding,
            player_grounded: resolve_events(p, ps, es).0.player_grounded,
            score: resolve_events(p, ps, es).0.score,
            ..p
        }),
    decreases es.len(),
{
    if es.len() > 0 {
        lemma_resolve_events_keeps_count(p, ps, es.drop_last());
        let r = resolve_events(p, ps, es.drop_last());
        lemma_resolve_event_keeps_count(r.0, r.1, es.last());
    }
}

/// Landing on a platform a second time changes nothing: a platform is
/// scored at most once per session.
pub proof fn lemma_repeated_landing_scores_once(p: Player, ps: Seq<Platform>, e: CollisionEvent)
    requires
        contact_wf(p, ps),
        e.pair == ColliderPair::GroundSensor,
        e.change == ContactChange::Started,
    ensures
        ({
            let once = resolve_event(p, ps, e);
            resolve_event(once.0, once.1, e) == once
        }),
{
    let once = resolve_event(p, ps, e);
    let t = touched_platform(e);
    if t.is_some() && t.unwrap() < ps.len() {
        let i = t.unwrap();
        assert(once.1[i].already_collided);
        assert(once.0.player_grounded);
        assert(resolve_event(once.0, once.1, e).0 == once.0);
    }
}

/// Applies one collision event to the player and the platforms.
pub fn resolve_collision(player: &mut Player, platforms: &mut Vec<Platform>, e: &CollisionEvent)
    requires
        contact_wf(*old(player), old(platforms)@),
    ensures
        (*final(player), final(platforms)@) == resolve_event(*old(player), old(platforms)@, *e),
{
    proof {
        lemma_resolve_event_keeps_count(*player, platforms@, *e);
    }
    let target: Option<usize> = match e.body_a {
        Body::Player => match e.body_b {
            Body::Platform(i) => Some(i),
            _ => None,
        },
        Body::Platform(i) => match e.body_b {
            Body::Player => Some(i),
            _ => None,
        },
        _ => None,
    };
    if let Some(i) = target {
        if i < platforms.len() {
            match e.pair {
                ColliderPair::MainBody => {
                    player.player_colliding = match e.change {
                        ContactChange::Started => true,
                        ContactChange::Stopped => false,
                    };
                },
                ColliderPair::GroundSensor => match e.change {
                    ContactChange::Stopped => {
                        player.player_grounded = false;
                    },
                    ContactChange::Started => {
                        player.player_grounded = true;
                        if !platforms[i].already_collided {
                            proof {
                                let q = Platform { already_collided: true, ..platforms@[i as int] };
                                lemma_collected_count_update(platforms@, i as int, q);
                                lemma_collected_count_bound(platforms@.update(i as int, q));
                            }
                            player.score = player.score + 1;
                            let mut q = platforms[i];
                            q.already_collided = true;
                            platforms.set(i, q);
                        }
                    },
                },
            }
        }
    }
}

/// Applies one tick's collision events in order, then raises the top floor
/// event when every platform has been landed on.
pub fn resolve_collisions(
    player: &mut Player,
    platforms: &mut Vec<Platform>,
    events: &Vec<CollisionEvent>,
) -> (r: Option<TopFloorReachedEvent>)
    requires
        contact_wf(*old(player), old(platforms)@),
    ensures
        (*final(player), final(platforms)@) == resolve_events(
            *old(player),
            old(platforms)@,
            events@,
        ),
        contact_wf(*final(player), final(platforms)@),
        flags_only_raised(old(platforms)@, final(platforms)@),
        r.is_some() == (final(player).score == final(platforms)@.len()),
        0 <= final(player).score <= final(platforms)@.len(),
{
    let mut k: usize = 0;
    while k < events.len()
        invariant
            k <= events@.len(),
            (*player, platforms@) == resolve_events(
                *old(player),
                old(platforms)@,
                events@.subrange(0, k as int),
            ),
            contact_wf(*old(player), old(platforms)@),
        decreases events@.len() - k,
    {
        proof {
            lemma_resolve_events_keeps_count(
                *old(player),
                old(platforms)@,
                events@.subrange(0, k as int),
            );
            assert(events@.subrange(0, k + 1).drop_last() =~= events@.subrange(0, k as int));
        }
        resolve_collision(player, platforms, &events[k]);
        k = k + 1;
    }
    proof {
        assert(events@.subrange(0, events@.len() as int) =~= events@);
        lemma_resolve_events_keeps_count(*old(player), old(platforms)@, events@);
        lemma_collected_count_bound(platforms@);
    }
    if player.score as usize == platforms.len() {
        Some(TopFloorReachedEvent)
    } else {
        None
    }
}

} // verus!
