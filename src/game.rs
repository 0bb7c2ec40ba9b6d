//! One simulation tick: player control, the swept move, the wall probes and the state
//! transition, in that order.
use vstd::prelude::*;
use crate::geometry::{Rect, Vec2};
use crate::input::{ActionState, Input};
use crate::physics::{
    abs, move_body, shape_at, sweep, within_body_limit, KinematicBody, PhysicsWorld,
    BODY_LIMIT,
};
use crate::player::{
    lemma_fraction, next_state, per_tick, spec_update, Player, MAX_TICK_MICROS, MICROS_PER_SECOND,
};
use crate::sides::CollisionSide;
use crate::world::{is_colliding_with_world, spec_colliding_with_world, LdtkProject};

verus! {

/// Distance of the side probes from the body: 0.1 unit.
pub const SIDE_PROBE_OFFSET: i64 = 1600;

/// The world of one player: the level (absent until loaded), the static colliders of this
/// tick, the player's control state and its body.
pub struct GameWorld {
    pub project: Option<LdtkProject>,
    pub physics: PhysicsWorld,
    pub player: Player,
    pub body: KinematicBody,
}

/// A velocity component times `dt` microseconds, in sub-units, rounded toward zero.
pub open spec fn travel(v: int, dt: int) -> int {
    if v >= 0 {
        per_tick(v, dt)
    } else {
        -per_tick(-v, dt)
    }
}

/// The displacement of a velocity over `dt` microseconds.
pub open spec fn displacement(v: Vec2, dt: u64) -> Vec2 {
    Vec2 { x: travel(v.x as int, dt as int) as i64, y: travel(v.y as int, dt as int) as i64 }
}

/// What is left of a move from `p` by `d` once the target is kept within the world's
/// bounds, `[-BODY_LIMIT, BODY_LIMIT]` on each axis.
pub open spec fn bounded_move(p: int, d: int) -> int {
    if p + d > BODY_LIMIT {
        BODY_LIMIT - p
    } else if p + d < -BODY_LIMIT {
        -BODY_LIMIT - p
    } else {
        d
    }
}

pub open spec fn bounded_displacement(pos: Vec2, d: Vec2) -> Vec2 {
    Vec2 {
        x: bounded_move(pos.x as int, d.x as int) as i64,
        y: bounded_move(pos.y as int, d.y as int) as i64,
    }
}

/// Whether the probe beside the body, `dx` away on the x axis, touches blocking level
/// geometry (other colliders are not consulted).
pub open spec fn probe_touches(project: LdtkProject, body: KinematicBody, dx: int) -> bool {
    spec_colliding_with_world(
        shape_at(body, Vec2 { x: (body.position.x + dx) as i64, y: body.position.y }),
        project,
        body.mask,
    )
}

/// The result of one tick: the player, the body, and the sides that were hit (none when no
/// level is loaded and the move is skipped).
pub open spec fn spec_tick(w: GameWorld, input: Input, now: u64, dt: u64) -> (Player, KinematicBody, Option<CollisionSide>) {
    let (p1, v1) = spec_update(w.player, w.body.velocity, input, now, dt);
    let b1 = KinematicBody { velocity: v1, ..w.body };
    match w.project {
        None => (p1, b1, None),
        Some(project) => {
            let d = bounded_displacement(b1.position, displacement(v1, dt));
            let (pos, vel, sides) = sweep(
                w.physics,
                project,
                b1,
                b1.position,
                v1,
                d,
                CollisionSide::spec_empty(),
            );
            let b2 = KinematicBody { position: pos, velocity: vel, ..b1 };
            let left = probe_touches(project, b2, -SIDE_PROBE_OFFSET);
            let right = probe_touches(project, b2, SIDE_PROBE_OFFSET as int);
            (
                Player { state: next_state(p1.state, sides, left, right, vel.x as int), ..p1 },
                b2,
                Some(sides),
            )
        },
    }
}

/// A velocity component times `dt` microseconds.
fn travel_of(v: i64, dt: u64) -> (r: i64)
    requires
        within_body_limit(v as int),
        dt <= MAX_TICK_MICROS,
    ensures
        r == travel(v as int, dt as int),
        abs(r as int) <= abs(v as int),
{
    let m: i64 = if v >= 0 { v } else { -v };
    proof {
        lemma_fraction(m as int, dt as int, MICROS_PER_SECOND as int);
        assert(dt * m == m * dt) by (nonlinear_arith);
    }
    let t = ((m as i128) * (dt as i128) / (MICROS_PER_SECOND as i128)) as i64;
    if v >= 0 {
        t
    } else {
        -t
    }
}

fn bounded_move_of(p: i64, d: i64) -> (r: i64)
    requires
        within_body_limit(p as int),
        within_body_limit(d as int),
    ensures
        r == bounded_move(p as int, d as int),
        abs(r as int) <= abs(d as int),
        within_body_limit(p + r),
{
    if p + d > BODY_LIMIT {
        BODY_LIMIT - p
    } else if p + d < -BODY_LIMIT {
        -BODY_LIMIT - p
    } else {
        d
    }
}

impl GameWorld {
    /// A well-formed player and body.
    pub open spec fn wf(self) -> bool {
        self.player.wf() && self.body.wf()
    }

    /// Whether the probe `dx` beside the body touches blocking level geometry.
    fn probe(project: &LdtkProject, body: &KinematicBody, dx: i64) -> (r: bool)
        requires
            body.wf(),
            abs(dx as int) <= SIDE_PROBE_OFFSET,
        ensures
            r == probe_touches(*project, *body, dx as int),
    {
        let at = Vec2 { x: body.position.x + dx, y: body.position.y };
        let rect: Rect = body.collision.translate(at);
        assert(rect == shape_at(*body, at));
        is_colliding_with_world(rect, project, body.mask)
    }

    /// One tick of `dt` microseconds at unpaused time `now`: the player steers and jumps,
    /// the body moves by its velocity against the level and the static colliders (unless
    /// no level is loaded), and the player's state follows from where it ended.
    pub fn tick(&mut self, input: &Input, now: u64, dt: u64) -> (r: Option<CollisionSide>)
        requires
            old(self).wf(),
            input.wf(),
            dt <= MAX_TICK_MICROS,
        ensures
            (final(self).player, final(self).body, r) == spec_tick(*old(self), *input, now, dt),
            final(self).project == old(self).project,
            final(self).physics == old(self).physics,
            final(self).wf(),
    {
        self.player.update(&mut self.body.velocity, input, now, dt);
        match &self.project {
            None => None,
            Some(project) => {
                let v = self.body.velocity;
                let p = self.body.position;
                let dx = bounded_move_of(p.x, travel_of(v.x, dt));
                let dy = bounded_move_of(p.y, travel_of(v.y, dt));
                let sides = move_body(&mut self.body, Vec2 { x: dx, y: dy }, &self.physics, project);
                let left = Self::probe(project, &self.body, -SIDE_PROBE_OFFSET);
                let right = Self::probe(project, &self.body, SIDE_PROBE_OFFSET);
                self.player.set_state(sides, left, right, self.body.velocity.x);
                Some(sides)
            },
        }
    }
}

/// Whether the game is loading its level, running, or paused.
#[derive(Clone, Copy, Debug, PartialEq, Eq, Structural)]
pub enum AppState {
    Loading,
    Playing,
    Paused,
}

/// A fresh press of the pause action switches between playing and paused; nothing else
/// changes the state.
pub fn pause_on_esc(state: AppState, pause: ActionState) -> (r: AppState)
    ensures
        r == if pause == ActionState::JustPressed {
            match state {
                AppState::Playing => AppState::Paused,
                AppState::Paused => AppState::Playing,
                AppState::Loading => AppState::Loading,
            }
        } else {
            state
        },
{
    if pause == ActionState::JustPressed {
        match state {
            AppState::Playing => AppState::Paused,
            AppState::Paused => AppState::Playing,
            AppState::Loading => AppState::Loading,
        }
    } else {
        state
    }
}

} // verus!
