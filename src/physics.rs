//! Static colliders and the swept kinematic mover.
use vstd::prelude::*;
use vstd::arithmetic::div_mod::{lemma_div_is_ordered, lemma_div_multiples_vanish};
use crate::geometry::{Rect, Vec2};
use crate::sides::{CollisionSide, Side};
use crate::world::{LdtkProject, LevelTile, is_colliding_with_world, spec_colliding_with_world};

verus! {

/// Longest sub-step of the mover (0.1 unit), measured as the sum of its x and y parts, so
/// that its straight length is no longer either.
pub const MAX_STEP_LENGTH: i64 = 1600;

/// Largest magnitude of a body's position, of its shape's corners and of one move.
pub const BODY_LIMIT: i64 = 1_000_000_000_000;

pub open spec fn within_body_limit(v: int) -> bool {
    -BODY_LIMIT <= v <= BODY_LIMIT
}

pub open spec fn abs(v: int) -> int {
    if v >= 0 {
        v
    } else {
        -v
    }
}

/// Snapshot of the static colliders of one tick: each entity with its world-space rectangle.
pub struct PhysicsWorld {
    pub collisions: Vec<(u64, Rect)>,
}

/// The first collider from index `i` on, other than `this`, that intersects `rect`.
pub open spec fn first_hit_from(cols: Seq<(u64, Rect)>, i: int, rect: Rect, this: u64) -> Option<
    u64,
>
    decreases cols.len() - i,
{
    if i < 0 || i >= cols.len() {
        None
    } else if cols[i].0 != this && cols[i].1.spec_intersects(rect) {
        Some(cols[i].0)
    } else {
        first_hit_from(cols, i + 1, rect, this)
    }
}

/// Some collider other than `this` intersects `rect`.
pub open spec fn any_hit(cols: Seq<(u64, Rect)>, rect: Rect, this: u64) -> bool {
    exists|j: int| 0 <= j < cols.len() && cols[j].0 != this && (#[trigger] cols[j]).1.spec_intersects(rect)
}

proof fn lemma_first_hit(cols: Seq<(u64, Rect)>, i: int, rect: Rect, this: u64)
    requires
        0 <= i <= cols.len(),
    ensures
        first_hit_from(cols, i, rect, this) is Some <==> exists|j: int|
            i <= j < cols.len() && cols[j].0 != this && (#[trigger] cols[j]).1.spec_intersects(rect),
    decreases cols.len() - i,
{
    if i < cols.len() {
        lemma_first_hit(cols, i + 1, rect, this);
    }
}

/// A static collider: an entity's local rectangle placed at its position.
pub struct StaticCollider {
    pub entity: u64,
    pub rect: Rect,
    pub position: Vec2,
}

pub open spec fn placed(c: StaticCollider) -> Rect {
    Rect {
        min: Vec2 { x: (c.rect.min.x + c.position.x) as i64, y: (c.rect.min.y + c.position.y) as i64 },
        max: Vec2 { x: (c.rect.max.x + c.position.x) as i64, y: (c.rect.max.y + c.position.y) as i64 },
    }
}

pub open spec fn collider_in_range(c: StaticCollider) -> bool {
    within_body_limit(c.rect.min.x as int) && within_body_limit(c.rect.min.y as int)
        && within_body_limit(c.rect.max.x as int) && within_body_limit(c.rect.max.y as int)
        && within_body_limit(c.position.x as int) && within_body_limit(c.position.y as int)
}

impl PhysicsWorld {
    /// The snapshot of a set of static colliders, each rectangle moved to its position.
    pub fn from_colliders(colliders: &Vec<StaticCollider>) -> (r: PhysicsWorld)
        requires
            forall|i: int| 0 <= i < colliders@.len() ==> collider_in_range(#[trigger] colliders@[i]),
        ensures
            r.collisions@.len() == colliders@.len(),
            forall|i: int|
                0 <= i < colliders@.len() ==> (#[trigger] r.collisions@[i]) == (
                colliders@[i].entity,
                placed(colliders@[i]),
                ),
    {
        let mut collisions: Vec<(u64, Rect)> = Vec::new();
        let mut i: usize = 0;
        while i < colliders.len()
            invariant
                i <= colliders@.len(),
                collisions@.len() == i,
                forall|i: int| 0 <= i < colliders@.len() ==> collider_in_range(#[trigger] colliders@[i]),
                forall|j: int|
                    0 <= j < i ==> (#[trigger] collisions@[j]) == (
                    colliders@[j].entity,
                    placed(colliders@[j]),
                    ),
            decreases colliders@.len() - i,
        {
            let c = &colliders[i];
            collisions.push((c.entity, c.rect.translate(c.position)));
            i = i + 1;
        }
        PhysicsWorld { collisions }
    }

    /// The first collider, other than `this_entity`, whose rectangle intersects `rect`.
    pub fn get_rect_collisions(&self, rect: Rect, this_entity: u64) -> (r: Option<u64>)
        ensures
            r == first_hit_from(self.collisions@, 0, rect, this_entity),
            r is Some <==> any_hit(self.collisions@, rect, this_entity),
    {
        proof {
            lemma_first_hit(self.collisions@, 0, rect, this_entity);
        }
        let mut i: usize = 0;
        while i < self.collisions.len()
            invariant
                i <= self.collisions@.len(),
                first_hit_from(self.collisions@, 0, rect, this_entity) == first_hit_from(
                    self.collisions@,
                    i as int,
                    rect,
                    this_entity,
                ),
            decreases self.collisions@.len() - i,
        {
            let (other, other_rect) = self.collisions[i];
            if other != this_entity && other_rect.intersects(rect) {
                return Some(other);
            }
            i = i + 1;
        }
        None
    }
}

/// A body moved by the mover: its entity, position and velocity (sub-units per second),
/// its rectangle relative to its position, and the level tile category that blocks it.
#[derive(Clone, Copy, Debug, PartialEq, Eq, Structural)]
pub struct KinematicBody {
    pub entity: u64,
    pub position: Vec2,
    pub velocity: Vec2,
    pub collision: Rect,
    pub mask: LevelTile,
}

impl KinematicBody {
    /// Position, velocity and shape within the supported range.
    pub open spec fn wf(self) -> bool {
        self.position.in_body_range() && self.velocity.in_body_range()
            && self.collision.min.in_body_range() && self.collision.max.in_body_range()
    }

    /// A body at rest at `position`, blocked by solid tiles.
    pub fn new(entity: u64, position: Vec2, collision: Rect) -> (r: KinematicBody)
        ensures
            r.entity == entity,
            r.position == position,
            r.velocity == Vec2::spec_zero(),
            r.collision == collision,
            r.mask == LevelTile::Solid,
    {
        KinematicBody { entity, position, velocity: Vec2::zero(), collision, mask: LevelTile::Solid }
    }

    /// Places the body at `position` and stops it.
    pub fn teleport_to(&mut self, position: Vec2)
        ensures
            *final(self) == (KinematicBody { position, velocity: Vec2::spec_zero(), ..*old(self) }),
    {
        self.position = position;
        self.velocity = Vec2::zero();
    }
}

impl Vec2 {
    pub open spec fn spec_zero() -> Vec2 {
        Vec2 { x: 0, y: 0 }
    }

    pub open spec fn in_body_range(self) -> bool {
        within_body_limit(self.x as int) && within_body_limit(self.y as int)
    }
}

/// The body's rectangle placed at `pos`.
pub open spec fn shape_at(body: KinematicBody, pos: Vec2) -> Rect {
    Rect {
        min: Vec2 { x: (body.collision.min.x + pos.x) as i64, y: (body.collision.min.y + pos.y) as i64 },
        max: Vec2 { x: (body.collision.max.x + pos.x) as i64, y: (body.collision.max.y + pos.y) as i64 },
    }
}

/// Whether the body, placed at `pos`, overlaps another collider or blocking level geometry.
pub open spec fn colliding_at(pw: PhysicsWorld, project: LdtkProject, body: KinematicBody, pos: Vec2) -> bool {
    any_hit(pw.collisions@, shape_at(body, pos), body.entity) || spec_colliding_with_world(
        shape_at(body, pos),
        project,
        body.mask,
    )
}

/// Whether a position lies within twice the body limit: where the mover may take a body.
pub open spec fn in_sweep_range(pos: Vec2) -> bool {
    abs(pos.x as int) <= 2 * BODY_LIMIT && abs(pos.y as int) <= 2 * BODY_LIMIT
}

/// Whether the body, placed at `pos`, collides.
fn is_colliding(pw: &PhysicsWorld, project: &LdtkProject, body: &KinematicBody, pos: Vec2) -> (r: bool)
    requires
        body.wf(),
        in_sweep_range(pos),
    ensures
        r == colliding_at(*pw, *project, *body, pos),
{
    let rect = body.collision.translate(pos);
    pw.get_rect_collisions(rect, body.entity).is_some() || is_colliding_with_world(
        rect,
        project,
        body.mask,
    )
}

/// `a * MAX_STEP_LENGTH / len`, rounded toward zero.
pub open spec fn scale_toward(a: int, len: int) -> int {
    if a >= 0 {
        a * MAX_STEP_LENGTH / len
    } else {
        -((-a) * MAX_STEP_LENGTH / len)
    }
}

/// The length of a displacement along the grid: its x and y distances added.
pub open spec fn path_len(d: Vec2) -> int {
    abs(d.x as int) + abs(d.y as int)
}

/// One sub-step toward `rem`: all of it when its path length is at most
/// `MAX_STEP_LENGTH`; else `rem` scaled to that path length, each axis rounded toward zero.
pub open spec fn step_of(rem: Vec2) -> Vec2 {
    if path_len(rem) <= MAX_STEP_LENGTH {
        rem
    } else {
        Vec2 {
            x: scale_toward(rem.x as int, path_len(rem)) as i64,
            y: scale_toward(rem.y as int, path_len(rem)) as i64,
        }
    }
}

pub open spec fn horizontal_side(vel: Vec2) -> Side {
    if vel.x > 0 {
        Side::Right
    } else {
        Side::Left
    }
}

pub open spec fn vertical_side(vel: Vec2) -> Side {
    if vel.y > 0 {
        Side::Up
    } else {
        Side::Down
    }
}

pub open spec fn measure(rem: Vec2) -> nat {
    (abs(rem.x as int) + abs(rem.y as int)) as nat
}

pub open spec fn plus(a: Vec2, b: Vec2) -> Vec2 {
    Vec2 { x: (a.x + b.x) as i64, y: (a.y + b.y) as i64 }
}

pub open spec fn minus(a: Vec2, b: Vec2) -> Vec2 {
    Vec2 { x: (a.x - b.x) as i64, y: (a.y - b.y) as i64 }
}

proof fn lemma_scale(a: int, len: int)
    requires
        0 <= a <= len,
        len > MAX_STEP_LENGTH,
    ensures
        0 <= a * MAX_STEP_LENGTH / len <= a,
        a * MAX_STEP_LENGTH / len <= MAX_STEP_LENGTH,
        2 * a >= len ==> a * MAX_STEP_LENGTH / len >= 1,
{
    if 2 * a >= len {
        assert(a * MAX_STEP_LENGTH >= len) by (nonlinear_arith)
            requires
                2 * a >= len,
                len > MAX_STEP_LENGTH,
        ;
        lemma_div_is_ordered(len, a * MAX_STEP_LENGTH, len);
        vstd::arithmetic::div_mod::lemma_div_by_self(len);
    }
    assert(0 <= a * MAX_STEP_LENGTH <= a * len) by (nonlinear_arith)
        requires
            0 <= a,
            len > MAX_STEP_LENGTH,
    ;
    assert(a * MAX_STEP_LENGTH <= len * MAX_STEP_LENGTH) by (nonlinear_arith)
        requires
            a <= len,
    ;
    lemma_div_is_ordered(0, a * MAX_STEP_LENGTH, len);
    lemma_div_is_ordered(a * MAX_STEP_LENGTH, a * len, len);
    lemma_div_is_ordered(a * MAX_STEP_LENGTH, len * MAX_STEP_LENGTH, len);
    lemma_div_multiples_vanish(a, len);
    lemma_div_multiples_vanish(MAX_STEP_LENGTH as int, len);
    assert(a * len == len * a) by (nonlinear_arith);
    assert(len * MAX_STEP_LENGTH == len * (MAX_STEP_LENGTH as int)) by (nonlinear_arith);
}

/// Two shares of a length split in two parts, each rounded down, add up to at most the
/// whole.
proof fn lemma_split(a: int, b: int, len: int)
    requires
        0 <= a,
        0 <= b,
        a + b == len,
        len > MAX_STEP_LENGTH,
    ensures
        a * MAX_STEP_LENGTH / len + b * MAX_STEP_LENGTH / len <= MAX_STEP_LENGTH,
{
    let qa = a * MAX_STEP_LENGTH / len;
    let qb = b * MAX_STEP_LENGTH / len;
    vstd::arithmetic::div_mod::lemma_fundamental_div_mod(a * MAX_STEP_LENGTH, len);
    vstd::arithmetic::div_mod::lemma_fundamental_div_mod(b * MAX_STEP_LENGTH, len);
    let ra = (a * MAX_STEP_LENGTH) % len;
    let rb = (b * MAX_STEP_LENGTH) % len;
    assert(qa + qb <= MAX_STEP_LENGTH) by (nonlinear_arith)
        requires
            a * MAX_STEP_LENGTH == len * qa + ra,
            b * MAX_STEP_LENGTH == len * qb + rb,
            0 <= ra,
            0 <= rb,
            a + b == len,
            len > 0,
    ;
}

/// A sub-step goes the same way as what remains, no farther, has a path length of at
/// most `MAX_STEP_LENGTH`, and leaves strictly less to move.
pub proof fn lemma_step(rem: Vec2)
    requires
        !rem.is_zero(),
    ensures
        rem.x >= 0 ==> 0 <= step_of(rem).x <= rem.x,
        rem.x < 0 ==> rem.x <= step_of(rem).x <= 0,
        rem.y >= 0 ==> 0 <= step_of(rem).y <= rem.y,
        rem.y < 0 ==> rem.y <= step_of(rem).y <= 0,
        path_len(step_of(rem)) <= MAX_STEP_LENGTH,
        measure(minus(rem, step_of(rem))) < measure(rem),
{
    let len = path_len(rem);
    if len > MAX_STEP_LENGTH {
        lemma_scale(abs(rem.x as int), len);
        lemma_scale(abs(rem.y as int), len);
        lemma_split(abs(rem.x as int), abs(rem.y as int), len);
    }
}

/// Where the sweep ends: final position, velocity and the sides that were hit.
///
/// From `pos` with `rem` left to move, each round takes one sub-step. A step into free
/// space is kept. A blocked step is resolved one axis at a time: if undoing its x part
/// frees the body, the step was blocked horizontally: the x part of the velocity and of
/// what remains is dropped, and the left or right side is recorded. Else, if undoing only
/// its y part frees the body, the same holds vertically. Else the body stays where it was,
/// stops, both sides are recorded and the sweep ends.
pub open spec fn sweep(
    pw: PhysicsWorld,
    project: LdtkProject,
    body: KinematicBody,
    pos: Vec2,
    vel: Vec2,
    rem: Vec2,
    sides: CollisionSide,
) -> (Vec2, Vec2, CollisionSide)
    decreases measure(rem),
{
    if rem.is_zero() {
        (pos, vel, sides)
    } else {
        let s = step_of(rem);
        let np = plus(pos, s);
        let nrem = minus(rem, s);
        proof {
            lemma_step(rem);
        }
        if !colliding_at(pw, project, body, np) {
            sweep(pw, project, body, np, vel, nrem, sides)
        } else if !colliding_at(pw, project, body, Vec2 { x: pos.x, y: np.y }) {
            sweep(
                pw,
                project,
                body,
                Vec2 { x: pos.x, y: np.y },
                Vec2 { x: 0, y: vel.y },
                Vec2 { x: 0, y: nrem.y },
                sides.with(horizontal_side(vel)),
            )
        } else if !colliding_at(pw, project, body, Vec2 { x: np.x, y: pos.y }) {
            sweep(
                pw,
                project,
                body,
                Vec2 { x: np.x, y: pos.y },
                Vec2 { x: vel.x, y: 0 },
                Vec2 { x: nrem.x, y: 0 },
                sides.with(vertical_side(vel)),
            )
        } else {
            (pos, Vec2::spec_zero(), sides.with(horizontal_side(vel)).with(vertical_side(vel)))
        }
    }
}

/// Whether `v` lies between `start` and `start + delta`, both included.
pub open spec fn between(start: int, delta: int, v: int) -> bool {
    if delta >= 0 {
        start <= v <= start + delta
    } else {
        start + delta <= v <= start
    }
}

/// One sub-step toward `rem`.
fn step_toward(rem: Vec2) -> (r: Vec2)
    requires
        rem.in_body_range(),
    ensures
        r == step_of(rem),
{
    let ax: i64 = if rem.x >= 0 { rem.x } else { -rem.x };
    let ay: i64 = if rem.y >= 0 { rem.y } else { -rem.y };
    let len: i64 = ax + ay;
    if len <= MAX_STEP_LENGTH {
        rem
    } else {
        let sx: i64 = if rem.x >= 0 { rem.x * MAX_STEP_LENGTH / len } else {
            -((-rem.x) * MAX_STEP_LENGTH / len)
        };
        let sy: i64 = if rem.y >= 0 { rem.y * MAX_STEP_LENGTH / len } else {
            -((-rem.y) * MAX_STEP_LENGTH / len)
        };
        proof {
            lemma_scale(abs(rem.x as int), len as int);
            lemma_scale(abs(rem.y as int), len as int);
        }
        Vec2 { x: sx, y: sy }
    }
}

/// Moves `body` by `desired` against the static colliders and the level, in sub-steps of
/// at most `MAX_STEP_LENGTH`, and returns the sides on which it was blocked.
///
/// The final position and velocity are those of `sweep`; the entity, shape and mask are
/// kept. A body that starts free of collision ends free of collision.
pub fn move_body(
    body: &mut KinematicBody,
    desired: Vec2,
    pw: &PhysicsWorld,
    project: &LdtkProject,
) -> (r: CollisionSide)
    requires
        old(body).wf(),
        desired.in_body_range(),
    ensures
        (final(body).position, final(body).velocity, r) == sweep(
            *pw,
            *project,
            *old(body),
            old(body).position,
            old(body).velocity,
            desired,
            CollisionSide::spec_empty(),
        ),
        final(body).entity == old(body).entity,
        final(body).collision == old(body).collision,
        final(body).mask == old(body).mask,
        !colliding_at(*pw, *project, *old(body), old(body).position) ==> !colliding_at(
            *pw,
            *project,
            *old(body),
            final(body).position,
        ),
        desired.is_zero() ==> *final(body) == *old(body) && r.spec_is_empty(),
        between(old(body).position.x as int, desired.x as int, final(body).position.x as int),
        between(old(body).position.y as int, desired.y as int, final(body).position.y as int),
        final(body).velocity.x == old(body).velocity.x || final(body).velocity.x == 0,
        final(body).velocity.y == old(body).velocity.y || final(body).velocity.y == 0,
{
    let shape = *body;
    let p0 = body.position;
    let mut pos = body.position;
    let mut vel = body.velocity;
    let mut rem = desired;
    let mut sides = CollisionSide::empty();
    let ghost start_free = !colliding_at(*pw, *project, shape, p0);
    while !(rem.x == 0 && rem.y == 0)
        invariant
            shape.wf(),
            shape == *old(body),
            *body == *old(body),
            p0 == shape.position,
            abs(pos.x - p0.x) + abs(rem.x as int) <= abs(desired.x as int),
            desired.x >= 0 ==> pos.x >= p0.x && rem.x >= 0,
            desired.x < 0 ==> pos.x <= p0.x && rem.x <= 0,
            desired.y >= 0 ==> pos.y >= p0.y && rem.y >= 0,
            desired.y < 0 ==> pos.y <= p0.y && rem.y <= 0,
            vel.x == shape.velocity.x || vel.x == 0,
            vel.y == shape.velocity.y || vel.y == 0,
            abs(pos.y - p0.y) + abs(rem.y as int) <= abs(desired.y as int),
            desired.in_body_range(),
            sweep(*pw, *project, shape, pos, vel, rem, sides) == sweep(
                *pw,
                *project,
                shape,
                p0,
                shape.velocity,
                desired,
                CollisionSide::spec_empty(),
            ),
            start_free == !colliding_at(*pw, *project, shape, p0),
            start_free ==> !colliding_at(*pw, *project, shape, pos),
        decreases measure(rem),
    {
        proof {
            lemma_step(rem);
        }
        let step = step_toward(rem);
        let last = pos;
        let np = Vec2 { x: pos.x + step.x, y: pos.y + step.y };
        let nrem = Vec2 { x: rem.x - step.x, y: rem.y - step.y };
        if !is_colliding(pw, project, &shape, np) {
            pos = np;
            rem = nrem;
        } else if !is_colliding(pw, project, &shape, Vec2 { x: last.x, y: np.y }) {
            // Free once the x part is undone: blocked by a wall.
            sides.insert(if vel.x > 0 { Side::Right } else { Side::Left });
            pos = Vec2 { x: last.x, y: np.y };
            vel = Vec2 { x: 0, y: vel.y };
            rem = Vec2 { x: 0, y: nrem.y };
        } else if !is_colliding(pw, project, &shape, Vec2 { x: np.x, y: last.y }) {
            // Free once the y part is undone: blocked by the ground or the ceiling.
            sides.insert(if vel.y > 0 { Side::Up } else { Side::Down });
            pos = Vec2 { x: np.x, y: last.y };
            vel = Vec2 { x: vel.x, y: 0 };
            rem = Vec2 { x: nrem.x, y: 0 };
        } else {
            // Blocked on both axes: stop where the body was.
            sides.insert(if vel.x > 0 { Side::Right } else { Side::Left });
            sides.insert(if vel.y > 0 { Side::Up } else { Side::Down });
            body.position = last;
            body.velocity = Vec2::zero();
            return sides;
        }
    }
    body.position = pos;
    body.velocity = vel;
    sides
}

proof fn lemma_sweep_stays_free(
    pw: PhysicsWorld,
    project: LdtkProject,
    body: KinematicBody,
    pos: Vec2,
    vel: Vec2,
    rem: Vec2,
    sides: CollisionSide,
)
    requires
        !colliding_at(pw, project, body, pos),
    ensures
        !colliding_at(pw, project, body, sweep(pw, project, body, pos, vel, rem, sides).0),
    decreases measure(rem),
{
    if !rem.is_zero() {
        lemma_step(rem);
        let s = step_of(rem);
        let np = plus(pos, s);
        let nrem = minus(rem, s);
        if !colliding_at(pw, project, body, np) {
            lemma_sweep_stays_free(pw, project, body, np, vel, nrem, sides);
        } else if !colliding_at(pw, project, body, Vec2 { x: pos.x, y: np.y }) {
            lemma_sweep_stays_free(
                pw,
                project,
                body,
                Vec2 { x: pos.x, y: np.y },
                Vec2 { x: 0, y: vel.y },
                Vec2 { x: 0, y: nrem.y },
                sides.with(horizontal_side(vel)),
            );
        } else if !colliding_at(pw, project, body, Vec2 { x: np.x, y: pos.y }) {
            lemma_sweep_stays_free(
                pw,
                project,
                body,
                Vec2 { x: np.x, y: pos.y },
                Vec2 { x: vel.x, y: 0 },
                Vec2 { x: nrem.x, y: 0 },
                sides.with(vertical_side(vel)),
            );
        }
    }
}

/// No tunneling: a body that does not overlap any blocking geometry before a move does
/// not overlap any after it, whatever the move and the level.
pub proof fn law_no_tunneling(pw: PhysicsWorld, project: LdtkProject, body: KinematicBody, desired: Vec2)
    requires
        !colliding_at(pw, project, body, body.position),
    ensures
        !colliding_at(
            pw,
            project,
            body,
            sweep(pw, project, body, body.position, body.velocity, desired, CollisionSide::spec_empty()).0,
        ),
{
    lemma_sweep_stays_free(pw, project, body, body.position, body.velocity, desired, CollisionSide::spec_empty());
}

/// A sweep with nothing left to move on x keeps the x coordinate, keeps a zero x velocity,
/// and never forgets a side already recorded.
proof fn lemma_sweep_without_x(
    pw: PhysicsWorld,
    project: LdtkProject,
    body: KinematicBody,
    pos: Vec2,
    vel: Vec2,
    rem: Vec2,
    sides: CollisionSide,
)
    requires
        rem.x == 0,
        vel.x == 0,
    ensures
        sweep(pw, project, body, pos, vel, rem, sides).0.x == pos.x,
        sweep(pw, project, body, pos, vel, rem, sides).1.x == 0,
        forall|side: Side| sides.has(side) ==> (#[trigger] sweep(pw, project, body, pos, vel, rem, sides).2.has(side)),
    decreases measure(rem),
{
    if !rem.is_zero() {
        lemma_step(rem);
        let s = step_of(rem);
        let np = plus(pos, s);
        let nrem = minus(rem, s);
        if !colliding_at(pw, project, body, np) {
            lemma_sweep_without_x(pw, project, body, np, vel, nrem, sides);
        } else if !colliding_at(pw, project, body, Vec2 { x: pos.x, y: np.y }) {
            lemma_sweep_without_x(
                pw,
                project,
                body,
                Vec2 { x: pos.x, y: np.y },
                Vec2 { x: 0, y: vel.y },
                Vec2 { x: 0, y: nrem.y },
                sides.with(horizontal_side(vel)),
            );
        } else if !colliding_at(pw, project, body, Vec2 { x: np.x, y: pos.y }) {
            lemma_sweep_without_x(
                pw,
                project,
                body,
                Vec2 { x: np.x, y: pos.y },
                Vec2 { x: vel.x, y: 0 },
                Vec2 { x: nrem.x, y: 0 },
                sides.with(vertical_side(vel)),
            );
        }
    }
}


/// Blocking geometry that varies along x only: a vertical wall (or several).
pub open spec fn blocks_by_x_only(pw: PhysicsWorld, project: LdtkProject, body: KinematicBody) -> bool {
    forall|p: Vec2, q: Vec2|
        #![trigger colliding_at(pw, project, body, p), colliding_at(pw, project, body, q)]
        p.x == q.x ==> colliding_at(pw, project, body, p) == colliding_at(pw, project, body, q)
}

/// Blocking geometry that varies along y only: a floor or a ceiling (or several).
pub open spec fn blocks_by_y_only(pw: PhysicsWorld, project: LdtkProject, body: KinematicBody) -> bool {
    forall|p: Vec2, q: Vec2|
        #![trigger colliding_at(pw, project, body, p), colliding_at(pw, project, body, q)]
        p.y == q.y ==> colliding_at(pw, project, body, p) == colliding_at(pw, project, body, q)
}

/// Positions and moves small enough that no coordinate of the sweep leaves `i64`.
pub open spec fn sweep_bounded(pos: Vec2, rem: Vec2) -> bool {
    abs(pos.x as int) + abs(rem.x as int) <= 4 * BODY_LIMIT && abs(pos.y as int) + abs(rem.y as int)
        <= 4 * BODY_LIMIT
}

proof fn lemma_free_along_y(
    pw: PhysicsWorld,
    project: LdtkProject,
    body: KinematicBody,
    pos: Vec2,
    vel: Vec2,
    rem: Vec2,
    sides: CollisionSide,
)
    requires
        blocks_by_x_only(pw, project, body),
        !colliding_at(pw, project, body, pos),
        rem.x == 0,
        sweep_bounded(pos, rem),
    ensures
        sweep(pw, project, body, pos, vel, rem, sides) == (plus(pos, rem), vel, sides),
    decreases measure(rem),
{
    if rem.is_zero() {
        assert(plus(pos, rem) == pos);
    } else {
        lemma_step(rem);
        let st = step_of(rem);
        let np = plus(pos, st);
        let nrem = minus(rem, st);
        assert(np.x == pos.x);
        assert(colliding_at(pw, project, body, np) == colliding_at(pw, project, body, pos));
        lemma_free_along_y(pw, project, body, np, vel, nrem, sides);
        assert(plus(np, nrem) == plus(pos, rem));
    }
}

proof fn lemma_free_along_x(
    pw: PhysicsWorld,
    project: LdtkProject,
    body: KinematicBody,
    pos: Vec2,
    vel: Vec2,
    rem: Vec2,
    sides: CollisionSide,
)
    requires
        blocks_by_y_only(pw, project, body),
        !colliding_at(pw, project, body, pos),
        rem.y == 0,
        sweep_bounded(pos, rem),
    ensures
        sweep(pw, project, body, pos, vel, rem, sides) == (plus(pos, rem), vel, sides),
    decreases measure(rem),
{
    if rem.is_zero() {
        assert(plus(pos, rem) == pos);
    } else {
        lemma_step(rem);
        let st = step_of(rem);
        let np = plus(pos, st);
        let nrem = minus(rem, st);
        assert(np.y == pos.y);
        assert(colliding_at(pw, project, body, np) == colliding_at(pw, project, body, pos));
        lemma_free_along_x(pw, project, body, np, vel, nrem, sides);
        assert(plus(np, nrem) == plus(pos, rem));
    }
}

proof fn lemma_vertical_wall(
    pw: PhysicsWorld,
    project: LdtkProject,
    body: KinematicBody,
    pos: Vec2,
    vel: Vec2,
    rem: Vec2,
    sides: CollisionSide,
)
    requires
        blocks_by_x_only(pw, project, body),
        !colliding_at(pw, project, body, pos),
        sweep_bounded(pos, rem),
    ensures
        ({
            let (p, v, s) = sweep(pw, project, body, pos, vel, rem, sides);
            &&& p.y == pos.y + rem.y
            &&& v.y == vel.y
            &&& (p == plus(pos, rem) && v == vel && s == sides) || (v.x == 0 && s == sides.with(
                horizontal_side(vel),
            ))
        }),
    decreases measure(rem),
{
    if !rem.is_zero() {
        lemma_step(rem);
        let st = step_of(rem);
        let np = plus(pos, st);
        let nrem = minus(rem, st);
        let back_x = Vec2 { x: pos.x, y: np.y };
        assert(colliding_at(pw, project, body, back_x) == colliding_at(pw, project, body, pos));
        if !colliding_at(pw, project, body, np) {
            lemma_vertical_wall(pw, project, body, np, vel, nrem, sides);
            assert(plus(np, nrem) == plus(pos, rem));
        } else {
            lemma_free_along_y(
                pw,
                project,
                body,
                back_x,
                Vec2 { x: 0, y: vel.y },
                Vec2 { x: 0, y: nrem.y },
                sides.with(horizontal_side(vel)),
            );
        }
    }
}

proof fn lemma_horizontal_wall(
    pw: PhysicsWorld,
    project: LdtkProject,
    body: KinematicBody,
    pos: Vec2,
    vel: Vec2,
    rem: Vec2,
    sides: CollisionSide,
)
    requires
        blocks_by_y_only(pw, project, body),
        !colliding_at(pw, project, body, pos),
        sweep_bounded(pos, rem),
    ensures
        ({
            let (p, v, s) = sweep(pw, project, body, pos, vel, rem, sides);
            &&& p.x == pos.x + rem.x
            &&& v.x == vel.x
            &&& (p == plus(pos, rem) && v == vel && s == sides) || (v.y == 0 && s == sides.with(
                vertical_side(vel),
            ))
        }),
    decreases measure(rem),
{
    if !rem.is_zero() {
        lemma_step(rem);
        let st = step_of(rem);
        let np = plus(pos, st);
        let nrem = minus(rem, st);
        let back_x = Vec2 { x: pos.x, y: np.y };
        let back_y = Vec2 { x: np.x, y: pos.y };
        assert(colliding_at(pw, project, body, back_x) == colliding_at(pw, project, body, np));
        assert(colliding_at(pw, project, body, back_y) == colliding_at(pw, project, body, pos));
        if !colliding_at(pw, project, body, np) {
            lemma_horizontal_wall(pw, project, body, np, vel, nrem, sides);
            assert(plus(np, nrem) == plus(pos, rem));
        } else {
            lemma_free_along_x(
                pw,
                project,
                body,
                back_y,
                Vec2 { x: vel.x, y: 0 },
                Vec2 { x: nrem.x, y: 0 },
                sides.with(vertical_side(vel)),
            );
        }
    }
}

/// Sliding along a vertical wall: where blocking geometry varies along x only, a move
/// keeps its whole y part and the y velocity. Either it is never blocked, or it is blocked
/// once, by the wall: the x velocity drops to zero and only the side of the wall (by the
/// sign of the x velocity) is set. A wall standing at the target x is always hit.
pub proof fn law_vertical_wall_slide(pw: PhysicsWorld, project: LdtkProject, body: KinematicBody, desired: Vec2)
    requires
        body.wf(),
        desired.in_body_range(),
        blocks_by_x_only(pw, project, body),
        !colliding_at(pw, project, body, body.position),
    ensures
        ({
            let (p, v, s) = sweep(
                pw,
                project,
                body,
                body.position,
                body.velocity,
                desired,
                CollisionSide::spec_empty(),
            );
            let hit = CollisionSide::spec_empty().with(horizontal_side(body.velocity));
            &&& p.y == body.position.y + desired.y
            &&& v.y == body.velocity.y
            &&& (p == plus(body.position, desired) && v == body.velocity && s.spec_is_empty()) || (v.x
                == 0 && s == hit)
            &&& colliding_at(pw, project, body, plus(body.position, desired)) ==> v.x == 0 && s == hit
        }),
{
    lemma_vertical_wall(pw, project, body, body.position, body.velocity, desired, CollisionSide::spec_empty());
    lemma_sweep_stays_free(pw, project, body, body.position, body.velocity, desired, CollisionSide::spec_empty());
}

/// Sliding along a floor or a ceiling: where blocking geometry varies along y only, a move
/// keeps its whole x part and the x velocity. Either it is never blocked, or it is blocked
/// once: the y velocity drops to zero and only the side (up or down, by the sign of the y
/// velocity) is set. A floor or ceiling at the target y is always hit.
pub proof fn law_horizontal_wall_slide(pw: PhysicsWorld, project: LdtkProject, body: KinematicBody, desired: Vec2)
    requires
        body.wf(),
        desired.in_body_range(),
        blocks_by_y_only(pw, project, body),
        !colliding_at(pw, project, body, body.position),
    ensures
        ({
            let (p, v, s) = sweep(
                pw,
                project,
                body,
                body.position,
                body.velocity,
                desired,
                CollisionSide::spec_empty(),
            );
            let hit = CollisionSide::spec_empty().with(vertical_side(body.velocity));
            &&& p.x == body.position.x + desired.x
            &&& v.x == body.velocity.x
            &&& (p == plus(body.position, desired) && v == body.velocity && s.spec_is_empty()) || (v.y
                == 0 && s == hit)
            &&& colliding_at(pw, project, body, plus(body.position, desired)) ==> v.y == 0 && s == hit
        }),
{
    lemma_horizontal_wall(pw, project, body, body.position, body.velocity, desired, CollisionSide::spec_empty());
    lemma_sweep_stays_free(pw, project, body, body.position, body.velocity, desired, CollisionSide::spec_empty());
}

/// The state of a sweep: position, velocity, what remains to move, and the sides hit.
pub type SweepState = (Vec2, Vec2, Vec2, CollisionSide);

/// One round of the sweep from state `(pos, vel, rem, sides)`: the next state, or nothing
/// where the sweep ends (nothing left to move, or a true corner).
pub open spec fn sweep_step(
    pw: PhysicsWorld,
    project: LdtkProject,
    body: KinematicBody,
    pos: Vec2,
    vel: Vec2,
    rem: Vec2,
    sides: CollisionSide,
) -> Option<SweepState> {
    if rem.is_zero() {
        None
    } else {
        let s = step_of(rem);
        let np = plus(pos, s);
        let nrem = minus(rem, s);
        if !colliding_at(pw, project, body, np) {
            Some((np, vel, nrem, sides))
        } else if !colliding_at(pw, project, body, Vec2 { x: pos.x, y: np.y }) {
            Some(
                (
                    Vec2 { x: pos.x, y: np.y },
                    Vec2 { x: 0, y: vel.y },
                    Vec2 { x: 0, y: nrem.y },
                    sides.with(horizontal_side(vel)),
                ),
            )
        } else if !colliding_at(pw, project, body, Vec2 { x: np.x, y: pos.y }) {
            Some(
                (
                    Vec2 { x: np.x, y: pos.y },
                    Vec2 { x: vel.x, y: 0 },
                    Vec2 { x: nrem.x, y: 0 },
                    sides.with(vertical_side(vel)),
                ),
            )
        } else {
            None
        }
    }
}

/// The state of the sweep after `k` rounds, if it has not ended before.
pub open spec fn sweep_after(
    pw: PhysicsWorld,
    project: LdtkProject,
    body: KinematicBody,
    st: SweepState,
    k: nat,
) -> Option<SweepState>
    decreases k,
{
    if k == 0 {
        Some(st)
    } else {
        match sweep_step(pw, project, body, st.0, st.1, st.2, st.3) {
            Some(next) => sweep_after(pw, project, body, next, (k - 1) as nat),
            None => None,
        }
    }
}

/// What every state of a sweep from a free start with velocity `v0` and no sides keeps:
/// a velocity component is the starting one while its axis still has some way to go, no
/// side is set while both axes have, and the body is free of collision.
pub open spec fn sweep_state_ok(
    pw: PhysicsWorld,
    project: LdtkProject,
    body: KinematicBody,
    st: SweepState,
    v0: Vec2,
) -> bool {
    let (pos, vel, rem, sides) = st;
    &&& rem.x != 0 ==> vel.x == v0.x
    &&& rem.y != 0 ==> vel.y == v0.y
    &&& rem.x != 0 && rem.y != 0 ==> sides == CollisionSide::spec_empty()
    &&& !colliding_at(pw, project, body, pos)
}

proof fn lemma_sweep_after(
    pw: PhysicsWorld,
    project: LdtkProject,
    body: KinematicBody,
    a: SweepState,
    v0: Vec2,
    k: nat,
)
    requires
        sweep_state_ok(pw, project, body, a, v0),
        sweep_after(pw, project, body, a, k) is Some,
    ensures
        ({
            let st = sweep_after(pw, project, body, a, k).unwrap();
            &&& sweep_state_ok(pw, project, body, st, v0)
            &&& sweep(pw, project, body, a.0, a.1, a.2, a.3) == sweep(pw, project, body, st.0, st.1, st.2, st.3)
        }),
    decreases k,
{
    if k > 0 {
        let (pos, vel, rem, sides) = a;
        lemma_step(rem);
        let next = sweep_step(pw, project, body, pos, vel, rem, sides).unwrap();
        assert(sweep_state_ok(pw, project, body, next, v0));
        lemma_sweep_after(pw, project, body, next, v0, (k - 1) as nat);
    }
}

/// A true corner at any round: when, after `k` rounds of a sweep from a free start, the
/// next sub-step is blocked and undoing either of its parts alone still leaves the body
/// blocked, the sweep ends there: the body stays where it was, stops, and exactly the
/// horizontal and the vertical side given by the starting velocity are set.
pub proof fn law_true_corner(pw: PhysicsWorld, project: LdtkProject, body: KinematicBody, desired: Vec2, k: nat)
    requires
        !colliding_at(pw, project, body, body.position),
        sweep_after(
            pw,
            project,
            body,
            (body.position, body.velocity, desired, CollisionSide::spec_empty()),
            k,
        ) is Some,
        ({
            let (a, v, r, s) = sweep_after(
                pw,
                project,
                body,
                (body.position, body.velocity, desired, CollisionSide::spec_empty()),
                k,
            ).unwrap();
            let np = plus(a, step_of(r));
            &&& !r.is_zero()
            &&& colliding_at(pw, project, body, np)
            &&& colliding_at(pw, project, body, Vec2 { x: a.x, y: np.y })
            &&& colliding_at(pw, project, body, Vec2 { x: np.x, y: a.y })
        }),
    ensures
        ({
            let (a, v, r, s) = sweep_after(
                pw,
                project,
                body,
                (body.position, body.velocity, desired, CollisionSide::spec_empty()),
                k,
            ).unwrap();
            &&& sweep_step(pw, project, body, a, v, r, s) is None
            &&& sweep(pw, project, body, body.position, body.velocity, desired, CollisionSide::spec_empty())
                == (a, Vec2::spec_zero(), CollisionSide::spec_empty().with(horizontal_side(body.velocity)).with(
                vertical_side(body.velocity),
            ))
        }),
{
    let start = (body.position, body.velocity, desired, CollisionSide::spec_empty());
    lemma_sweep_after(pw, project, body, start, body.velocity, k);
    let (a, v, r, s) = sweep_after(pw, project, body, start, k).unwrap();
    lemma_step(r);
    let np = plus(a, step_of(r));
    if r.x == 0 {
        assert(Vec2 { x: np.x, y: a.y } == a);
    }
    if r.y == 0 {
        assert(Vec2 { x: a.x, y: np.y } == a);
    }
}

/// Sliding along a wall at any round: when, after `k` rounds of a sweep from a free start,
/// the next sub-step is blocked and undoing its x part frees the body, the body goes on
/// along the open y axis from there: it ends at that x with no x velocity, and the side of
/// the wall given by the starting x velocity is set.
pub proof fn law_slide_along_wall(pw: PhysicsWorld, project: LdtkProject, body: KinematicBody, desired: Vec2, k: nat)
    requires
        !colliding_at(pw, project, body, body.position),
        sweep_after(
            pw,
            project,
            body,
            (body.position, body.velocity, desired, CollisionSide::spec_empty()),
            k,
        ) is Some,
        ({
            let (a, v, r, s) = sweep_after(
                pw,
                project,
                body,
                (body.position, body.velocity, desired, CollisionSide::spec_empty()),
                k,
            ).unwrap();
            let np = plus(a, step_of(r));
            &&& !r.is_zero()
            &&& colliding_at(pw, project, body, np)
            &&& !colliding_at(pw, project, body, Vec2 { x: a.x, y: np.y })
        }),
    ensures
        ({
            let (a, v, r, s) = sweep_after(
                pw,
                project,
                body,
                (body.position, body.velocity, desired, CollisionSide::spec_empty()),
                k,
            ).unwrap();
            let (p, vf, sf) = sweep(
                pw,
                project,
                body,
                body.position,
                body.velocity,
                desired,
                CollisionSide::spec_empty(),
            );
            p.x == a.x && vf.x == 0 && sf.has(horizontal_side(body.velocity))
        }),
{
    let start = (body.position, body.velocity, desired, CollisionSide::spec_empty());
    lemma_sweep_after(pw, project, body, start, body.velocity, k);
    let (a, v, r, s) = sweep_after(pw, project, body, start, k).unwrap();
    lemma_step(r);
    let np = plus(a, step_of(r));
    let nrem = minus(r, step_of(r));
    if r.x == 0 {
        assert(Vec2 { x: a.x, y: np.y } == np);
    }
    let sides = s.with(horizontal_side(v));
    lemma_sweep_without_x(
        pw,
        project,
        body,
        Vec2 { x: a.x, y: np.y },
        Vec2 { x: 0, y: v.y },
        Vec2 { x: 0, y: nrem.y },
        sides,
    );
    assert(sides.has(horizontal_side(v)));
}

/// What a sensor touches: the other colliders, in snapshot order, and whether it touches
/// blocking level geometry.
pub struct SensedBodies {
    pub others: Vec<u64>,
    pub world: bool,
}

/// The entities among the first `n` colliders, other than `this`, that intersect `rect`.
pub open spec fn sensed_prefix(cols: Seq<(u64, Rect)>, n: int, rect: Rect, this: u64) -> Seq<u64>
    decreases n,
{
    if n <= 0 {
        Seq::empty()
    } else if cols[n - 1].0 != this && cols[n - 1].1.spec_intersects(rect) {
        sensed_prefix(cols, n - 1, rect, this).push(cols[n - 1].0)
    } else {
        sensed_prefix(cols, n - 1, rect, this)
    }
}

/// What a sensor of entity `entity`, with world-space rectangle `rect`, touches.
pub fn detect_bodies(
    pw: &PhysicsWorld,
    project: &LdtkProject,
    entity: u64,
    rect: Rect,
    mask: LevelTile,
) -> (r: SensedBodies)
    requires
        crate::world::rect_in_range(rect),
    ensures
        r.others@ == sensed_prefix(pw.collisions@, pw.collisions@.len() as int, rect, entity),
        r.world == spec_colliding_with_world(rect, *project, mask),
{
    let mut others: Vec<u64> = Vec::new();
    let mut i: usize = 0;
    while i < pw.collisions.len()
        invariant
            i <= pw.collisions@.len(),
            others@ == sensed_prefix(pw.collisions@, i as int, rect, entity),
        decreases pw.collisions@.len() - i,
    {
        let (other, other_rect) = pw.collisions[i];
        if other != entity && other_rect.intersects(rect) {
            others.push(other);
        }
        i = i + 1;
    }
    SensedBodies { others, world: is_colliding_with_world(rect, project, mask) }
}

} // verus!
