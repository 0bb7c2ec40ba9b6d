//! The player: tunable properties, the per-tick movement rules and the state machine.
use vstd::prelude::*;
use vstd::arithmetic::div_mod::{lemma_div_is_ordered, lemma_div_multiples_vanish};
use crate::geometry::{Vec2, SUBUNITS_PER_UNIT};
use crate::input::{ActionState, Input, AXIS_ONE};
use crate::sides::CollisionSide;
use crate::physics::{abs, within_body_limit};

verus! {

/// Microseconds in one second: times are counted in microseconds.
pub const MICROS_PER_SECOND: i64 = 1_000_000;

/// The longest tick the simulation takes in one step, in microseconds.
pub const MAX_TICK_MICROS: u64 = 1_000_000;

/// Scale of the multi-jump coefficient: `COEFFICIENT_ONE` stands for 1.0.
pub const COEFFICIENT_ONE: i64 = 1000;

/// Largest value of a speed, an acceleration or a force among the properties.
pub const PROPERTY_LIMIT: i64 = 100_000_000_000;

pub open spec fn in_property_range(v: int) -> bool {
    0 <= v <= PROPERTY_LIMIT
}

/// Tunable movement properties. Speeds are in sub-units per second, accelerations in
/// sub-units per second squared, forces are the speeds they set, times in microseconds.
#[derive(Clone, Copy, Debug, PartialEq, Eq, Structural)]
pub struct PlayerProperties {
    pub max_run_speed: i64,
    pub terminal_speed: i64,
    pub ground_acceleration: i64,
    pub ground_decceleration: i64,
    pub ground_direction_change_acceleration: i64,
    pub air_acceleration: i64,
    pub air_decceleration: i64,
    pub air_direction_change_acceleration: i64,
    pub gravity: i64,
    pub jump_force: i64,
    pub jump_gravity: i64,
    pub coyote_time: u64,
    pub jump_buffer_time: u64,
    pub jumps_available: u32,
    /// Factor applied to each further jump since grounded, in thousandths.
    pub multijump_coefficient: i64,
    pub wallslide_max_v_speed: Option<i64>,
    pub can_walljump: bool,
    pub walljump_vertical_force: i64,
    pub walljump_horizontal_force: i64,
    pub dead_time_after_walljump: u64,
}

impl PlayerProperties {
    /// Every rate and force is non-negative and within `PROPERTY_LIMIT`, and the
    /// multi-jump coefficient is at most one.
    pub open spec fn wf(self) -> bool {
        &&& in_property_range(self.max_run_speed as int)
        &&& in_property_range(self.terminal_speed as int)
        &&& in_property_range(self.ground_acceleration as int)
        &&& in_property_range(self.ground_decceleration as int)
        &&& in_property_range(self.ground_direction_change_acceleration as int)
        &&& in_property_range(self.air_acceleration as int)
        &&& in_property_range(self.air_decceleration as int)
        &&& in_property_range(self.air_direction_change_acceleration as int)
        &&& in_property_range(self.gravity as int)
        &&& in_property_range(self.jump_force as int)
        &&& in_property_range(self.jump_gravity as int)
        &&& 0 <= self.multijump_coefficient <= COEFFICIENT_ONE
        &&& (self.wallslide_max_v_speed matches Some(m) ==> in_property_range(m as int))
        &&& in_property_range(self.walljump_vertical_force as int)
        &&& in_property_range(self.walljump_horizontal_force as int)
    }

    /// The standard tuning.
    pub fn default() -> (r: PlayerProperties)
        ensures
            r.wf(),
            r == (PlayerProperties {
                max_run_speed: 192_000,
                ground_acceleration: 1_360_000,
                ground_decceleration: 1_040_000,
                ground_direction_change_acceleration: 2_000_000,
                air_acceleration: 800_000,
                air_decceleration: 320_000,
                air_direction_change_acceleration: 1_600_000,
                gravity: 1_600_000,
                terminal_speed: 720_000,
                jump_force: 352_000,
                jump_gravity: 912_000,
                coyote_time: 100_000,
                jump_buffer_time: 150_000,
                jumps_available: 2,
                multijump_coefficient: 800,
                wallslide_max_v_speed: Some(240_000),
                can_walljump: true,
                walljump_vertical_force: 320_000,
                walljump_horizontal_force: 160_000,
                dead_time_after_walljump: 200_000,
            }),
    {
        PlayerProperties {
            max_run_speed: 12 * SUBUNITS_PER_UNIT,
            ground_acceleration: 85 * SUBUNITS_PER_UNIT,
            ground_decceleration: 65 * SUBUNITS_PER_UNIT,
            ground_direction_change_acceleration: (85 + 40) * SUBUNITS_PER_UNIT,
            air_acceleration: 50 * SUBUNITS_PER_UNIT,
            air_decceleration: 20 * SUBUNITS_PER_UNIT,
            air_direction_change_acceleration: 100 * SUBUNITS_PER_UNIT,
            gravity: 100 * SUBUNITS_PER_UNIT,
            terminal_speed: 45 * SUBUNITS_PER_UNIT,
            jump_force: 22 * SUBUNITS_PER_UNIT,
            jump_gravity: 57 * SUBUNITS_PER_UNIT,
            coyote_time: 100_000,
            jump_buffer_time: 150_000,
            jumps_available: 2,
            multijump_coefficient: 800,
            wallslide_max_v_speed: Some(15 * SUBUNITS_PER_UNIT),
            can_walljump: true,
            walljump_vertical_force: 20 * SUBUNITS_PER_UNIT,
            walljump_horizontal_force: 10 * SUBUNITS_PER_UNIT,
            dead_time_after_walljump: 200_000,
        }
    }
}

/// Which wall, if any, the player pressed against while moving sideways.
#[derive(Clone, Copy, Debug, PartialEq, Eq, Structural)]
pub enum WallslideState {
    HuggingLeftWall,
    HuggingRightWall,
    HuggingNoWall,
}

/// The side of the player on which the wall it slides along stands.
#[derive(Clone, Copy, Debug, PartialEq, Eq, Structural)]
pub enum SlideSide {
    Right,
    Left,
}

/// Where the player stands.
#[derive(Clone, Copy, Debug, PartialEq, Eq, Structural)]
pub enum State {
    Grounded,
    Airborne,
    Sliding { side: SlideSide },
}

impl State {
    pub fn default() -> (r: State)
        ensures
            r == State::Airborne,
    {
        State::Airborne
    }
}

/// The player's control state. Times are instants of unpaused game time in microseconds.
#[derive(Clone, Copy, Debug, PartialEq, Eq, Structural)]
pub struct Player {
    pub state: State,
    pub properties: PlayerProperties,
    pub pressed_jump: bool,
    pub can_jump: bool,
    pub jump_pressed_time: u64,
    pub last_grounded_time: u64,
    pub last_walljump_time: u64,
    pub times_jumped_since_grounded: u32,
}

impl Player {
    /// Valid properties, and a jump count that one more jump cannot overflow while
    /// jumping is allowed.
    pub open spec fn wf(self) -> bool {
        self.properties.wf() && (self.can_jump ==> self.times_jumped_since_grounded < u32::MAX)
    }

    /// A player in the air with the given properties, no jump pending and none allowed yet.
    pub fn new(properties: PlayerProperties) -> (r: Player)
        requires
            properties.wf(),
        ensures
            r.wf(),
            r.state == State::Airborne,
            r.properties == properties,
            !r.pressed_jump,
            !r.can_jump,
            r.jump_pressed_time == 0,
            r.last_grounded_time == 0,
            r.last_walljump_time == 0,
            r.times_jumped_since_grounded == 0,
    {
        Player {
            state: State::Airborne,
            properties,
            pressed_jump: false,
            can_jump: false,
            jump_pressed_time: 0,
            last_grounded_time: 0,
            last_walljump_time: 0,
            times_jumped_since_grounded: 0,
        }
    }
}

/// What a rate per second amounts to over `dt` microseconds, rounded down.
pub open spec fn per_tick(rate: int, dt: int) -> int {
    rate * dt / MICROS_PER_SECOND as int
}

/// An axis value (in thousandths) times `amount`, rounded toward zero.
pub open spec fn axis_share(x: int, amount: int) -> int {
    if x >= 0 {
        x * amount / AXIS_ONE as int
    } else {
        -((-x) * amount / AXIS_ONE as int)
    }
}

/// `v` clamped to `[-limit, limit]`.
pub open spec fn clamp_abs(v: int, limit: int) -> int {
    if v > limit {
        limit
    } else if v < -limit {
        -limit
    } else {
        v
    }
}

/// The speed of the `n`-th jump since grounded: `force * coefficient^n`, each factor in
/// thousandths and rounded down.
pub open spec fn jump_impulse(force: int, coefficient: int, n: nat) -> int
    decreases n,
{
    if n == 0 {
        force
    } else {
        jump_impulse(force, coefficient, (n - 1) as nat) * coefficient / COEFFICIENT_ONE as int
    }
}

/// A jump press edge is remembered with its time.
pub open spec fn after_press(p: Player, input: Input, now: u64) -> Player {
    if input.jump == ActionState::JustPressed {
        Player { pressed_jump: true, jump_pressed_time: now, ..p }
    } else {
        p
    }
}

/// Vertical speed after gravity: the lighter jump gravity while jump is held on the way
/// up, then clamped to the terminal speed.
pub open spec fn gravity_applied(props: PlayerProperties, vy: int, pressing_jump: bool, dt: int) -> int {
    let g = if pressing_jump && vy > 0 {
        props.jump_gravity
    } else {
        props.gravity
    };
    clamp_abs(vy - per_tick(g as int, dt), props.terminal_speed as int)
}

/// While sliding, the fall speed is capped at the wall-slide speed; rising is not capped.
pub open spec fn slide_capped(state: State, props: PlayerProperties, vy: int) -> int {
    match (state, props.wallslide_max_v_speed) {
        (State::Sliding { .. }, Some(m)) => if vy < -m {
            -m
        } else {
            vy
        },
        _ => vy,
    }
}

/// Whether steering with `x` turns against the current horizontal velocity.
pub open spec fn reversing(x: int, vx: int) -> bool {
    (x > 0 && vx < 0) || (x < 0 && vx > 0)
}

pub open spec fn decceleration_of(state: State, props: PlayerProperties) -> int {
    match state {
        State::Grounded => props.ground_decceleration as int,
        _ => props.air_decceleration as int,
    }
}

pub open spec fn acceleration_of(state: State, props: PlayerProperties, reverse: bool) -> int {
    match (state, reverse) {
        (State::Grounded, true) => props.ground_direction_change_acceleration as int,
        (State::Grounded, false) => props.ground_acceleration as int,
        (_, true) => props.air_direction_change_acceleration as int,
        (_, false) => props.air_acceleration as int,
    }
}

/// Horizontal speed after steering. Without input the speed falls toward zero without
/// passing it; with input, and once the dead time after a wall jump is over, it grows
/// toward the input's direction, up to the run speed.
pub open spec fn horizontal_applied(p: Player, vx: int, x: int, now: u64, dt: int) -> int {
    let props = p.properties;
    if x == 0 {
        let d = per_tick(decceleration_of(p.state, props), dt);
        if abs(vx) > d {
            if vx > 0 {
                vx - d
            } else {
                vx + d
            }
        } else {
            0
        }
    } else if now > p.last_walljump_time + props.dead_time_after_walljump {
        let a = per_tick(acceleration_of(p.state, props, reversing(x, vx)), dt);
        let v = vx + axis_share(x, a);
        if abs(v) > props.max_run_speed {
            clamp_abs(v, props.max_run_speed as int)
        } else {
            v
        }
    } else {
        vx
    }
}

/// Jump bookkeeping: on the ground the jumps are re-armed; in the air, once coyote time
/// has passed without a jump, one jump is forfeited (or jumping ends if only one was
/// available).
pub open spec fn bookkeeping(p: Player, now: u64) -> Player {
    match p.state {
        State::Grounded => Player {
            can_jump: if p.properties.jumps_available > 0 {
                true
            } else {
                p.can_jump
            },
            times_jumped_since_grounded: 0,
            last_grounded_time: now,
            ..p
        },
        State::Airborne => if p.times_jumped_since_grounded == 0 && now > p.last_grounded_time
            + p.properties.coyote_time {
            if p.properties.jumps_available == 1 {
                Player { can_jump: false, ..p }
            } else {
                Player { times_jumped_since_grounded: (p.times_jumped_since_grounded + 1) as u32, ..p }
            }
        } else {
            p
        },
        _ => p,
    }
}

/// A pending jump is executed: a wall jump while sliding (when allowed), else a jump when
/// one is left. Then a press older than the buffer time is dropped.
pub open spec fn jump_applied(p: Player, v: Vec2, now: u64) -> (Player, Vec2) {
    if !p.pressed_jump {
        (p, v)
    } else {
        let props = p.properties;
        let (q, w) = match (props.can_walljump, p.state) {
            (true, State::Sliding { side }) => (
                Player { pressed_jump: false, last_walljump_time: now, ..p },
                Vec2 {
                    x: match side {
                        SlideSide::Left => props.walljump_horizontal_force,
                        SlideSide::Right => (-props.walljump_horizontal_force) as i64,
                    },
                    y: props.walljump_vertical_force,
                },
            ),
            _ => if p.can_jump {
                let t = p.times_jumped_since_grounded + 1;
                (
                    Player {
                        pressed_jump: false,
                        times_jumped_since_grounded: t as u32,
                        can_jump: !(props.jumps_available <= t),
                        ..p
                    },
                    Vec2 {
                        x: v.x,
                        y: jump_impulse(
                            props.jump_force as int,
                            props.multijump_coefficient as int,
                            p.times_jumped_since_grounded as nat,
                        ) as i64,
                    },
                )
            } else {
                (p, v)
            },
        };
        if now > p.jump_pressed_time + props.jump_buffer_time {
            (Player { pressed_jump: false, ..q }, w)
        } else {
            (q, w)
        }
    }
}

/// One tick of player control: the player and its velocity afterwards.
pub open spec fn spec_update(p: Player, vel: Vec2, input: Input, now: u64, dt: u64) -> (Player, Vec2) {
    let p1 = after_press(p, input, now);
    let vy = slide_capped(
        p.state,
        p.properties,
        gravity_applied(p.properties, vel.y as int, input.jump.spec_is_pressed(), dt as int),
    );
    let vx = horizontal_applied(p1, vel.x as int, input.horizontal.0 as int, now, dt as int);
    jump_applied(bookkeeping(p1, now), Vec2 { x: vx as i64, y: vy as i64 }, now)
}

/// A rate per second over `dt` microseconds, rounded down.
fn per_tick_of(rate: i64, dt: u64) -> (r: i64)
    requires
        in_property_range(rate as int),
        dt <= MAX_TICK_MICROS,
    ensures
        r == per_tick(rate as int, dt as int),
        0 <= r <= rate,
{
    proof {
        assert(0 <= rate * dt <= rate * MICROS_PER_SECOND) by (nonlinear_arith)
            requires
                0 <= rate,
                0 <= dt <= MICROS_PER_SECOND,
        ;
        assert(rate * MICROS_PER_SECOND <= PROPERTY_LIMIT * MICROS_PER_SECOND) by (nonlinear_arith)
            requires
                rate <= PROPERTY_LIMIT,
        ;
        lemma_div_is_ordered(0, rate * dt, MICROS_PER_SECOND as int);
        lemma_div_is_ordered(rate * dt, rate * MICROS_PER_SECOND, MICROS_PER_SECOND as int);
        lemma_div_multiples_vanish(rate as int, MICROS_PER_SECOND as int);
        assert(rate * MICROS_PER_SECOND == MICROS_PER_SECOND * rate) by (nonlinear_arith);
    }
    ((rate as i128) * (dt as i128) / (MICROS_PER_SECOND as i128)) as i64
}

pub(crate) proof fn lemma_fraction(a: int, x: int, one: int)
    requires
        0 <= a,
        0 <= x <= one,
        one > 0,
    ensures
        0 <= x * a / one <= a,
{
    assert(0 <= x * a <= one * a) by (nonlinear_arith)
        requires
            0 <= a,
            0 <= x <= one,
    ;
    lemma_div_is_ordered(0, x * a, one);
    lemma_div_is_ordered(x * a, one * a, one);
    lemma_div_multiples_vanish(a, one);
}

/// An axis value times `amount`, rounded toward zero.
fn axis_share_of(x: i32, amount: i64) -> (r: i64)
    requires
        -AXIS_ONE <= x <= AXIS_ONE,
        in_property_range(amount as int),
    ensures
        r == axis_share(x as int, amount as int),
        abs(r as int) <= amount,
{
    proof {
        lemma_fraction(amount as int, abs(x as int), AXIS_ONE as int);
    }
    if x >= 0 {
        (x as i64) * amount / (AXIS_ONE as i64)
    } else {
        -((-(x as i64)) * amount / (AXIS_ONE as i64))
    }
}

/// The speed of the `n`-th jump since grounded.
pub fn jump_impulse_of(force: i64, coefficient: i64, n: u32) -> (r: i64)
    requires
        in_property_range(force as int),
        0 <= coefficient <= COEFFICIENT_ONE,
    ensures
        r == jump_impulse(force as int, coefficient as int, n as nat),
        0 <= r <= force,
{
    let mut v = force;
    let mut i: u32 = 0;
    while i < n
        invariant
            i <= n,
            0 <= v <= force,
            in_property_range(force as int),
            0 <= coefficient <= COEFFICIENT_ONE,
            v == jump_impulse(force as int, coefficient as int, i as nat),
        decreases n - i,
    {
        proof {
            lemma_fraction(v as int, coefficient as int, COEFFICIENT_ONE as int);
        }
        v = v * coefficient / COEFFICIENT_ONE;
        i = i + 1;
    }
    v
}

/// Vertical speed after gravity and the terminal-speed clamp.
fn apply_gravity(props: &PlayerProperties, vy: i64, pressing_jump: bool, dt: u64) -> (r: i64)
    requires
        props.wf(),
        within_body_limit(vy as int),
        dt <= MAX_TICK_MICROS,
    ensures
        r == gravity_applied(*props, vy as int, pressing_jump, dt as int),
        abs(r as int) <= props.terminal_speed,
{
    let g = if pressing_jump && vy > 0 {
        props.jump_gravity
    } else {
        props.gravity
    };
    let v = vy - per_tick_of(g, dt);
    if v > props.terminal_speed {
        props.terminal_speed
    } else if v < -props.terminal_speed {
        -props.terminal_speed
    } else {
        v
    }
}

/// Fall speed capped while sliding.
fn cap_slide(state: State, props: &PlayerProperties, vy: i64) -> (r: i64)
    requires
        props.wf(),
        abs(vy as int) <= PROPERTY_LIMIT,
    ensures
        r == slide_capped(state, *props, vy as int),
        abs(r as int) <= PROPERTY_LIMIT,
{
    match (state, props.wallslide_max_v_speed) {
        (State::Sliding { .. }, Some(m)) => if vy < -m {
            -m
        } else {
            vy
        },
        _ => vy,
    }
}

/// Horizontal speed after steering or slowing down.
fn steer(p: &Player, vx: i64, x: i32, now: u64, dt: u64) -> (r: i64)
    requires
        p.wf(),
        within_body_limit(vx as int),
        -AXIS_ONE <= x <= AXIS_ONE,
        dt <= MAX_TICK_MICROS,
    ensures
        r == horizontal_applied(*p, vx as int, x as int, now, dt as int),
        within_body_limit(r as int),
{
    let props = &p.properties;
    if x == 0 {
        let dec = match p.state {
            State::Grounded => props.ground_decceleration,
            _ => props.air_decceleration,
        };
        let d = per_tick_of(dec, dt);
        let magnitude = if vx >= 0 { vx } else { -vx };
        if magnitude > d {
            if vx > 0 {
                vx - d
            } else {
                vx + d
            }
        } else {
            0
        }
    } else if (now as u128) > (p.last_walljump_time as u128) + (props.dead_time_after_walljump as u128) {
        let reverse = (x > 0 && vx < 0) || (x < 0 && vx > 0);
        let acc = match (p.state, reverse) {
            (State::Grounded, true) => props.ground_direction_change_acceleration,
            (State::Grounded, false) => props.ground_acceleration,
            (_, true) => props.air_direction_change_acceleration,
            (_, false) => props.air_acceleration,
        };
        let a = per_tick_of(acc, dt);
        let v = vx + axis_share_of(x, a);
        let magnitude = if v >= 0 { v } else { -v };
        if magnitude > props.max_run_speed {
            if v > props.max_run_speed {
                props.max_run_speed
            } else {
                -props.max_run_speed
            }
        } else {
            v
        }
    } else {
        vx
    }
}

impl Player {
    /// Re-arms jumps on the ground, and forfeits one once coyote time is over in the air.
    fn keep_books(&mut self, now: u64)
        requires
            old(self).wf(),
        ensures
            *final(self) == bookkeeping(*old(self), now),
            final(self).wf(),
    {
        match self.state {
            State::Grounded => {
                if self.properties.jumps_available > 0 {
                    self.can_jump = true;
                }
                self.times_jumped_since_grounded = 0;
                self.last_grounded_time = now;
            },
            State::Airborne => {
                if self.times_jumped_since_grounded == 0 && (now as u128) > (
                self.last_grounded_time as u128) + (self.properties.coyote_time as u128) {
                    if self.properties.jumps_available == 1 {
                        self.can_jump = false;
                    } else {
                        self.times_jumped_since_grounded = self.times_jumped_since_grounded + 1;
                    }
                }
            },
            _ => {},
        }
    }

    /// Executes a pending jump or wall jump, then drops a press older than the buffer time.
    fn execute_jump(&mut self, v: Vec2, now: u64) -> (r: Vec2)
        requires
            old(self).wf(),
            v.in_body_range(),
        ensures
            (*final(self), r) == jump_applied(*old(self), v, now),
            final(self).wf(),
            r.in_body_range(),
    {
        if !self.pressed_jump {
            return v;
        }
        let props = self.properties;
        let w = match (props.can_walljump, self.state) {
            (true, State::Sliding { side }) => {
                self.pressed_jump = false;
                self.last_walljump_time = now;
                let x = match side {
                    SlideSide::Left => props.walljump_horizontal_force,
                    SlideSide::Right => -props.walljump_horizontal_force,
                };
                Vec2 { x, y: props.walljump_vertical_force }
            },
            _ => {
                if self.can_jump {
                    self.pressed_jump = false;
                    let y = jump_impulse_of(
                        props.jump_force,
                        props.multijump_coefficient,
                        self.times_jumped_since_grounded,
                    );
                    self.times_jumped_since_grounded = self.times_jumped_since_grounded + 1;
                    if props.jumps_available <= self.times_jumped_since_grounded {
                        self.can_jump = false;
                    }
                    Vec2 { x: v.x, y }
                } else {
                    v
                }
            },
        };
        if (now as u128) > (self.jump_pressed_time as u128) + (props.jump_buffer_time as u128) {
            self.pressed_jump = false;
        }
        w
    }

    /// One tick of player control: reads the input, applies gravity, the wall-slide cap,
    /// steering, the jump bookkeeping and a pending jump to `velocity`.
    pub fn update(&mut self, velocity: &mut Vec2, input: &Input, now: u64, dt: u64)
        requires
            old(self).wf(),
            old(velocity).in_body_range(),
            input.wf(),
            dt <= MAX_TICK_MICROS,
        ensures
            (*final(self), *final(velocity)) == spec_update(*old(self), *old(velocity), *input, now, dt),
            final(self).wf(),
            final(velocity).in_body_range(),
    {
        let state0 = self.state;
        if input.jump == ActionState::JustPressed {
            self.pressed_jump = true;
            self.jump_pressed_time = now;
        }
        let pressing = input.jump.is_pressed();
        let vy = apply_gravity(&self.properties, velocity.y, pressing, dt);
        let vy = cap_slide(state0, &self.properties, vy);
        let vx = steer(self, velocity.x, input.horizontal.0, now, dt);
        self.keep_books(now);
        let v = self.execute_jump(Vec2 { x: vx, y: vy }, now);
        *velocity = v;
    }
}

/// Whether a player sliding along a wall now moves away from it.
pub open spec fn pushing_off(prev: State, vx: int) -> bool {
    match prev {
        State::Sliding { side: SlideSide::Left } => vx > 0,
        State::Sliding { side: SlideSide::Right } => vx < 0,
        _ => false,
    }
}

/// The state after a move: grounded when blocked from below; else in the air when moving
/// away from the wall it slid along; else sliding along a wall that a side probe touches
/// (the left one first); else in the air.
pub open spec fn next_state(prev: State, sides: CollisionSide, left_touch: bool, right_touch: bool, vx: int) -> State {
    if sides.down {
        State::Grounded
    } else if pushing_off(prev, vx) {
        State::Airborne
    } else if left_touch {
        State::Sliding { side: SlideSide::Left }
    } else if right_touch {
        State::Sliding { side: SlideSide::Right }
    } else {
        State::Airborne
    }
}

impl Player {
    /// Sets the state from the sides the mover reported, what the side probes touch and
    /// the horizontal velocity after the move.
    pub fn set_state(&mut self, sides: CollisionSide, left_touch: bool, right_touch: bool, vx: i64)
        ensures
            *final(self) == (Player {
                state: next_state(old(self).state, sides, left_touch, right_touch, vx as int),
                ..*old(self)
            }),
    {
        let pushing = match self.state {
            State::Sliding { side: SlideSide::Left } => vx > 0,
            State::Sliding { side: SlideSide::Right } => vx < 0,
            _ => false,
        };
        self.state = if sides.down {
            State::Grounded
        } else if pushing {
            State::Airborne
        } else if left_touch {
            State::Sliding { side: SlideSide::Left }
        } else if right_touch {
            State::Sliding { side: SlideSide::Right }
        } else {
            State::Airborne
        };
    }
}

/// Jump buffering: a press made at `jump_pressed_time` while no jump is left is honoured on
/// landing if the tick on which the player lands comes no later than the buffer time after
/// the press; else it has expired by then and the first grounded tick makes no jump.
pub proof fn law_jump_buffer(
    p: Player,
    vel: Vec2,
    landing_input: Input,
    landing_time: u64,
    landing_dt: u64,
    next_input: Input,
    next_time: u64,
    next_dt: u64,
)
    requires
        p.wf(),
        p.state == State::Airborne,
        p.pressed_jump,
        !p.can_jump,
        p.times_jumped_since_grounded >= 1,
        p.properties.jumps_available > 0,
        landing_input.jump != ActionState::JustPressed,
        next_input.jump != ActionState::JustPressed,
    ensures
        ({
            let (p1, v1) = spec_update(p, vel, landing_input, landing_time, landing_dt);
            let landed = Player { state: State::Grounded, ..p1 };
            let (p2, v2) = spec_update(landed, v1, next_input, next_time, next_dt);
            &&& landing_time <= p.jump_pressed_time + p.properties.jump_buffer_time ==> {
                &&& v2.y == p.properties.jump_force
                &&& p2.times_jumped_since_grounded == 1
                &&& !p2.pressed_jump
            }
            &&& landing_time > p.jump_pressed_time + p.properties.jump_buffer_time ==> {
                &&& v2.y == gravity_applied(
                    p.properties,
                    v1.y as int,
                    next_input.jump.spec_is_pressed(),
                    next_dt as int,
                )
                &&& p2.times_jumped_since_grounded == 0
                &&& !p2.pressed_jump
            }
        }),
{
}

/// Coyote time: a first jump made in the air no later than `coyote_time` after leaving the
/// ground is the first jump (full force, one jump used). Made later, the first jump has
/// been forfeited: with one jump available there is no jump at all; with more, the jump
/// made is the second (reduced by the coefficient, two jumps used).
pub proof fn law_coyote_jump(p: Player, vel: Vec2, input: Input, now: u64, dt: u64)
    requires
        p.wf(),
        p.state == State::Airborne,
        p.times_jumped_since_grounded == 0,
        p.can_jump,
        p.properties.jumps_available >= 1,
        input.jump == ActionState::JustPressed,
    ensures
        ({
            let (q, v) = spec_update(p, vel, input, now, dt);
            let props = p.properties;
            &&& now <= p.last_grounded_time + props.coyote_time ==> {
                &&& v.y == props.jump_force
                &&& q.times_jumped_since_grounded == 1
                &&& q.can_jump == (1 < props.jumps_available)
                &&& !q.pressed_jump
            }
            &&& now > p.last_grounded_time + props.coyote_time && props.jumps_available == 1 ==> {
                &&& v.y == gravity_applied(props, vel.y as int, true, dt as int)
                &&& q.times_jumped_since_grounded == 0
                &&& !q.can_jump
            }
            &&& now > p.last_grounded_time + props.coyote_time && props.jumps_available >= 2 ==> {
                &&& v.y == props.jump_force * props.multijump_coefficient / COEFFICIENT_ONE as int
                &&& q.times_jumped_since_grounded == 2
                &&& q.can_jump == (2 < props.jumps_available)
                &&& !q.pressed_jump
            }
        }),
{
    lemma_impulse_bounded(p.properties.jump_force as int, p.properties.multijump_coefficient as int, 1);
    assert(jump_impulse(p.properties.jump_force as int, p.properties.multijump_coefficient as int, 1)
        == jump_impulse(p.properties.jump_force as int, p.properties.multijump_coefficient as int, 0)
        * p.properties.multijump_coefficient / COEFFICIENT_ONE as int);
}

/// Coyote time without a jump: once more than `coyote_time` has passed since leaving the
/// ground with no jump made, one jump is silently forfeited (with a single jump available,
/// jumping ends); before that nothing is forfeited.
pub proof fn law_coyote_forfeit(p: Player, vel: Vec2, input: Input, now: u64, dt: u64)
    requires
        p.wf(),
        p.state == State::Airborne,
        p.times_jumped_since_grounded == 0,
        !p.pressed_jump,
        input.jump != ActionState::JustPressed,
    ensures
        ({
            let (q, v) = spec_update(p, vel, input, now, dt);
            let late = now > p.last_grounded_time + p.properties.coyote_time;
            &&& late && p.properties.jumps_available == 1 ==> !q.can_jump
                && q.times_jumped_since_grounded == 0
            &&& late && p.properties.jumps_available != 1 ==> q.times_jumped_since_grounded == 1
            &&& !late ==> q.times_jumped_since_grounded == 0 && q.can_jump == p.can_jump
        }),
{
}

/// Jump buffering on landing: a press still pending on a grounded tick fires a full jump,
/// the first since grounded, and is used up.
pub proof fn law_buffered_jump_on_ground(p: Player, vel: Vec2, input: Input, now: u64, dt: u64)
    requires
        p.wf(),
        p.state == State::Grounded,
        p.pressed_jump,
        p.properties.jumps_available > 0,
    ensures
        ({
            let (q, v) = spec_update(p, vel, input, now, dt);
            &&& v.y == p.properties.jump_force
            &&& q.times_jumped_since_grounded == 1
            &&& !q.pressed_jump
        }),
{
}

/// Multi-jump falloff: whenever a jump (not a wall jump) is made with `n` jumps already
/// counted since grounded (after the tick's bookkeeping), the vertical speed becomes
/// `jump_force * coefficient^n`; one more jump is counted, jumping stays allowed while
/// fewer than `jumps_available` have been made, and the press is used up. Each further
/// speed is the previous one times the coefficient.
pub proof fn law_multijump_falloff(p: Player, vel: Vec2, input: Input, now: u64, dt: u64)
    requires
        p.wf(),
        ({
            let b = bookkeeping(after_press(p, input, now), now);
            &&& b.pressed_jump
            &&& b.can_jump
            &&& !(p.properties.can_walljump && b.state is Sliding)
        }),
    ensures
        ({
            let (q, v) = spec_update(p, vel, input, now, dt);
            let n = bookkeeping(after_press(p, input, now), now).times_jumped_since_grounded as nat;
            let props = p.properties;
            &&& v.y == jump_impulse(props.jump_force as int, props.multijump_coefficient as int, n)
            &&& q.times_jumped_since_grounded == n + 1
            &&& q.can_jump == (n + 1 < props.jumps_available)
            &&& !q.pressed_jump
            &&& jump_impulse(props.jump_force as int, props.multijump_coefficient as int, n + 1)
                == jump_impulse(props.jump_force as int, props.multijump_coefficient as int, n)
                * props.multijump_coefficient / COEFFICIENT_ONE as int
        }),
{
    let b = bookkeeping(after_press(p, input, now), now);
    lemma_impulse_bounded(
        p.properties.jump_force as int,
        p.properties.multijump_coefficient as int,
        b.times_jumped_since_grounded as nat,
    );
    assert(((b.times_jumped_since_grounded as nat + 1) - 1) as nat == b.times_jumped_since_grounded as nat);
}

proof fn lemma_impulse_bounded(force: int, coefficient: int, n: nat)
    requires
        0 <= force <= PROPERTY_LIMIT,
        0 <= coefficient <= COEFFICIENT_ONE,
    ensures
        0 <= jump_impulse(force, coefficient, n) <= force,
    decreases n,
{
    if n > 0 {
        lemma_impulse_bounded(force, coefficient, (n - 1) as nat);
        lemma_fraction(jump_impulse(force, coefficient, (n - 1) as nat), coefficient, COEFFICIENT_ONE as int);
        assert(coefficient * jump_impulse(force, coefficient, (n - 1) as nat) == jump_impulse(
            force,
            coefficient,
            (n - 1) as nat,
        ) * coefficient) by (nonlinear_arith);
    }
}

} // verus!
