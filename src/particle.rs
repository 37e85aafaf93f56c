use vstd::prelude::*;
use vstd::arithmetic::div_mod::{
    lemma_div_by_multiple, lemma_div_is_ordered, lemma_div_is_ordered_by_denominator,
};
use crate::parameters::{InteractionType, Parameters, PARAMETER_LIMIT, UNIT};

verus! {

/// Positions are held within this distance of the origin on each axis, in millionths.
pub const WORLD_LIMIT: i64 = 0x100_0000_0000;

/// Two particles closer than 1e-4 units exert no force on each other: this is that
/// distance, squared, in millionths squared.
pub const MIN_DISTANCE_SQUARED: u128 = 10_000;

/// A vector of three fixed-point components.
#[derive(Clone, Copy, PartialEq, Eq, Structural, Debug)]
pub struct Vec3 {
    pub x: i64,
    pub y: i64,
    pub z: i64,
}

/// One particle of a run: the index of its kind, its kinematic state and the bound on
/// each velocity component. Real-valued fields are in millionths.
#[derive(Clone, Copy, PartialEq, Eq, Structural, Debug)]
pub struct Particle {
    pub index: usize,
    pub position: Vec3,
    pub mass: i64,
    pub velocity: Vec3,
    pub max_velocity: i64,
}

/// Division rounding toward zero, as integer division in Rust does.
pub open spec fn trunc_div(a: int, b: int) -> int {
    if a >= 0 {
        a / b
    } else {
        -((-a) / b)
    }
}

/// `v` with its magnitude limited to `m`, its sign kept.
pub open spec fn clamp_abs(v: int, m: int) -> int {
    if v > m {
        m
    } else if v < -m {
        -m
    } else {
        v
    }
}

/// `p` held inside the world bounds.
pub open spec fn clamp_world(p: int) -> int {
    clamp_abs(p, WORLD_LIMIT as int)
}

pub open spec fn is_floor_sqrt(r: int, n: int) -> bool {
    0 <= r && r * r <= n < (r + 1) * (r + 1)
}

/// The integer square root of `n`, rounded down.
pub open spec fn floor_sqrt(n: int) -> int {
    choose|r: int| is_floor_sqrt(r, n)
}

pub open spec fn norm_squared(v: Vec3) -> int {
    v.x * v.x + v.y * v.y + v.z * v.z
}

pub open spec fn vec_in_world(v: Vec3) -> bool {
    &&& -WORLD_LIMIT <= v.x <= WORLD_LIMIT
    &&& -WORLD_LIMIT <= v.y <= WORLD_LIMIT
    &&& -WORLD_LIMIT <= v.z <= WORLD_LIMIT
}

pub open spec fn vec_bounded(v: Vec3, m: int) -> bool {
    &&& -m <= v.x <= m
    &&& -m <= v.y <= m
    &&& -m <= v.z <= m
}

/// Change of one velocity component, in millionths, caused by a body of mass `m` at
/// offset `dir` on that axis and squared distance `d2`, under gravity constant `g`:
/// `g * m / |d|^2`, along the unit direction.
pub open spec fn pull_component(g: int, m: int, dir: int, d2: int) -> int {
    let force = g * m * UNIT / d2;
    trunc_div(force * dir, floor_sqrt(d2))
}

pub open spec fn offset(from: Vec3, to: Vec3) -> Vec3 {
    Vec3 { x: (to.x - from.x) as i64, y: (to.y - from.y) as i64, z: (to.z - from.z) as i64 }
}

/// A pull toward the other body under attraction, away from it under repulsion.
pub open spec fn oriented(t: InteractionType, a: int) -> int {
    if t == InteractionType::Attraction {
        a
    } else {
        -a
    }
}

/// Velocity of `p` after the body at `other` of mass `m` acted on it under `t`.
pub open spec fn pulled_velocity(p: Particle, other: Vec3, m: int, t: InteractionType, g: int) -> Vec3 {
    let dir = offset(p.position, other);
    let d2 = norm_squared(dir);
    if t == InteractionType::Neutral || d2 <= MIN_DISTANCE_SQUARED {
        p.velocity
    } else {
        Vec3 {
            x: clamp_abs(p.velocity.x + oriented(t, pull_component(g, m, dir.x as int, d2)), p.max_velocity as int) as i64,
            y: clamp_abs(p.velocity.y + oriented(t, pull_component(g, m, dir.y as int, d2)), p.max_velocity as int) as i64,
            z: clamp_abs(p.velocity.z + oriented(t, pull_component(g, m, dir.z as int, d2)), p.max_velocity as int) as i64,
        }
    }
}

/// Velocity scaled by `1 - friction`.
pub open spec fn slowed_velocity(v: Vec3, friction: int) -> Vec3 {
    Vec3 {
        x: trunc_div(v.x * (UNIT - friction), UNIT as int) as i64,
        y: trunc_div(v.y * (UNIT - friction), UNIT as int) as i64,
        z: trunc_div(v.z * (UNIT - friction), UNIT as int) as i64,
    }
}

/// Position reached from `p` after moving at `v` for `dt`.
pub open spec fn advanced(p: Vec3, v: Vec3, dt: int) -> Vec3 {
    Vec3 {
        x: clamp_world(p.x + trunc_div(v.x * dt, UNIT as int)) as i64,
        y: clamp_world(p.y + trunc_div(v.y * dt, UNIT as int)) as i64,
        z: clamp_world(p.z + trunc_div(v.z * dt, UNIT as int)) as i64,
    }
}

pub open spec fn negated(v: Vec3) -> Vec3 {
    Vec3 { x: -v.x as i64, y: -v.y as i64, z: -v.z as i64 }
}

/// The particle after its position update: the tentative position, or, where that
/// lies farther than `border` from the origin, the velocity reversed once and the
/// position recomputed from it.
pub open spec fn moved(p: Particle, dt: int, border: int) -> Particle {
    let tentative = advanced(p.position, p.velocity, dt);
    if norm_squared(tentative) > border * border {
        Particle {
            position: advanced(p.position, negated(p.velocity), dt),
            velocity: negated(p.velocity),
            ..p
        }
    } else {
        Particle { position: tentative, ..p }
    }
}

impl Particle {
    pub open spec fn well_formed(&self) -> bool {
        &&& 0 < self.mass <= PARAMETER_LIMIT
        &&& 0 <= self.max_velocity <= PARAMETER_LIMIT
        &&& vec_bounded(self.velocity, self.max_velocity as int)
        &&& vec_in_world(self.position)
    }

    /// A particle with the given state.
    pub fn with_state(index: usize, position: Vec3, velocity: Vec3, mass: i64, max_velocity: i64) -> (r: Particle)
        ensures
            r == (Particle { index, position, velocity, mass, max_velocity }),
    {
        Particle { index, position, velocity, mass, max_velocity }
    }

    /// Applies the force that the body at `other_position` of mass `other_mass` exerts
    /// under `interaction_type`, then limits each velocity component to `max_velocity`.
    /// Neutral pairs and pairs closer than the minimal distance leave the velocity as it is.
    pub fn update_velocity(
        &mut self,
        other_position: Vec3,
        other_mass: i64,
        interaction_type: InteractionType,
        gravity_constant: i64,
    )
        requires
            old(self).well_formed(),
            vec_in_world(other_position),
            0 <= other_mass <= PARAMETER_LIMIT,
            0 <= gravity_constant <= PARAMETER_LIMIT,
        ensures
            *final(self) == (Particle {
                velocity: pulled_velocity(
                    *old(self),
                    other_position,
                    other_mass as int,
                    interaction_type,
                    gravity_constant as int,
                ),
                ..*old(self)
            }),
            final(self).well_formed(),
    {
        if interaction_type == InteractionType::Neutral {
            return;
        }
        let dx = other_position.x - self.position.x;
        let dy = other_position.y - self.position.y;
        let dz = other_position.z - self.position.z;
        let d2 = square(dx) + square(dy) + square(dz);
        proof {
            assert(offset(self.position, other_position) == Vec3 { x: dx, y: dy, z: dz });
        }
        if d2 <= MIN_DISTANCE_SQUARED {
            return;
        }
        let d = floor_sqrt_exec(d2);
        proof {
            if d == 0 {
                assert((d + 1) * (d + 1) == 1) by (nonlinear_arith)
                    requires
                        d == 0,
                ;
            }
            assert((gravity_constant as u128) * (other_mass as u128) * (UNIT as u128)
                <= 0x1000_0000_0000_0000_0000_0000) by (nonlinear_arith)
                requires
                    0 <= gravity_constant <= PARAMETER_LIMIT,
                    0 <= other_mass <= PARAMETER_LIMIT,
            ;
        }
        let force = (gravity_constant as u128) * (other_mass as u128) * (UNIT as u128) / d2;
        proof {
            lemma_div_is_ordered(
                (gravity_constant as u128) * (other_mass as u128) * (UNIT as u128) as int,
                0x1000_0000_0000_0000_0000_0000,
                d2 as int,
            );
            lemma_div_is_ordered_by_denominator(0x1000_0000_0000_0000_0000_0000, 10_001, d2 as int);
            assert(0x1000_0000_0000_0000_0000_0000int / 10_001int <= 0x1_0000_0000_0000_0000_0000);
        }
        let ax = pull(force, dx, d);
        let ay = pull(force, dy, d);
        let az = pull(force, dz, d);
        let m = self.max_velocity as i128;
        let (nx, ny, nz) = if interaction_type == InteractionType::Attraction {
            (self.velocity.x as i128 + ax, self.velocity.y as i128 + ay, self.velocity.z as i128 + az)
        } else {
            (self.velocity.x as i128 - ax, self.velocity.y as i128 - ay, self.velocity.z as i128 - az)
        };
        self.velocity = Vec3 {
            x: clamp_exec(nx, m) as i64,
            y: clamp_exec(ny, m) as i64,
            z: clamp_exec(nz, m) as i64,
        };
    }

    /// Scales the velocity by `1 - friction`.
    pub fn apply_friction(&mut self, friction: i64)
        requires
            old(self).well_formed(),
            0 <= friction <= 2 * UNIT,
        ensures
            *final(self) == (Particle {
                velocity: slowed_velocity(old(self).velocity, friction as int),
                ..*old(self)
            }),
            final(self).well_formed(),
    {
        let factor = (UNIT - friction) as i128;
        let m = self.max_velocity;
        self.velocity = Vec3 {
            x: scale(self.velocity.x, factor, m),
            y: scale(self.velocity.y, factor, m),
            z: scale(self.velocity.z, factor, m),
        };
    }

    /// Where the particle would be after moving at its velocity for `time_step`.
    pub fn compute_updated_position(&self, time_step: i64) -> (r: Vec3)
        requires
            self.well_formed(),
            0 <= time_step <= PARAMETER_LIMIT,
        ensures
            r == advanced(self.position, self.velocity, time_step as int),
    {
        Vec3 {
            x: advance_axis(self.position.x, self.velocity.x, time_step),
            y: advance_axis(self.position.y, self.velocity.y, time_step),
            z: advance_axis(self.position.z, self.velocity.z, time_step),
        }
    }

    /// Moves the particle for one timestep. Where the tentative position lies farther
    /// than `border` from the origin, the whole velocity is reversed and the position
    /// recomputed from it, and that position is taken as it is.
    pub fn update_position(&mut self, parameters: &Parameters)
        requires
            old(self).well_formed(),
            parameters.scalars_in_range(),
        ensures
            *final(self) == moved(*old(self), parameters.timestep as int, parameters.border as int),
            final(self).well_formed(),
    {
        let mut updated_position = self.compute_updated_position(parameters.timestep);
        let distance_squared = square(updated_position.x) + square(updated_position.y) + square(
            updated_position.z,
        );
        let border = parameters.border as u128;
        assert(border * border <= 0x100_0000_0000_0000_0000) by (nonlinear_arith)
            requires
                border <= PARAMETER_LIMIT,
        ;
        if distance_squared > border * border {
            self.velocity = Vec3 { x: -self.velocity.x, y: -self.velocity.y, z: -self.velocity.z };
            updated_position = self.compute_updated_position(parameters.timestep);
        }
        self.position = updated_position;
    }

    /// A particle of kind `index` at a position drawn uniformly in `[-border, border]`
    /// on each axis, with a velocity drawn uniformly in `[-max_velocity, max_velocity]`
    /// on each axis.
    pub fn new(index: usize, border: i64, mass: i64, max_velocity: i64) -> (r: Particle)
        requires
            0 <= border <= PARAMETER_LIMIT,
            0 < mass <= PARAMETER_LIMIT,
            0 <= max_velocity <= PARAMETER_LIMIT,
        ensures
            r.index == index,
            r.mass == mass,
            r.max_velocity == max_velocity,
            vec_bounded(r.position, border as int),
            r.well_formed(),
    {
        let position = Vec3 {
            x: uniform_between(-border, border),
            y: uniform_between(-border, border),
            z: uniform_between(-border, border),
        };
        let velocity = Vec3 {
            x: uniform_between(-max_velocity, max_velocity),
            y: uniform_between(-max_velocity, max_velocity),
            z: uniform_between(-max_velocity, max_velocity),
        };
        Particle { index, position, mass, velocity, max_velocity }
    }
}

/// Relies on rand::Rng::gen_range on rand::thread_rng: a value of the inclusive range,
/// which must not be empty (gen_range asserts it). thread_rng itself panics only where
/// the operating system's entropy source cannot seed it.
#[verifier::external_body]
fn uniform_between(low: i64, high: i64) -> (r: i64)
    requires
        low <= high,
    ensures
        low <= r <= high,
{
    rand::Rng::gen_range(&mut rand::thread_rng(), low..=high)
}

/// Division of `a` by a positive `b`, rounding toward zero.
fn trunc_div_exec(a: i128, b: i128) -> (r: i128)
    requires
        0 < b,
        -0x1000_0000_0000_0000_0000_0000_0000_0000 <= a <= 0x1000_0000_0000_0000_0000_0000_0000_0000,
    ensures
        r == trunc_div(a as int, b as int),
{
    if a >= 0 {
        ((a as u128) / (b as u128)) as i128
    } else {
        -(((-a) as u128 / (b as u128)) as i128)
    }
}

/// `trunc_div(v * factor, UNIT)`, which lies within `m` of zero as `v` does.
fn scale(v: i64, factor: i128, m: i64) -> (r: i64)
    requires
        0 <= m <= PARAMETER_LIMIT,
        -m <= v <= m,
        -UNIT <= factor <= UNIT,
    ensures
        r == trunc_div(v * factor, UNIT as int),
        -m <= r <= m,
{
    assert(-0x100_0000_0000_0000 <= v * factor <= 0x100_0000_0000_0000) by (nonlinear_arith)
        requires
            -PARAMETER_LIMIT <= v <= PARAMETER_LIMIT,
            -UNIT <= factor <= UNIT,
    ;
    let w = (v as i128) * factor;
    proof {
        let mag: int = if w >= 0 {
            w as int
        } else {
            -w
        };
        assert(0 <= mag <= m * UNIT) by (nonlinear_arith)
            requires
                mag == w || mag == -w,
                w == v * factor,
                -m <= v <= m,
                -UNIT <= factor <= UNIT,
                0 <= m,
                0 <= mag,
        ;
        lemma_div_is_ordered(mag, m * UNIT, UNIT as int);
        lemma_div_by_multiple(m as int, UNIT as int);
    }
    trunc_div_exec(w, UNIT as i128) as i64
}

/// `p + v * dt` on one axis, held inside the world bounds.
fn advance_axis(p: i64, v: i64, dt: i64) -> (r: i64)
    requires
        -PARAMETER_LIMIT <= v <= PARAMETER_LIMIT,
        0 <= dt <= PARAMETER_LIMIT,
        -WORLD_LIMIT <= p <= WORLD_LIMIT,
    ensures
        r == clamp_world(p + trunc_div(v * dt, UNIT as int)),
{
    assert(-0x100_0000_0000_0000_0000 <= v * dt <= 0x100_0000_0000_0000_0000) by (nonlinear_arith)
        requires
            -PARAMETER_LIMIT <= v <= PARAMETER_LIMIT,
            0 <= dt <= PARAMETER_LIMIT,
    ;
    let step = trunc_div_exec((v as i128) * (dt as i128), UNIT as i128);
    proof {
        let w = v * dt;
        if w >= 0 {
            lemma_div_is_ordered(w, 0x100_0000_0000_0000_0000, UNIT as int);
        } else {
            lemma_div_is_ordered(-w, 0x100_0000_0000_0000_0000, UNIT as int);
        }
    }
    clamp_exec(p as i128 + step, WORLD_LIMIT as i128) as i64
}


/// `trunc_div(force * dir, d)`, computed on magnitudes.
fn pull(force: u128, dir: i64, d: u128) -> (r: i128)
    requires
        force <= 0x1_0000_0000_0000_0000_0000,
        -2 * WORLD_LIMIT <= dir <= 2 * WORLD_LIMIT,
        0 < d,
    ensures
        r == trunc_div(force * dir, d as int),
        -0x200_0000_0000_0000_0000_0000_0000_0000 <= r <= 0x200_0000_0000_0000_0000_0000_0000_0000,
{
    let mag: u128 = if dir < 0 {
        (-(dir as i128)) as u128
    } else {
        dir as u128
    };
    assert(force * mag <= 0x200_0000_0000_0000_0000_0000_0000_0000) by (nonlinear_arith)
        requires
            force <= 0x1_0000_0000_0000_0000_0000,
            mag <= 0x200_0000_0000,
    ;
    let q = force * mag / d;
    proof {
        lemma_div_is_ordered_by_denominator((force * mag) as int, 1, d as int);
        if dir < 0 {
            assert(force * dir == -(force * mag)) by (nonlinear_arith)
                requires
                    mag == -dir,
            ;
        } else {
            assert(force * dir == force * mag);
        }
    }
    if dir < 0 {
        -(q as i128)
    } else {
        q as i128
    }
}

/// `x * x`, widened so that it cannot overflow.
fn square(x: i64) -> (r: u128)
    requires
        -2 * WORLD_LIMIT <= x <= 2 * WORLD_LIMIT,
    ensures
        r == x * x,
        r <= 0x4_0000_0000_0000_0000_0000,
{
    let a: u128 = if x < 0 {
        (-(x as i128)) as u128
    } else {
        x as u128
    };
    assert(a * a == x * x && a * a <= 0x4_0000_0000_0000_0000_0000) by (nonlinear_arith)
        requires
            a == x || a == -x,
            0 <= a <= 0x200_0000_0000,
    ;
    a * a
}

fn clamp_exec(v: i128, m: i128) -> (r: i128)
    requires
        0 <= m,
    ensures
        r == clamp_abs(v as int, m as int),
{
    if v > m {
        m
    } else if v < -m {
        -m
    } else {
        v
    }
}

proof fn lemma_floor_sqrt_unique(r: int, n: int)
    requires
        is_floor_sqrt(r, n),
    ensures
        floor_sqrt(n) == r,
{
    let s = floor_sqrt(n);
    assert(is_floor_sqrt(s, n));
    if s < r {
        assert((s + 1) * (s + 1) <= r * r) by (nonlinear_arith)
            requires
                0 <= s < r,
        ;
    } else if r < s {
        assert((r + 1) * (r + 1) <= s * s) by (nonlinear_arith)
            requires
                0 <= r < s,
        ;
    }
}

/// The integer square root of `n`, by bisection.
fn floor_sqrt_exec(n: u128) -> (r: u128)
    requires
        n < 0x10_0000_0000_0000_0000_0000,
    ensures
        r == floor_sqrt(n as int),
        r * r <= n,
        n < (r + 1) * (r + 1),
{
    let mut low: u128 = 0;
    let mut high: u128 = 0x400_0000_0000;
    assert(n < high * high) by (nonlinear_arith)
        requires
            n < 0x10_0000_0000_0000_0000_0000,
            high == 0x400_0000_0000,
    ;
    while high - low > 1
        invariant
            low < high <= 0x400_0000_0000,
            low * low <= n,
            n < high * high,
        decreases high - low,
    {
        let mid = low + (high - low) / 2;
        assert(mid * mid <= 0x10_0000_0000_0000_0000_0000) by (nonlinear_arith)
            requires
                mid <= 0x400_0000_0000,
        ;
        if mid * mid <= n {
            low = mid;
        } else {
            high = mid;
        }
    }
    proof {
        assert(is_floor_sqrt(low as int, n as int));
        lemma_floor_sqrt_unique(low as int, n as int);
    }
    low
}

/// `v` held inside the range of `i32`, as a narrowing conversion of a real number does.
pub open spec fn saturate_i32(v: int) -> int {
    if v > i32::MAX {
        i32::MAX as int
    } else if v < i32::MIN {
        i32::MIN as int
    } else {
        v
    }
}

/// The bucket of `x` for buckets of width `size`: the quotient rounded toward zero.
pub open spec fn bucket(x: int, size: int) -> i32 {
    saturate_i32(trunc_div(x, size)) as i32
}

/// A particle's state reduced to whole buckets. It is the key under which the store
/// counts visits: particles whose state falls into the same buckets share it.
#[derive(Clone, Copy, PartialEq, Eq, Hash, Debug)]
pub struct StateVector {
    pub mass: i32,
    pub position_bucket: (i32, i32, i32),
    pub velocity_bucket: (i32, i32, i32),
}

/// The key of a state: the mass truncated to whole units, each position and velocity
/// component divided by the bucket size and truncated toward zero.
pub open spec fn discretized(
    mass: int,
    position: (i64, i64, i64),
    velocity: (i64, i64, i64),
    bucket_size: int,
) -> StateVector {
    StateVector {
        mass: bucket(mass, UNIT as int),
        position_bucket: (
            bucket(position.0 as int, bucket_size),
            bucket(position.1 as int, bucket_size),
            bucket(position.2 as int, bucket_size),
        ),
        velocity_bucket: (
            bucket(velocity.0 as int, bucket_size),
            bucket(velocity.1 as int, bucket_size),
            bucket(velocity.2 as int, bucket_size),
        ),
    }
}

impl StateVector {
    /// Discretizes a mass, a position and a velocity, all in millionths.
    pub fn new(mass: i64, position: (i64, i64, i64), velocity: (i64, i64, i64), bucket_size: i64) -> (r: StateVector)
        requires
            0 < bucket_size,
        ensures
            r == discretized(mass as int, position, velocity, bucket_size as int),
    {
        StateVector {
            mass: bucket_exec(mass, UNIT),
            position_bucket: (
                bucket_exec(position.0, bucket_size),
                bucket_exec(position.1, bucket_size),
                bucket_exec(position.2, bucket_size),
            ),
            velocity_bucket: (
                bucket_exec(velocity.0, bucket_size),
                bucket_exec(velocity.1, bucket_size),
                bucket_exec(velocity.2, bucket_size),
            ),
        }
    }
}

impl Particle {
    /// The aggregation key of the particle's current state.
    pub fn to_state_vector(&self, bucket_size: i64) -> (r: StateVector)
        requires
            0 < bucket_size,
        ensures
            r == discretized(
                self.mass as int,
                (self.position.x, self.position.y, self.position.z),
                (self.velocity.x, self.velocity.y, self.velocity.z),
                bucket_size as int,
            ),
    {
        StateVector::new(
            self.mass,
            (self.position.x, self.position.y, self.position.z),
            (self.velocity.x, self.velocity.y, self.velocity.z),
            bucket_size,
        )
    }
}

fn bucket_exec(x: i64, size: i64) -> (r: i32)
    requires
        0 < size,
    ensures
        r == bucket(x as int, size as int),
{
    let q = trunc_div_exec(x as i128, size as i128);
    if q > i32::MAX as i128 {
        i32::MAX
    } else if q < i32::MIN as i128 {
        i32::MIN
    } else {
        q as i32
    }
}

/// Particles with equal mass, position and velocity have the same key, whatever their
/// kind: discretizing the same state twice gives the same buckets.
pub proof fn lemma_discretization_deterministic(p: Particle, q: Particle, bucket_size: int)
    requires
        p.mass == q.mass,
        p.position == q.position,
        p.velocity == q.velocity,
    ensures
        discretized(
            p.mass as int,
            (p.position.x, p.position.y, p.position.z),
            (p.velocity.x, p.velocity.y, p.velocity.z),
            bucket_size,
        ) == discretized(
            q.mass as int,
            (q.position.x, q.position.y, q.position.z),
            (q.velocity.x, q.velocity.y, q.velocity.z),
            bucket_size,
        ),
{
}

} // verus!
