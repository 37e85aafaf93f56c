use vstd::prelude::*;
use vstd::arithmetic::div_mod::{lemma_div_by_multiple, lemma_div_multiples_vanish_fancy};
use crate::parameters::{
    error_message, InteractionType, Parameters, ParticleParameters, PARAMETER_LIMIT, UNIT,
};
use crate::particle::{
    advanced, clamp_world, moved, negated, norm_squared, offset, pulled_velocity, slowed_velocity,
    trunc_div, vec_bounded, Particle, Vec3, MIN_DISTANCE_SQUARED,
};

verus! {

/// Particle `i` of the snapshot `ps` after the particles `0 .. n` of the same snapshot,
/// all but itself, acted on it in that order.
pub open spec fn forces_upto(ps: Seq<Particle>, i: int, n: int, params: Parameters) -> Particle
    decreases n,
{
    if n <= 0 {
        ps[i]
    } else {
        let p = forces_upto(ps, i, n - 1, params);
        let q = ps[n - 1];
        if n - 1 == i {
            p
        } else {
            Particle {
                velocity: pulled_velocity(
                    p,
                    q.position,
                    q.mass as int,
                    params.interaction(ps[i].index as int, q.index as int),
                    params.gravity_constant as int,
                ),
                ..p
            }
        }
    }
}

/// Particle `i` of the snapshot `ps` after one timestep: the forces of all other
/// particles, then friction, then the position update.
pub open spec fn stepped(ps: Seq<Particle>, i: int, params: Parameters) -> Particle {
    let pulled = forces_upto(ps, i, ps.len() as int, params);
    moved(
        Particle { velocity: slowed_velocity(pulled.velocity, params.friction as int), ..pulled },
        params.timestep as int,
        params.border as int,
    )
}

pub open spec fn kinds_known(ps: Seq<Particle>, params: Parameters) -> bool {
    forall|m: int| 0 <= m < ps.len() ==> #[trigger] ps[m].index < params.kinds()
}

pub open spec fn all_well_formed(ps: Seq<Particle>) -> bool {
    forall|m: int| 0 <= m < ps.len() ==> #[trigger] ps[m].well_formed()
}

/// `p` is a fresh particle of `kind` under `params`.
pub open spec fn spawned(p: Particle, kind: ParticleParameters, params: Parameters) -> bool {
    &&& p.index == kind.index
    &&& p.mass == kind.mass
    &&& p.max_velocity == params.max_velocity
    &&& vec_bounded(p.position, params.border as int)
    &&& p.well_formed()
}

/// `amount` fresh particles of the kind `index`, placed and set moving at random.
pub fn initialize_particle_kind(index: usize, border: i64, mass: i64, amount: usize, max_velocity: i64) -> (r: Vec<Particle>)
    requires
        0 <= border <= PARAMETER_LIMIT,
        0 < mass <= PARAMETER_LIMIT,
        0 <= max_velocity <= PARAMETER_LIMIT,
    ensures
        r@.len() == amount,
        forall|t: int|
            0 <= t < amount ==> {
                &&& (#[trigger] r@[t]).index == index
                &&& r@[t].mass == mass
                &&& r@[t].max_velocity == max_velocity
                &&& vec_bounded(r@[t].position, border as int)
                &&& r@[t].well_formed()
            },
{
    let mut particles: Vec<Particle> = Vec::new();
    let mut t: usize = 0;
    while t < amount
        invariant
            t <= amount,
            particles@.len() == t,
            0 <= border <= PARAMETER_LIMIT,
            0 < mass <= PARAMETER_LIMIT,
            0 <= max_velocity <= PARAMETER_LIMIT,
            forall|u: int|
                0 <= u < t ==> {
                    &&& (#[trigger] particles@[u]).index == index
                    &&& particles@[u].mass == mass
                    &&& particles@[u].max_velocity == max_velocity
                    &&& vec_bounded(particles@[u].position, border as int)
                    &&& particles@[u].well_formed()
                },
        decreases amount - t,
    {
        particles.push(Particle::new(index, border, mass, max_velocity));
        t = t + 1;
    }
    particles
}

/// The population of a run: `amount` particles of each kind, the kinds in the order of
/// the parameters.
pub fn create_particles(parameters: &Parameters) -> (r: Vec<Particle>)
    requires
        parameters.scalars_in_range(),
        parameters.kinds() * parameters.amount <= usize::MAX,
    ensures
        r@.len() == parameters.kinds() * parameters.amount,
        forall|n: int|
            0 <= n < r@.len() ==> spawned(
                #[trigger] r@[n],
                parameters.particle_parameters@[n / parameters.amount as int],
                *parameters,
            ),
{
    let amount = parameters.amount;
    let kinds = parameters.particle_parameters.len();
    let mut particles: Vec<Particle> = Vec::new();
    let mut c: usize = 0;
    while c < kinds
        invariant
            kinds == parameters.kinds(),
            amount == parameters.amount,
            parameters.scalars_in_range(),
            kinds * amount <= usize::MAX,
            c <= kinds,
            particles@.len() == c * amount,
            forall|n: int|
                0 <= n < particles@.len() ==> spawned(
                    #[trigger] particles@[n],
                    parameters.particle_parameters@[n / amount as int],
                    *parameters,
                ),
        decreases kinds - c,
    {
        let kind = &parameters.particle_parameters[c];
        assert(parameters.particle_parameters@[c as int].mass == kind.mass);
        let block = initialize_particle_kind(
            kind.index,
            parameters.border,
            kind.mass,
            amount,
            parameters.max_velocity,
        );
        assert((c + 1) * amount <= kinds * amount) by (nonlinear_arith)
            requires
                c + 1 <= kinds,
        ;
        assert((c + 1) * amount == c * amount + amount) by (nonlinear_arith);
        let mut t: usize = 0;
        while t < amount
            invariant
                kinds == parameters.kinds(),
                amount == parameters.amount,
                c < kinds,
                (c + 1) * amount <= usize::MAX,
                (c + 1) * amount == c * amount + amount,
                t <= amount,
                block@.len() == amount,
                particles@.len() == c * amount + t,
                *kind == parameters.particle_parameters@[c as int],
                forall|u: int|
                    0 <= u < amount ==> {
                        &&& (#[trigger] block@[u]).index == kind.index
                        &&& block@[u].mass == kind.mass
                        &&& block@[u].max_velocity == parameters.max_velocity
                        &&& vec_bounded(block@[u].position, parameters.border as int)
                        &&& block@[u].well_formed()
                    },
                forall|n: int|
                    0 <= n < particles@.len() ==> spawned(
                        #[trigger] particles@[n],
                        parameters.particle_parameters@[n / amount as int],
                        *parameters,
                    ),
            decreases amount - t,
        {
            proof {
                lemma_div_multiples_vanish_fancy(c as int, t as int, amount as int);
                assert(amount * c + t == c * amount + t) by (nonlinear_arith);
            }
            particles.push(block[t]);
            t = t + 1;
        }
        c = c + 1;
    }
    particles
}

/// Advances every particle by one timestep. All forces of the step are computed from
/// the positions the particles had when it began. A particle whose kind has no row in
/// the interaction table fails the step before anything changes.
pub fn update_particles(particles: &mut Vec<Particle>, parameters: &Parameters) -> (r: Result<(), String>)
    requires
        parameters.well_formed(),
        all_well_formed(old(particles)@),
    ensures
        r is Err <==> (old(particles)@.len() >= 2 && !kinds_known(old(particles)@, *parameters)),
        r is Err ==> final(particles)@ == old(particles)@ && r->Err_0@ == error_message(),
        r is Ok ==> final(particles)@.len() == old(particles)@.len() && forall|i: int|
            0 <= i < old(particles)@.len() ==> #[trigger] final(particles)@[i] == stepped(
                old(particles)@,
                i,
                *parameters,
            ),
        all_well_formed(final(particles)@),
{
    let len = particles.len();
    if len >= 2 {
        let k = parameters.particle_parameters.len();
        let mut m: usize = 0;
        while m < len
            invariant
                len == particles@.len(),
                particles@ == old(particles)@,
                all_well_formed(old(particles)@),
                len >= 2,
                k == parameters.kinds(),
                m <= len,
                forall|t: int| 0 <= t < m ==> #[trigger] particles@[t].index < k,
            decreases len - m,
        {
            if particles[m].index >= k {
                assert(!(particles@[m as int].index < parameters.kinds()));
                return Err("Index out of bounds".to_owned());
            }
            m = m + 1;
        }
    }
    let mut snapshot: Vec<Particle> = Vec::new();
    let mut c: usize = 0;
    while c < len
        invariant
            len == particles@.len(),
            c <= len,
            snapshot@ == particles@.subrange(0, c as int),
        decreases len - c,
    {
        snapshot.push(particles[c]);
        c = c + 1;
    }
    assert(snapshot@ == particles@);
    let ghost start = particles@;
    let mut i: usize = 0;
    while i < len
        invariant
            start == old(particles)@,
            snapshot@ == start,
            len == start.len(),
            particles@.len() == len,
            i <= len,
            len >= 2 ==> kinds_known(start, *parameters),
            parameters.well_formed(),
            all_well_formed(start),
            forall|t: int| 0 <= t < i ==> #[trigger] particles@[t] == stepped(start, t, *parameters),
            forall|t: int| i <= t < len ==> #[trigger] particles@[t] == start[t],
            forall|t: int| 0 <= t < i ==> #[trigger] particles@[t].well_formed(),
        decreases len - i,
    {
        let mut p = snapshot[i];
        let mut j: usize = 0;
        while j < len
            invariant
                snapshot@ == start,
                len == start.len(),
                i < len,
                j <= len,
                len >= 2 ==> kinds_known(start, *parameters),
                parameters.well_formed(),
                all_well_formed(start),
                p == forces_upto(start, i as int, j as int, *parameters),
                p.index == start[i as int].index,
                p.well_formed(),
            decreases len - j,
        {
            if j != i {
                let q = snapshot[j];
                assert(start[j as int].well_formed());
                let t = match parameters.interaction_by_indices(p.index, q.index) {
                    Ok(t) => t,
                    Err(e) => {
                        assert(false);
                        return Err(e);
                    },
                };
                p.update_velocity(q.position, q.mass, t, parameters.gravity_constant);
            }
            j = j + 1;
        }
        p.apply_friction(parameters.friction);
        p.update_position(parameters);
        particles.set(i, p);
        i = i + 1;
    }
    Ok(())
}

/// A force application leaves no velocity component larger in magnitude than the
/// particle's maximal velocity, however large the masses and the gravity constant are.
pub proof fn lemma_force_respects_max_velocity(
    p: Particle,
    other: Vec3,
    other_mass: int,
    t: InteractionType,
    gravity_constant: int,
)
    requires
        0 <= p.max_velocity,
        t != InteractionType::Neutral,
        norm_squared(offset(p.position, other)) > MIN_DISTANCE_SQUARED,
    ensures
        vec_bounded(
            pulled_velocity(p, other, other_mass, t, gravity_constant),
            p.max_velocity as int,
        ),
{
}

/// A particle whose tentative position lies farther than `border` from the origin has
/// its velocity reversed, and its new position is computed from the reversed velocity.
pub proof fn lemma_reflection_at_border(p: Particle, timestep: int, border: int)
    requires
        norm_squared(advanced(p.position, p.velocity, timestep)) > border * border,
    ensures
        moved(p, timestep, border).velocity == negated(p.velocity),
        moved(p, timestep, border).position == advanced(p.position, negated(p.velocity), timestep),
{
}

/// Without friction and gravity, one step moves a lone particle that stays inside the
/// border by exactly its velocity times the timestep, and keeps its velocity.
pub proof fn lemma_free_particle_step(p: Particle, params: Parameters)
    requires
        params.friction == 0,
        params.gravity_constant == 0,
        p.well_formed(),
        norm_squared(advanced(p.position, p.velocity, params.timestep as int)) <= params.border
            * params.border,
    ensures
        stepped(seq![p], 0, params).velocity == p.velocity,
        stepped(seq![p], 0, params).position == (Vec3 {
            x: clamp_world(p.position.x + trunc_div(p.velocity.x * params.timestep, UNIT as int)) as i64,
            y: clamp_world(p.position.y + trunc_div(p.velocity.y * params.timestep, UNIT as int)) as i64,
            z: clamp_world(p.position.z + trunc_div(p.velocity.z * params.timestep, UNIT as int)) as i64,
        }),
{
    let ps = seq![p];
    assert(forces_upto(ps, 0, 0, params) == p);
    assert(forces_upto(ps, 0, 1, params) == p);
    lemma_unscaled(p.velocity.x as int);
    lemma_unscaled(p.velocity.y as int);
    lemma_unscaled(p.velocity.z as int);
    assert(slowed_velocity(p.velocity, 0) == p.velocity);
}

/// Scaling by `1 - 0` keeps a component as it is.
proof fn lemma_unscaled(v: int)
    ensures
        trunc_div(v * (UNIT - 0), UNIT as int) == v,
{
    if v >= 0 {
        lemma_div_by_multiple(v, UNIT as int);
    } else {
        lemma_div_by_multiple(-v, UNIT as int);
    }
}

/// With two kinds, the first attracting itself, the second repelling itself and the
/// pair between them neutral, neither particle of a two-particle run is pulled by the
/// other during a step.
pub proof fn lemma_neutral_pair_untouched(ps: Seq<Particle>, params: Parameters)
    requires
        params.kinds() == 2,
        params.interactions@ == seq![
            InteractionType::Attraction,
            InteractionType::Neutral,
            InteractionType::Repulsion,
        ],
        ps.len() == 2,
        ps[0].index == 0,
        ps[1].index == 1,
    ensures
        forces_upto(ps, 0, 2, params) == ps[0],
        forces_upto(ps, 1, 2, params) == ps[1],
{
    assert(params.interaction(0, 1) == InteractionType::Neutral);
    assert(params.interaction(1, 0) == InteractionType::Neutral);
    assert(forces_upto(ps, 0, 0, params) == ps[0]);
    assert(forces_upto(ps, 1, 0, params) == ps[1]);
    assert(forces_upto(ps, 0, 1, params) == ps[0]);
    assert(forces_upto(ps, 1, 1, params) == ps[1]);
}

} // verus!
