use vstd::prelude::*;
use crate::parameters::{
    error_message, interaction_label, kinds_dense, lemma_packed_is_row_offset,
    lemma_row_start_monotone, lemma_rows_fill_table, packed_index, row_start, triangle,
    Parameters, ParticleParameters,
};
use crate::particle::{discretized, Particle, StateVector};

verus! {

/// One step of the store's schema: the statement that applies it and the one that
/// takes it back.
#[derive(Debug)]
pub struct Migration {
    pub up: String,
    pub down: String,
}

pub open spec fn run_parameters_table() -> Seq<char> {
    "CREATE TABLE run_parameters (
                run_id INTEGER PRIMARY KEY AUTOINCREMENT,
                amount INTEGER NOT NULL,
                border REAL NOT NULL,
                timestep REAL NOT NULL,
                gravity_constant REAL NOT NULL,
                friction REAL NOT NULL,
                max_velocity REAL NOT NULL,
                bucket_size REAL NOT NULL,
                created_at DATETIME DEFAULT CURRENT_TIMESTAMP
            );"@
}

pub open spec fn particle_parameters_table() -> Seq<char> {
    "CREATE TABLE particle_parameters (
                id INTEGER PRIMARY KEY AUTOINCREMENT,
                mass REAL NOT NULL,
                ix INTEGER NOT NULL,
                run_id INTEGER NOT NULL,
                FOREIGN KEY (run_id) REFERENCES run_parameters(run_id) ON DELETE CASCADE
            );"@
}

pub open spec fn interactions_table() -> Seq<char> {
    "CREATE TABLE interactions (
                id INTEGER PRIMARY KEY AUTOINCREMENT,
                interaction_type TEXT NOT NULL,
                parameter_id_0 INTEGER NOT NULL,
                parameter_id_1 INTEGER NOT NULL,
                FOREIGN KEY (parameter_id_0) REFERENCES particle_parameters(id) ON DELETE CASCADE,
                FOREIGN KEY (parameter_id_1) REFERENCES particle_parameters(id) ON DELETE CASCADE
            );"@
}

pub open spec fn state_vectors_table() -> Seq<char> {
    "CREATE TABLE state_vectors(
                 px INTEGER NOT NULL,
                 py INTEGER NOT NULL,
                 pz INTEGER NOT NULL,
                 vx INTEGER NOT NULL,
                 vy INTEGER NOT NULL,
                 vz INTEGER NOT NULL,
                 count INTEGER,
                 particle_parameters_id INTEGER NOT NULL,
                 PRIMARY KEY (particle_parameters_id, px, py, pz, vx, vy, vz),
                 FOREIGN KEY (particle_parameters_id) REFERENCES particle_parameters(id) ON DELETE CASCADE
               );"@
}

/// The schema of the store, oldest step first.
pub fn migrations() -> (r: Vec<Migration>)
    ensures
        r@.len() == 4,
        r@[0].up@ == run_parameters_table() && r@[0].down@ == "DROP TABLE run_parameters;"@,
        r@[1].up@ == particle_parameters_table() && r@[1].down@
            == "DROP TABLE particle_parameters;"@,
        r@[2].up@ == interactions_table() && r@[2].down@ == "DROP TABLE interactions;"@,
        r@[3].up@ == state_vectors_table() && r@[3].down@ == "DROP TABLE state_vectors;"@,
{
    let mut r: Vec<Migration> = Vec::new();
    r.push(
        Migration {
            up: "CREATE TABLE run_parameters (
                run_id INTEGER PRIMARY KEY AUTOINCREMENT,
                amount INTEGER NOT NULL,
                border REAL NOT NULL,
                timestep REAL NOT NULL,
                gravity_constant REAL NOT NULL,
                friction REAL NOT NULL,
                max_velocity REAL NOT NULL,
                bucket_size REAL NOT NULL,
                created_at DATETIME DEFAULT CURRENT_TIMESTAMP
            );".to_owned(),
            down: "DROP TABLE run_parameters;".to_owned(),
        },
    );
    r.push(
        Migration {
            up: "CREATE TABLE particle_parameters (
                id INTEGER PRIMARY KEY AUTOINCREMENT,
                mass REAL NOT NULL,
                ix INTEGER NOT NULL,
                run_id INTEGER NOT NULL,
                FOREIGN KEY (run_id) REFERENCES run_parameters(run_id) ON DELETE CASCADE
            );".to_owned(),
            down: "DROP TABLE particle_parameters;".to_owned(),
        },
    );
    r.push(
        Migration {
            up: "CREATE TABLE interactions (
                id INTEGER PRIMARY KEY AUTOINCREMENT,
                interaction_type TEXT NOT NULL,
                parameter_id_0 INTEGER NOT NULL,
                parameter_id_1 INTEGER NOT NULL,
                FOREIGN KEY (parameter_id_0) REFERENCES particle_parameters(id) ON DELETE CASCADE,
                FOREIGN KEY (parameter_id_1) REFERENCES particle_parameters(id) ON DELETE CASCADE
            );".to_owned(),
            down: "DROP TABLE interactions;".to_owned(),
        },
    );
    r.push(
        Migration {
            up: "CREATE TABLE state_vectors(
                 px INTEGER NOT NULL,
                 py INTEGER NOT NULL,
                 pz INTEGER NOT NULL,
                 vx INTEGER NOT NULL,
                 vy INTEGER NOT NULL,
                 vz INTEGER NOT NULL,
                 count INTEGER,
                 particle_parameters_id INTEGER NOT NULL,
                 PRIMARY KEY (particle_parameters_id, px, py, pz, vx, vy, vz),
                 FOREIGN KEY (particle_parameters_id) REFERENCES particle_parameters(id) ON DELETE CASCADE
               );".to_owned(),
            down: "DROP TABLE state_vectors;".to_owned(),
        },
    );
    r
}

pub open spec fn increment_sql() -> Seq<char> {
    "INSERT INTO state_vectors (px, py, pz, vx, vy, vz, particle_parameters_id, count)
         VALUES (?1, ?2, ?3, ?4, ?5, ?6, ?7, 1)
         ON CONFLICT(px, py, pz, vx, vy, vz, particle_parameters_id)
         DO UPDATE SET count = count + 1;"@
}

pub open spec fn insert_run_sql() -> Seq<char> {
    "INSERT INTO run_parameters (amount, border, timestep, gravity_constant, friction, max_velocity, bucket_size)
         VALUES (?1, ?2, ?3, ?4, ?5, ?6, ?7);"@
}

pub open spec fn insert_kind_sql() -> Seq<char> {
    "INSERT INTO particle_parameters (mass, ix, run_id)
             VALUES (?1, ?2, ?3);"@
}

pub open spec fn insert_interaction_sql() -> Seq<char> {
    "INSERT INTO interactions (interaction_type, parameter_id_0, parameter_id_1)
                 VALUES (?1, ?2, ?3);"@
}

/// The upsert that counts one visit of a state: a new record at 1, or one more on the
/// record already there. Its parameters are the seven values of `state_row`.
pub fn increment_statement() -> (r: String)
    ensures
        r@ == increment_sql(),
{
    "INSERT INTO state_vectors (px, py, pz, vx, vy, vz, particle_parameters_id, count)
         VALUES (?1, ?2, ?3, ?4, ?5, ?6, ?7, 1)
         ON CONFLICT(px, py, pz, vx, vy, vz, particle_parameters_id)
         DO UPDATE SET count = count + 1;".to_owned()
}

/// Inserts one run; its parameters are the amount and the six real-valued constants.
pub fn insert_run_statement() -> (r: String)
    ensures
        r@ == insert_run_sql(),
{
    "INSERT INTO run_parameters (amount, border, timestep, gravity_constant, friction, max_velocity, bucket_size)
         VALUES (?1, ?2, ?3, ?4, ?5, ?6, ?7);".to_owned()
}

/// Inserts one kind; its parameters are those of a `KindRow`.
pub fn insert_kind_statement() -> (r: String)
    ensures
        r@ == insert_kind_sql(),
{
    "INSERT INTO particle_parameters (mass, ix, run_id)
             VALUES (?1, ?2, ?3);".to_owned()
}

/// Inserts one interaction; its parameters are those of an `InteractionRow`.
pub fn insert_interaction_statement() -> (r: String)
    ensures
        r@ == insert_interaction_sql(),
{
    "INSERT INTO interactions (interaction_type, parameter_id_0, parameter_id_1)
                 VALUES (?1, ?2, ?3);".to_owned()
}

/// The values of one kind as they are stored.
#[derive(Clone, Copy, PartialEq, Eq, Structural, Debug)]
pub struct KindRow {
    pub mass: i64,
    pub index: usize,
    pub run_id: i64,
}

/// One row per kind, in the order of the kinds, each tagged with the run.
pub fn kind_rows(parameters: &Parameters, run_id: i64) -> (r: Vec<KindRow>)
    ensures
        r@.len() == parameters.kinds(),
        forall|n: int|
            0 <= n < r@.len() ==> #[trigger] r@[n] == (KindRow {
                mass: parameters.particle_parameters@[n].mass,
                index: parameters.particle_parameters@[n].index,
                run_id,
            }),
{
    let mut rows: Vec<KindRow> = Vec::new();
    let mut n: usize = 0;
    while n < parameters.particle_parameters.len()
        invariant
            n <= parameters.kinds(),
            rows@.len() == n,
            forall|m: int|
                0 <= m < n ==> #[trigger] rows@[m] == (KindRow {
                    mass: parameters.particle_parameters@[m].mass,
                    index: parameters.particle_parameters@[m].index,
                    run_id,
                }),
        decreases parameters.kinds() - n,
    {
        let kind = &parameters.particle_parameters[n];
        rows.push(KindRow { mass: kind.mass, index: kind.index, run_id });
        n = n + 1;
    }
    rows
}

/// Records the identifiers that the store gave the kinds, in the order of the kinds.
pub fn assign_kind_ids(parameters: &mut Parameters, ids: &Vec<usize>)
    requires
        ids@.len() == old(parameters).kinds(),
    ensures
        final(parameters).kinds() == old(parameters).kinds(),
        forall|n: int|
            0 <= n < old(parameters).kinds() ==> #[trigger] final(parameters).particle_parameters@[n]
                == (ParticleParameters { id: Some(ids@[n]), ..old(parameters).particle_parameters@[n] }),
        final(parameters).amount == old(parameters).amount,
        final(parameters).border == old(parameters).border,
        final(parameters).timestep == old(parameters).timestep,
        final(parameters).gravity_constant == old(parameters).gravity_constant,
        final(parameters).friction == old(parameters).friction,
        final(parameters).max_velocity == old(parameters).max_velocity,
        final(parameters).bucket_size == old(parameters).bucket_size,
        final(parameters).interactions@ == old(parameters).interactions@,
{
    let mut n: usize = 0;
    while n < parameters.particle_parameters.len()
        invariant
            ids@.len() == old(parameters).kinds(),
            parameters.kinds() == old(parameters).kinds(),
            n <= parameters.kinds(),
            forall|m: int|
                0 <= m < n ==> #[trigger] parameters.particle_parameters@[m] == (ParticleParameters {
                    id: Some(ids@[m]),
                    ..old(parameters).particle_parameters@[m]
                }),
            forall|m: int|
                n <= m < parameters.kinds() ==> #[trigger] parameters.particle_parameters@[m]
                    == old(parameters).particle_parameters@[m],
            parameters.amount == old(parameters).amount,
            parameters.border == old(parameters).border,
            parameters.timestep == old(parameters).timestep,
            parameters.gravity_constant == old(parameters).gravity_constant,
            parameters.friction == old(parameters).friction,
            parameters.max_velocity == old(parameters).max_velocity,
            parameters.bucket_size == old(parameters).bucket_size,
            parameters.interactions@ == old(parameters).interactions@,
        decreases parameters.kinds() - n,
    {
        let kind = ParticleParameters {
            id: Some(ids[n]),
            mass: parameters.particle_parameters[n].mass,
            index: parameters.particle_parameters[n].index,
        };
        parameters.particle_parameters.set(n, kind);
        n = n + 1;
    }
}

/// One interaction as it is stored: its policy and the identifiers of its two kinds.
#[derive(Clone, Debug)]
pub struct InteractionRow {
    pub interaction_type: String,
    pub parameter_id_0: usize,
    pub parameter_id_1: usize,
}

pub open spec fn not_persisted_message() -> Seq<char> {
    "Kind not persisted"@
}

/// Every kind has the identifier that the store gave it.
pub open spec fn kinds_persisted(p: Parameters) -> bool {
    forall|n: int| 0 <= n < p.kinds() ==> (#[trigger] p.particle_parameters@[n]).id is Some
}

/// `row` stores the policy between kinds `i` and `j` under their identifiers.
pub open spec fn interaction_row_matches(row: InteractionRow, p: Parameters, i: int, j: int) -> bool {
    &&& row.interaction_type@ == interaction_label(p.interaction(i, j))
    &&& row.parameter_id_0 == p.particle_parameters@[i].id->Some_0
    &&& row.parameter_id_1 == p.particle_parameters@[j].id->Some_0
}

/// One row per unordered pair of kinds, laid out as the packed table is, each tagged
/// with the identifiers of its two kinds. Fails where a kind has no identifier yet.
pub fn interaction_rows(parameters: &Parameters) -> (r: Result<Vec<InteractionRow>, String>)
    requires
        parameters.interactions_sized(),
    ensures
        r is Ok <==> kinds_persisted(*parameters),
        r is Err ==> r->Err_0@ == not_persisted_message(),
        r is Ok ==> r->Ok_0@.len() == triangle(parameters.kinds()) && forall|i: int, j: int|
            0 <= i <= j < parameters.kinds() ==> #[trigger] interaction_row_matches(
                r->Ok_0@[packed_index(parameters.kinds(), i, j)],
                *parameters,
                i,
                j,
            ),
{
    let k = parameters.particle_parameters.len();
    let mut n: usize = 0;
    while n < k
        invariant
            k == parameters.kinds(),
            n <= k,
            forall|m: int| 0 <= m < n ==> (#[trigger] parameters.particle_parameters@[m]).id is Some,
        decreases k - n,
    {
        if parameters.particle_parameters[n].id.is_none() {
            return Err("Kind not persisted".to_owned());
        }
        n = n + 1;
    }
    let ghost kk = k as int;
    let mut rows: Vec<InteractionRow> = Vec::new();
    let mut i: usize = 0;
    while i < k
        invariant
            k == parameters.kinds(),
            kk == k as int,
            parameters.interactions_sized(),
            kinds_persisted(*parameters),
            i <= k,
            rows@.len() == row_start(kk, i as int),
            forall|i2: int, j2: int|
                0 <= i2 <= j2 < k && i2 < i ==> #[trigger] interaction_row_matches(
                    rows@[packed_index(kk, i2, j2)],
                    *parameters,
                    i2,
                    j2,
                ),
        decreases k - i,
    {
        let mut j: usize = i;
        while j < k
            invariant
                k == parameters.kinds(),
                kk == k as int,
                parameters.interactions_sized(),
                kinds_persisted(*parameters),
                i < k,
                i <= j <= k,
                rows@.len() == row_start(kk, i as int) + (j - i),
                forall|i2: int, j2: int|
                    0 <= i2 <= j2 < k && (i2 < i || (i2 == i && j2 < j)) ==> #[trigger] interaction_row_matches(
                        rows@[packed_index(kk, i2, j2)],
                        *parameters,
                        i2,
                        j2,
                    ),
            decreases k - j,
        {
            let interaction = match parameters.interaction_by_indices(i, j) {
                Ok(t) => t,
                Err(e) => {
                    assert(false);
                    return Err(e);
                },
            };
            let id_0 = parameters.particle_parameters[i].id.unwrap();
            let id_1 = parameters.particle_parameters[j].id.unwrap();
            let row = InteractionRow {
                interaction_type: interaction.label(),
                parameter_id_0: id_0,
                parameter_id_1: id_1,
            };
            proof {
                lemma_packed_is_row_offset(kk, i as int, j as int);
                assert forall|i2: int, j2: int|
                    0 <= i2 <= j2 < k && (i2 < i || (i2 == i && j2 < j)) implies packed_index(
                        kk,
                        i2,
                        j2,
                    ) < rows@.len() by {
                    lemma_packed_is_row_offset(kk, i2, j2);
                    if i2 < i {
                        assert(row_start(kk, i2 + 1) == row_start(kk, i2) + (kk - i2));
                        lemma_row_start_monotone(kk, i2 + 1, i as int);
                    }
                }
            }
            rows.push(row);
            proof {
                assert(interaction_row_matches(rows@[packed_index(kk, i as int, j as int)], *parameters, i as int, j as int));
            }
            j = j + 1;
        }
        assert(row_start(kk, i + 1) == row_start(kk, i as int) + (kk - i));
        i = i + 1;
    }
    proof {
        lemma_rows_fill_table(kk);
    }
    Ok(rows)
}

/// One observation of a particle's state, scoped to the stored identifier of its kind.
#[derive(Clone, Copy, PartialEq, Eq, Debug)]
pub struct StateRecord {
    pub kind_id: usize,
    pub state: StateVector,
}

pub open spec fn particle_recordable(p: Particle, params: Parameters) -> bool {
    &&& p.index < params.kinds()
    &&& params.particle_parameters@[p.index as int].id is Some
}

/// The observation that the store counts for particle `p`.
pub open spec fn record_of(p: Particle, params: Parameters) -> StateRecord {
    StateRecord {
        kind_id: params.particle_parameters@[p.index as int].id->Some_0,
        state: discretized(
            p.mass as int,
            (p.position.x, p.position.y, p.position.z),
            (p.velocity.x, p.velocity.y, p.velocity.z),
            params.bucket_size as int,
        ),
    }
}

proof fn lemma_messages_differ()
    ensures
        error_message() != not_persisted_message(),
{
    reveal_strlit("Index out of bounds");
    reveal_strlit("Kind not persisted");
    assert(error_message().len() != not_persisted_message().len());
}

pub open spec fn kinds_of_particles_known(ps: Seq<Particle>, params: Parameters) -> bool {
    forall|m: int| 0 <= m < ps.len() ==> (#[trigger] ps[m]).index < params.kinds()
}

/// The observations of one step: every particle's state in buckets, under the stored
/// identifier of its kind. Fails where a particle's kind is unknown, and otherwise where
/// a particle's kind is not stored yet.
pub fn record_states(particles: &Vec<Particle>, parameters: &Parameters) -> (r: Result<Vec<StateRecord>, String>)
    requires
        kinds_dense(*parameters),
        0 < parameters.bucket_size,
    ensures
        r is Ok <==> forall|m: int|
            0 <= m < particles@.len() ==> particle_recordable(#[trigger] particles@[m], *parameters),
        r is Err ==> (r->Err_0@ == error_message() <==> !kinds_of_particles_known(particles@, *parameters)),
        r is Err ==> (r->Err_0@ == not_persisted_message() <==> kinds_of_particles_known(particles@, *parameters)),
        r is Ok ==> r->Ok_0@.len() == particles@.len() && forall|m: int|
            0 <= m < particles@.len() ==> #[trigger] r->Ok_0@[m] == record_of(particles@[m], *parameters),
{
    let k = parameters.particle_parameters.len();
    let mut m: usize = 0;
    while m < particles.len()
        invariant
            k == parameters.kinds(),
            m <= particles@.len(),
            forall|t: int| 0 <= t < m ==> (#[trigger] particles@[t]).index < k,
        decreases particles@.len() - m,
    {
        if particles[m].index >= k {
            assert(!((particles@[m as int]).index < k));
            proof {
                lemma_messages_differ();
            }
            return Err("Index out of bounds".to_owned());
        }
        m = m + 1;
    }
    let mut records: Vec<StateRecord> = Vec::new();
    let mut m: usize = 0;
    while m < particles.len()
        invariant
            kinds_dense(*parameters),
            kinds_of_particles_known(particles@, *parameters),
            0 < parameters.bucket_size,
            m <= particles@.len(),
            records@.len() == m,
            forall|t: int| 0 <= t < m ==> particle_recordable(#[trigger] particles@[t], *parameters),
            forall|t: int| 0 <= t < m ==> #[trigger] records@[t] == record_of(particles@[t], *parameters),
        decreases particles@.len() - m,
    {
        let p = &particles[m];
        assert(particles@[m as int].index < parameters.kinds());
        match parameters.particle_parameters_by_index(p.index) {
            None => {
                assert(parameters.particle_parameters@[p.index as int].index == p.index);
                assert(false);
                return Err("Index out of bounds".to_owned());
            },
            Some(kind) => {
                proof {
                    let n = choose|n: int|
                        {
                            &&& 0 <= n < parameters.kinds()
                            &&& #[trigger] parameters.particle_parameters@[n] == *kind
                            &&& kind.index == p.index
                            &&& forall|u: int|
                                0 <= u < n ==> #[trigger] parameters.particle_parameters@[u].index
                                    != p.index
                        };
                    assert(parameters.particle_parameters@[n].index == n);
                }
                match kind.id {
                    None => {
                        assert(!particle_recordable(particles@[m as int], *parameters));
                        proof {
                            lemma_messages_differ();
                        }
                        return Err("Kind not persisted".to_owned());
                    },
                    Some(kind_id) => {
                        let state = p.to_state_vector(parameters.bucket_size);
                        records.push(StateRecord { kind_id, state });
                    },
                }
            },
        }
        m = m + 1;
    }
    Ok(records)
}

/// The seven parameters of the increment statement for one observation: the position
/// buckets, the velocity buckets, then the kind's identifier.
pub fn state_row(record: &StateRecord) -> (r: Vec<i64>)
    requires
        record.kind_id <= i64::MAX,
    ensures
        r@ == seq![
            record.state.position_bucket.0 as i64,
            record.state.position_bucket.1 as i64,
            record.state.position_bucket.2 as i64,
            record.state.velocity_bucket.0 as i64,
            record.state.velocity_bucket.1 as i64,
            record.state.velocity_bucket.2 as i64,
            record.kind_id as i64,
        ],
{
    let mut r: Vec<i64> = Vec::new();
    r.push(record.state.position_bucket.0 as i64);
    r.push(record.state.position_bucket.1 as i64);
    r.push(record.state.position_bucket.2 as i64);
    r.push(record.state.velocity_bucket.0 as i64);
    r.push(record.state.velocity_bucket.1 as i64);
    r.push(record.state.velocity_bucket.2 as i64);
    r.push(record.kind_id as i64);
    r
}

} // verus!
