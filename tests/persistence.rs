use atomata::parameters::{InteractionType, Parameters, ParticleParameters, UNIT};
use atomata::particle::{Particle, StateVector, Vec3};
use atomata::persistence::{
    assign_kind_ids, increment_statement, insert_interaction_statement, insert_kind_statement,
    insert_run_statement, interaction_rows, kind_rows, migrations, record_states, state_row,
    StateRecord,
};
use rusqlite::Connection;
use rusqlite_migration::{Migrations, M};

fn migrated_memory_database() -> Connection {
    let steps = migrations();
    let list: Vec<M> = steps.iter().map(|m| M::up(&m.up).down(&m.down)).collect();
    let mut connection = Connection::open_in_memory().unwrap();
    Migrations::new(list).to_latest(&mut connection).unwrap();
    connection
}

fn as_units(v: i64) -> f64 {
    v as f64 / UNIT as f64
}

fn persist(connection: &Connection, parameters: &mut Parameters) {
    connection
        .execute(
            &insert_run_statement(),
            (
                parameters.amount as i64,
                as_units(parameters.border),
                as_units(parameters.timestep),
                as_units(parameters.gravity_constant),
                as_units(parameters.friction),
                as_units(parameters.max_velocity),
                as_units(parameters.bucket_size),
            ),
        )
        .unwrap();
    let run_id = connection.last_insert_rowid();
    let mut ids = Vec::new();
    for row in kind_rows(parameters, run_id) {
        connection
            .execute(&insert_kind_statement(), (as_units(row.mass), row.index as i64, row.run_id))
            .unwrap();
        ids.push(connection.last_insert_rowid() as usize);
    }
    assign_kind_ids(parameters, &ids);
    for row in interaction_rows(parameters).unwrap() {
        connection
            .execute(
                &insert_interaction_statement(),
                (row.interaction_type, row.parameter_id_0 as i64, row.parameter_id_1 as i64),
            )
            .unwrap();
    }
}

fn increment(connection: &Connection, record: &StateRecord) {
    let row = state_row(record);
    connection.execute(&increment_statement(), rusqlite::params_from_iter(row.iter())).unwrap();
}

fn count_of(connection: &Connection, sql: &str) -> i32 {
    connection.query_row(sql, [], |row| row.get(0)).unwrap()
}

fn four_kinds() -> Parameters {
    Parameters {
        amount: 10,
        border: 200 * UNIT,
        friction: 0,
        timestep: 200,
        gravity_constant: UNIT,
        particle_parameters: vec![
            ParticleParameters { id: None, mass: 3 * UNIT, index: 0 },
            ParticleParameters { id: None, mass: 250 * UNIT, index: 1 },
            ParticleParameters { id: None, mass: 10000 * UNIT, index: 2 },
            ParticleParameters { id: None, mass: 10000 * UNIT, index: 3 },
        ],
        interactions: vec![
            InteractionType::Attraction, // 0 <-> 0
            InteractionType::Neutral,    // 1 <-> 0
            InteractionType::Repulsion,  // 2 <-> 0
            InteractionType::Repulsion,  // 3 <-> 0
            InteractionType::Neutral,    // 1 <-> 1
            InteractionType::Attraction, // 1 <-> 2
            InteractionType::Attraction, // 1 <-> 3
            InteractionType::Repulsion,  // 2 <-> 2
            InteractionType::Repulsion,  // 2 <-> 3
            InteractionType::Repulsion,  // 3 <-> 3
        ],
        max_velocity: 20000 * UNIT,
        bucket_size: 10 * UNIT,
    }
}

fn two_kinds() -> Parameters {
    Parameters {
        amount: 10,
        border: 200 * UNIT,
        friction: 0,
        timestep: 200,
        gravity_constant: UNIT,
        particle_parameters: vec![
            ParticleParameters { id: None, mass: 3 * UNIT, index: 0 },
            ParticleParameters { id: None, mass: 250 * UNIT, index: 1 },
        ],
        interactions: vec![
            InteractionType::Attraction, // 0 <-> 0
            InteractionType::Neutral,    // 1 <-> 0
            InteractionType::Repulsion,  // 1 <-> 1
        ],
        max_velocity: 20000 * UNIT,
        bucket_size: 10 * UNIT,
    }
}

#[test]
fn test_migrations() {
    let steps = migrations();
    let list: Vec<M> = steps.iter().map(|m| M::up(&m.up).down(&m.down)).collect();
    assert!(Migrations::new(list).validate().is_ok());
}

#[test]
fn test_persist_parameters() {
    let connection = migrated_memory_database();
    connection.execute_batch("BEGIN").unwrap();
    let mut parameters = four_kinds();
    persist(&connection, &mut parameters);
    connection.execute_batch("COMMIT").unwrap();

    assert_eq!(count_of(&connection, "SELECT count(*) FROM run_parameters;"), 1);
    assert_eq!(
        count_of(&connection, "SELECT count(*) FROM particle_parameters;"),
        parameters.particle_parameters.len() as i32
    );
    assert_eq!(
        count_of(&connection, "SELECT count(*) FROM interactions;"),
        parameters.interactions.len() as i32
    );
}

#[test]
fn test_increment_state_count() {
    let connection = migrated_memory_database();
    connection.execute_batch("BEGIN").unwrap();
    let mut parameters = two_kinds();
    persist(&connection, &mut parameters);
    let particle_parameter_id = parameters.particle_parameters[0].id.unwrap();

    let state = StateVector::new(UNIT, (0, 0, 0), (0, 0, 0), 10 * UNIT);
    increment(&connection, &StateRecord { kind_id: particle_parameter_id, state });
    connection.execute_batch("COMMIT").unwrap();

    let count = count_of(
        &connection,
        "SELECT count FROM state_vectors
             WHERE px = 0 AND py = 0 AND pz = 0 AND vx = 0 AND vy = 0 AND vz = 0;",
    );
    assert_eq!(count, 1);
}

#[test]
fn increments_in_two_transactions_add_up() {
    let connection = migrated_memory_database();
    let mut parameters = two_kinds();
    persist(&connection, &mut parameters);
    let kind_id = parameters.particle_parameters[1].id.unwrap();
    let key = StateRecord { kind_id, state: StateVector::new(UNIT, (15 * UNIT, 0, -15 * UNIT), (0, 25 * UNIT, 0), 10 * UNIT) };
    let other = StateRecord { kind_id, state: StateVector::new(UNIT, (35 * UNIT, 0, 0), (0, 0, 0), 10 * UNIT) };
    for _ in 0..2 {
        connection.execute_batch("BEGIN").unwrap();
        increment(&connection, &key);
        connection.execute_batch("COMMIT").unwrap();
    }
    connection.execute_batch("BEGIN").unwrap();
    increment(&connection, &other);
    connection.execute_batch("COMMIT").unwrap();
    assert_eq!(count_of(&connection, "SELECT count FROM state_vectors WHERE px = 1 AND pz = -1 AND vy = 2;"), 2);
    assert_eq!(count_of(&connection, "SELECT count FROM state_vectors WHERE px = 3;"), 1);
    assert_eq!(count_of(&connection, "SELECT count(*) FROM state_vectors;"), 2);
}

#[test]
fn distinct_keys_are_distinct_records() {
    let connection = migrated_memory_database();
    let mut parameters = two_kinds();
    persist(&connection, &mut parameters);
    let first = parameters.particle_parameters[0].id.unwrap();
    let second = parameters.particle_parameters[1].id.unwrap();
    let state = StateVector::new(UNIT, (0, 0, 0), (0, 0, 0), 10 * UNIT);
    connection.execute_batch("BEGIN").unwrap();
    increment(&connection, &StateRecord { kind_id: first, state });
    increment(&connection, &StateRecord { kind_id: second, state });
    connection.execute_batch("COMMIT").unwrap();
    assert_eq!(count_of(&connection, "SELECT count(*) FROM state_vectors WHERE count = 1;"), 2);
}

#[test]
fn uncommitted_increments_are_lost() {
    let connection = migrated_memory_database();
    let mut parameters = two_kinds();
    persist(&connection, &mut parameters);
    let kind_id = parameters.particle_parameters[0].id.unwrap();
    let state = StateVector::new(UNIT, (0, 0, 0), (0, 0, 0), 10 * UNIT);
    connection.execute_batch("BEGIN").unwrap();
    increment(&connection, &StateRecord { kind_id, state });
    connection.execute_batch("ROLLBACK").unwrap();
    assert_eq!(count_of(&connection, "SELECT count(*) FROM state_vectors;"), 0);
}

#[test]
fn kind_rows_and_ids() {
    let mut parameters = two_kinds();
    let rows = kind_rows(&parameters, 42);
    assert_eq!(rows.len(), 2);
    assert_eq!((rows[1].mass, rows[1].index, rows[1].run_id), (250 * UNIT, 1, 42));
    assert_eq!(interaction_rows(&parameters).unwrap_err(), "Kind not persisted");
    assign_kind_ids(&mut parameters, &vec![7, 9]);
    assert_eq!(parameters.particle_parameters[0].id, Some(7));
    assert_eq!(parameters.particle_parameters[1].id, Some(9));
    let rows = interaction_rows(&parameters).unwrap();
    let triples: Vec<(String, usize, usize)> =
        rows.into_iter().map(|r| (r.interaction_type, r.parameter_id_0, r.parameter_id_1)).collect();
    assert_eq!(
        triples,
        vec![
            ("Attraction".to_string(), 7, 7),
            ("Neutral".to_string(), 7, 9),
            ("Repulsion".to_string(), 9, 9),
        ]
    );
}

#[test]
fn state_records_of_a_step() {
    let mut parameters = two_kinds();
    let particles = vec![
        Particle::with_state(1, Vec3 { x: 25 * UNIT, y: 0, z: 0 }, Vec3 { x: 0, y: -45 * UNIT, z: 0 }, 250 * UNIT, 20000 * UNIT),
        Particle::with_state(0, Vec3 { x: 0, y: 0, z: 0 }, Vec3 { x: 0, y: 0, z: 0 }, 3 * UNIT, 20000 * UNIT),
    ];
    assert_eq!(record_states(&particles, &parameters).unwrap_err(), "Kind not persisted");
    assign_kind_ids(&mut parameters, &vec![11, 12]);
    let records = record_states(&particles, &parameters).unwrap();
    assert_eq!(records[0].kind_id, 12);
    assert_eq!(records[0].state.position_bucket, (2, 0, 0));
    assert_eq!(records[0].state.velocity_bucket, (0, -4, 0));
    assert_eq!(records[1].kind_id, 11);
    assert_eq!(state_row(&records[0]), vec![2, 0, 0, 0, -4, 0, 12]);
    let stray = vec![Particle::with_state(5, Vec3 { x: 0, y: 0, z: 0 }, Vec3 { x: 0, y: 0, z: 0 }, UNIT, UNIT)];
    assert_eq!(record_states(&stray, &parameters).unwrap_err(), "Index out of bounds");
}
