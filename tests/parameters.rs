use atomata::parameters::{
    InteractionType, Mode, Parameters, ParticleParameters, PARAMETER_SPACE_SIZE, UNIT,
};

fn test_parameters() -> Parameters {
    Parameters {
        amount: 10,
        border: 200 * UNIT,
        friction: 0,
        timestep: 200,
        gravity_constant: UNIT,
        particle_parameters: vec![
            ParticleParameters { id: None, mass: 3 * UNIT, index: 0 },
            ParticleParameters { id: None, mass: 250 * UNIT, index: 1 },
            ParticleParameters { id: None, mass: 10000 * UNIT, index: 2 },
            ParticleParameters { id: None, mass: 10000 * UNIT, index: 3 },
        ],
        interactions: vec![
            InteractionType::Attraction, // 0 <-> 0
            InteractionType::Neutral,    // 1 <-> 0
            InteractionType::Repulsion,  // 2 <-> 0
            InteractionType::Repulsion,  // 3 <-> 0
            InteractionType::Neutral,    // 1 <-> 1
            InteractionType::Attraction, // 1 <-> 2
            InteractionType::Attraction, // 1 <-> 3
            InteractionType::Repulsion,  // 2 <-> 2
            InteractionType::Repulsion,  // 2 <-> 3
            InteractionType::Repulsion,  // 3 <-> 3
        ],
        max_velocity: 20000 * UNIT,
        bucket_size: 10 * UNIT,
    }
}

#[test]
fn test_interaction_by_indices_success() {
    let parameters = test_parameters();

    assert_eq!(parameters.interaction_by_indices(0, 0).unwrap(), InteractionType::Attraction);
    assert_eq!(parameters.interaction_by_indices(1, 0).unwrap(), InteractionType::Neutral);
    assert_eq!(parameters.interaction_by_indices(2, 0).unwrap(), InteractionType::Repulsion);
    assert_eq!(parameters.interaction_by_indices(1, 1).unwrap(), InteractionType::Neutral);
    assert_eq!(parameters.interaction_by_indices(1, 2).unwrap(), InteractionType::Attraction);
    assert_eq!(parameters.interaction_by_indices(2, 2).unwrap(), InteractionType::Repulsion);
}

#[test]
fn test_interaction_by_indices_failure() {
    let parameters = test_parameters();

    let one_off = parameters.particle_parameters.len();

    assert_eq!(parameters.interaction_by_indices(one_off, 1).unwrap_err(), "Index out of bounds");
    assert_eq!(parameters.interaction_by_indices(1, one_off).unwrap_err(), "Index out of bounds");
}

#[test]
fn interaction_lookup_is_symmetric_for_every_pair() {
    let parameters = test_parameters();
    for i in 0..4 {
        for j in 0..4 {
            assert_eq!(
                parameters.interaction_by_indices(i, j).unwrap(),
                parameters.interaction_by_indices(j, i).unwrap()
            );
        }
    }
}

#[test]
fn packed_index_reaches_every_entry_once() {
    let k = 4;
    let parameters = test_parameters();
    let mut seen = vec![0usize; parameters.interactions.len()];
    for i in 0..k {
        for j in i..k {
            let index = i * (2 * k - i + 1) / 2 + (j - i);
            seen[index] += 1;
            assert_eq!(
                parameters.interaction_by_indices(i, j).unwrap(),
                parameters.interactions[index]
            );
        }
    }
    assert!(seen.iter().all(|&n| n == 1));
}

#[test]
fn interaction_lookup_fails_far_out_of_range() {
    let parameters = test_parameters();
    assert!(parameters.interaction_by_indices(4, 4).is_err());
    assert!(parameters.interaction_by_indices(0, 100).is_err());
    assert!(parameters.interaction_by_indices(usize::MAX, 0).is_err());
}

#[test]
fn interaction_lookup_with_no_kinds_fails() {
    let mut parameters = test_parameters();
    parameters.particle_parameters.clear();
    parameters.interactions.clear();
    assert_eq!(parameters.interaction_by_indices(0, 0).unwrap_err(), "Index out of bounds");
}

#[test]
fn interaction_labels() {
    assert_eq!(InteractionType::Attraction.label(), "Attraction");
    assert_eq!(InteractionType::Repulsion.label(), "Repulsion");
    assert_eq!(InteractionType::Neutral.label(), "Neutral");
}

#[test]
fn kind_lookup_by_index() {
    let parameters = test_parameters();
    let kind = parameters.particle_parameters_by_index(2).unwrap();
    assert_eq!(kind.index, 2);
    assert_eq!(kind.mass, 10000 * UNIT);
    assert!(parameters.particle_parameters_by_index(4).is_none());
}

#[test]
fn default_parameters() {
    let parameters = Parameters::default();
    assert_eq!(parameters.amount, 10);
    assert_eq!(parameters.border, 200 * UNIT);
    assert_eq!(parameters.friction, 5_000);
    assert_eq!(parameters.timestep, 200);
    assert_eq!(parameters.gravity_constant, UNIT);
    assert_eq!(parameters.max_velocity, 20_000 * UNIT);
    assert_eq!(parameters.bucket_size, 10 * UNIT);
    let masses: Vec<i64> = parameters.particle_parameters.iter().map(|k| k.mass).collect();
    assert_eq!(masses, vec![3 * UNIT, 250 * UNIT, 1000 * UNIT]);
    assert_eq!(parameters.interactions.len(), 6);
    assert_eq!(parameters.interaction_by_indices(2, 2).unwrap(), InteractionType::Neutral);
    assert_eq!(parameters.interaction_by_indices(0, 0).unwrap(), InteractionType::Repulsion);
    assert_eq!(parameters.interaction_by_indices(2, 1).unwrap(), InteractionType::Attraction);
}

#[test]
fn parameter_space_size_and_order() {
    let space = Parameters::parameter_space();
    assert_eq!(space.len(), 17280);
    assert_eq!(PARAMETER_SPACE_SIZE, 6 * 4 * 4 * 3 * 4 * 3 * 5);

    let first = &space[0];
    assert_eq!(first.amount, 10);
    assert_eq!(first.border, 200 * UNIT);
    assert_eq!(first.friction, 0);
    assert_eq!(first.timestep, 200);
    assert_eq!(first.gravity_constant, UNIT / 2);
    assert_eq!(first.max_velocity, 20_000 * UNIT);
    assert_eq!(first.bucket_size, 2 * UNIT);

    // The innermost list moves first.
    assert_eq!(space[1].bucket_size, 5 * UNIT);
    assert_eq!(space[1].max_velocity, 20_000 * UNIT);
    assert_eq!(space[5].bucket_size, 2 * UNIT);
    assert_eq!(space[5].max_velocity, 40_000 * UNIT);

    let last = &space[17279];
    assert_eq!(last.amount, 1000);
    assert_eq!(last.border, 2000 * UNIT);
    assert_eq!(last.friction, 2 * UNIT);
    assert_eq!(last.timestep, 600);
    assert_eq!(last.gravity_constant, 3 * UNIT);
    assert_eq!(last.max_velocity, 60_000 * UNIT);
    assert_eq!(last.bucket_size, 30 * UNIT);
    assert_eq!(space[2880].amount, 20);
    assert_eq!(space[2879].amount, 10);
    for p in space.iter().step_by(997) {
        assert_eq!(p.particle_parameters.len(), 3);
        assert_eq!(p.interactions.len(), 6);
    }
}

#[test]
fn modes_are_distinct() {
    assert_ne!(Mode::Default, Mode::Search);
}
