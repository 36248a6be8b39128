use contour::fields::{EntityInstance, FieldInstance, FieldValue};
use contour::gate::{
    find_entry, register_level_gate_collisions, validate_gate, FieldError, Gate, GateError, GateSite,
    LevelSelection,
};
use contour::physics::CollisionEvent;
use contour::transition::StartTransition;

fn gate_entity(fields: Vec<(&str, FieldValue)>) -> EntityInstance {
    EntityInstance {
        identifier: "Gate".to_string(),
        field_instances: fields
            .into_iter()
            .map(|(name, value)| FieldInstance { identifier: name.to_string(), value })
            .collect(),
    }
}

fn started(a: u64, b: u64) -> CollisionEvent {
    CollisionEvent { started: true, shapes: (a, b), bodies: (a, b) }
}

#[test]
fn default_gate_is_exit_to_level_zero() {
    assert_eq!(Gate::default(), Gate::Exit(0));
}

#[test]
fn gate_from_entity_reads_entry_and_index() {
    let entity = gate_entity(vec![
        ("to", FieldValue::Int(Some(3))),
        ("Gate", FieldValue::Enum(Some("Entry".to_string()))),
    ]);
    assert_eq!(Gate::from(entity), Gate::Entry(3));
}

#[test]
fn gate_from_entity_reads_exit() {
    let entity = gate_entity(vec![
        ("Gate", FieldValue::String(Some("Exit".to_string()))),
        ("to", FieldValue::Int(Some(1))),
    ]);
    assert_eq!(Gate::from(entity), Gate::Exit(1));
}

#[test]
fn gate_from_entity_falls_back_to_exit_zero() {
    assert_eq!(Gate::from(gate_entity(vec![])), Gate::Exit(0));
    let unset = gate_entity(vec![("to", FieldValue::Int(None)), ("Gate", FieldValue::Enum(None))]);
    assert_eq!(Gate::from(unset), Gate::Exit(0));
    let wrong_kinds = gate_entity(vec![
        ("to", FieldValue::Float(Some(2000))),
        ("Gate", FieldValue::Bool(true)),
    ]);
    assert_eq!(Gate::from(wrong_kinds), Gate::Exit(0));
    let negative = gate_entity(vec![
        ("to", FieldValue::Int(Some(-4))),
        ("Gate", FieldValue::Enum(Some("Entry".to_string()))),
    ]);
    assert_eq!(Gate::from(negative), Gate::Entry(0));
    let other_word = gate_entity(vec![
        ("to", FieldValue::Int(Some(2))),
        ("Gate", FieldValue::Enum(Some("entry".to_string()))),
    ]);
    assert_eq!(Gate::from(other_word), Gate::Exit(2));
}

#[test]
fn find_entry_takes_the_first_match() {
    let gates = vec![
        GateSite { entity: 1, gate: Gate::Exit(4), position: () },
        GateSite { entity: 2, gate: Gate::Entry(4), position: () },
        GateSite { entity: 3, gate: Gate::Entry(4), position: () },
    ];
    assert_eq!(find_entry(&gates, 4), Some(1));
    assert_eq!(find_entry(&gates, 0), None);
    let none: Vec<GateSite<()>> = vec![];
    assert_eq!(find_entry(&none, 4), None);
}

#[test]
fn touching_an_exit_to_another_level_asks_for_a_transition() {
    let gates = vec![GateSite { entity: 9, gate: Gate::Exit(1), position: () }];
    let requests =
        register_level_gate_collisions(Some(1), &gates, &LevelSelection::Index(0), &vec![started(9, 1)]);
    assert_eq!(requests, vec![StartTransition { from: 0, to: 1 }]);
}

#[test]
fn touching_an_exit_to_the_same_level_asks_for_nothing() {
    let gates = vec![GateSite { entity: 9, gate: Gate::Exit(0), position: () }];
    let requests =
        register_level_gate_collisions(Some(1), &gates, &LevelSelection::Index(0), &vec![started(1, 9)]);
    assert_eq!(requests, vec![]);
}

#[test]
fn touching_an_entry_asks_for_nothing() {
    let gates = vec![GateSite { entity: 9, gate: Gate::Entry(1), position: () }];
    let requests =
        register_level_gate_collisions(Some(1), &gates, &LevelSelection::Index(0), &vec![started(1, 9)]);
    assert_eq!(requests, vec![]);
}

#[test]
fn contacts_without_the_player_or_already_ended_are_passed_over() {
    let gates = vec![
        GateSite { entity: 9, gate: Gate::Exit(1), position: () },
        GateSite { entity: 8, gate: Gate::Exit(2), position: () },
    ];
    let events = vec![
        started(5, 9),
        CollisionEvent { started: false, shapes: (1, 9), bodies: (1, 9) },
        started(1, 7),
        started(1, 8),
        started(9, 1),
    ];
    let requests = register_level_gate_collisions(Some(1), &gates, &LevelSelection::Index(0), &events);
    assert_eq!(
        requests,
        vec![StartTransition { from: 0, to: 2 }, StartTransition { from: 0, to: 1 }]
    );
}

#[test]
fn gates_are_found_by_rigid_body_not_by_shape() {
    let gates = vec![GateSite { entity: 9, gate: Gate::Exit(1), position: () }];
    let by_body = CollisionEvent { started: true, shapes: (1, 50), bodies: (1, 9) };
    let by_shape = CollisionEvent { started: true, shapes: (1, 9), bodies: (1, 50) };
    assert_eq!(
        register_level_gate_collisions(Some(1), &gates, &LevelSelection::Index(0), &vec![by_body]),
        vec![StartTransition { from: 0, to: 1 }]
    );
    assert_eq!(
        register_level_gate_collisions(Some(1), &gates, &LevelSelection::Index(0), &vec![by_shape]),
        vec![]
    );
}

#[test]
fn no_player_or_no_index_asks_for_nothing() {
    let gates = vec![GateSite { entity: 9, gate: Gate::Exit(1), position: () }];
    assert_eq!(
        register_level_gate_collisions(None, &gates, &LevelSelection::Index(0), &vec![started(1, 9)]),
        vec![]
    );
    assert_eq!(
        register_level_gate_collisions(Some(1), &gates, &LevelSelection::Other, &vec![started(1, 9)]),
        vec![]
    );
}

#[test]
fn a_well_formed_gate_validates_to_what_it_converts_to() {
    let entry = vec![("to", FieldValue::Int(Some(3))), ("Gate", FieldValue::Enum(Some("Entry".to_string())))];
    assert_eq!(validate_gate(&gate_entity(entry.clone())), Ok(Gate::Entry(3)));
    assert_eq!(Gate::from(gate_entity(entry)), Gate::Entry(3));
    let exit = vec![("Gate", FieldValue::String(Some("Exit".to_string()))), ("to", FieldValue::Int(Some(0)))];
    assert_eq!(validate_gate(&gate_entity(exit)), Ok(Gate::Exit(0)));
}

#[test]
fn a_gate_without_a_usable_target_is_refused() {
    let kind = ("Gate", FieldValue::Enum(Some("Exit".to_string())));
    assert_eq!(validate_gate(&gate_entity(vec![kind.clone()])), Err(GateError::To(FieldError::Missing)));
    assert_eq!(
        validate_gate(&gate_entity(vec![("to", FieldValue::Int(None)), kind.clone()])),
        Err(GateError::To(FieldError::Unset))
    );
    assert_eq!(
        validate_gate(&gate_entity(vec![("to", FieldValue::Float(Some(1000))), kind.clone()])),
        Err(GateError::To(FieldError::WrongKind))
    );
    assert_eq!(
        validate_gate(&gate_entity(vec![("to", FieldValue::Int(Some(-1))), kind])),
        Err(GateError::To(FieldError::Invalid))
    );
    assert_eq!(validate_gate(&gate_entity(vec![])), Err(GateError::To(FieldError::Missing)));
}

#[test]
fn a_gate_without_a_usable_kind_is_refused() {
    let to = ("to", FieldValue::Int(Some(1)));
    assert_eq!(validate_gate(&gate_entity(vec![to.clone()])), Err(GateError::Kind(FieldError::Missing)));
    assert_eq!(
        validate_gate(&gate_entity(vec![to.clone(), ("Gate", FieldValue::Enum(None))])),
        Err(GateError::Kind(FieldError::Unset))
    );
    assert_eq!(
        validate_gate(&gate_entity(vec![to.clone(), ("Gate", FieldValue::String(None))])),
        Err(GateError::Kind(FieldError::Unset))
    );
    assert_eq!(
        validate_gate(&gate_entity(vec![to.clone(), ("Gate", FieldValue::Bool(true))])),
        Err(GateError::Kind(FieldError::WrongKind))
    );
    assert_eq!(
        validate_gate(&gate_entity(vec![to, ("Gate", FieldValue::Enum(Some("Door".to_string())))])),
        Err(GateError::Kind(FieldError::Invalid))
    );
}

#[test]
fn every_request_leaves_the_selected_level() {
    let gates = vec![
        GateSite { entity: 9, gate: Gate::Exit(1), position: () },
        GateSite { entity: 8, gate: Gate::Exit(3), position: () },
        GateSite { entity: 7, gate: Gate::Exit(2), position: () },
        GateSite { entity: 6, gate: Gate::Entry(3), position: () },
    ];
    let events = vec![started(1, 9), started(1, 8), started(7, 1), started(6, 1), started(2, 9)];
    for current in 0..4 {
        let requests =
            register_level_gate_collisions(Some(1), &gates, &LevelSelection::Index(current), &events);
        assert!(requests.len() <= events.len());
        for request in requests {
            assert_eq!(request.from, current);
            assert_ne!(request.to, current);
        }
    }
}
