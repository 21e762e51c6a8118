use quantum_echoes::layer::BoundaryCondition;
use quantum_echoes::simulator::{FieldCommand, FieldError, FieldState, Simulator};
use quantum_echoes::ui_state::UIState;

fn update_of(field: FieldState, ui: &UIState) -> Vec<FieldCommand> {
    let block = ui.parameters();
    vec![
        FieldCommand::Dispatch {
            width: field.width,
            height: field.height,
            generation: field.generation,
            params: block.at_stage(0),
        },
        FieldCommand::Wait,
        FieldCommand::Dispatch {
            width: field.width,
            height: field.height,
            generation: field.generation,
            params: block.at_stage(1),
        },
        FieldCommand::Wait,
    ]
}

#[test]
fn field_starts_at_the_default_size() {
    let simulator = Simulator::new();
    assert_eq!(simulator.field(), FieldState { width: 1024, height: 1024, generation: 0 });
    assert_eq!(simulator.width(), 1024);
    assert_eq!(simulator.height(), 1024);
    assert_eq!(simulator.generation(), 0);
}

#[test]
fn field_of_a_given_size() {
    let simulator = Simulator::with_size(100, 50).ok().unwrap();
    assert_eq!(simulator.field(), FieldState { width: 100, height: 50, generation: 0 });
}

#[test]
fn field_without_cells_is_not_built() {
    assert_eq!(Simulator::with_size(0, 50).err(), Some(FieldError::ZeroExtent));
    assert_eq!(Simulator::with_size(50, 0).err(), Some(FieldError::ZeroExtent));
    assert_eq!(Simulator::with_size(0, 0).err(), Some(FieldError::ZeroExtent));
}

#[test]
fn resize_to_zero_width_is_rejected() {
    let mut simulator = Simulator::new();
    assert_eq!(simulator.resize(0, 256), Err(FieldError::ZeroExtent));
    assert_eq!(simulator.field(), FieldState { width: 1024, height: 1024, generation: 0 });
}

#[test]
fn resize_to_zero_height_is_rejected() {
    let mut simulator = Simulator::new();
    assert_eq!(simulator.resize(256, 0), Err(FieldError::ZeroExtent));
    assert_eq!(simulator.field(), FieldState { width: 1024, height: 1024, generation: 0 });
}

#[test]
fn resize_builds_a_new_zeroed_field() {
    let mut simulator = Simulator::new();
    let plan = simulator.resize(256, 128).unwrap();
    assert_eq!(
        plan,
        vec![
            FieldCommand::Allocate { width: 256, height: 128, generation: 1 },
            FieldCommand::Clear { generation: 1 },
            FieldCommand::Wait,
        ]
    );
    assert_eq!(simulator.field(), FieldState { width: 256, height: 128, generation: 1 });
}

#[test]
fn every_resize_is_a_new_generation() {
    let mut simulator = Simulator::new();
    simulator.resize(256, 128).unwrap();
    simulator.resize(256, 128).unwrap();
    assert_eq!(simulator.generation(), 2);
    simulator.resize(1, 1).unwrap();
    assert_eq!(simulator.field(), FieldState { width: 1, height: 1, generation: 3 });
}

#[test]
fn resize_fails_when_generations_run_out() {
    let field = FieldState { width: 8, height: 8, generation: u64::MAX };
    let mut simulator = Simulator::from_field(field).unwrap();
    assert_eq!(simulator.resize(16, 16), Err(FieldError::GenerationExhausted));
    assert_eq!(simulator.field(), field);
    assert_eq!(simulator.resize(0, 16), Err(FieldError::ZeroExtent));
}

#[test]
fn resize_succeeds_just_before_generations_run_out() {
    let field = FieldState { width: 8, height: 8, generation: u64::MAX - 1 };
    let mut simulator = Simulator::from_field(field).unwrap();
    assert!(simulator.resize(16, 16).is_ok());
    assert_eq!(simulator.generation(), u64::MAX);
}

#[test]
fn from_field_wants_cells() {
    assert!(Simulator::from_field(FieldState { width: 0, height: 8, generation: 3 }).is_none());
    assert!(Simulator::from_field(FieldState { width: 8, height: 0, generation: 3 }).is_none());
    let simulator =
        Simulator::from_field(FieldState { width: 8, height: 9, generation: 3 }).unwrap();
    assert_eq!(simulator.field(), FieldState { width: 8, height: 9, generation: 3 });
}

#[test]
fn clear_zeroes_and_waits() {
    let mut simulator = Simulator::new();
    assert_eq!(simulator.clear(), vec![FieldCommand::Clear { generation: 0 }, FieldCommand::Wait]);
    assert_eq!(simulator.field(), FieldState { width: 1024, height: 1024, generation: 0 });
}

#[test]
fn update_runs_stage_zero_then_stage_one_each_waited_for() {
    let mut simulator = Simulator::new();
    let ui = UIState::new();
    let plan = simulator.compute(&ui);
    assert_eq!(plan.len(), 4);
    match (plan[0], plan[2]) {
        (
            FieldCommand::Dispatch { params: first, width, height, generation },
            FieldCommand::Dispatch { params: second, .. },
        ) => {
            assert_eq!((width, height, generation), (1024, 1024, 0));
            assert_eq!(first.active_stage, 0);
            assert_eq!(second.active_stage, 1);
            assert_eq!(first.at_stage(1), second);
        }
        other => panic!("expected two dispatches, found {:?}", other),
    }
    assert_eq!(plan[1], FieldCommand::Wait);
    assert_eq!(plan[3], FieldCommand::Wait);
    assert_eq!(plan, update_of(simulator.field(), &ui));
}

#[test]
fn update_covers_the_resized_field() {
    let mut simulator = Simulator::new();
    simulator.resize(640, 480).unwrap();
    let ui = UIState::new();
    assert_eq!(
        simulator.compute(&ui),
        update_of(FieldState { width: 640, height: 480, generation: 1 }, &ui)
    );
}

#[test]
fn update_does_not_change_the_field_store() {
    let mut simulator = Simulator::with_size(64, 32).ok().unwrap();
    let before = simulator.field();
    simulator.compute(&UIState::new());
    assert_eq!(simulator.field(), before);
}

#[test]
fn clear_then_updates_without_brush_are_reproducible() {
    let mut ui = UIState::new();
    ui.brush_enabled = 0;
    ui.boundary_condition = BoundaryCondition::Periodic;

    let mut first = Simulator::with_size(100, 100).ok().unwrap();
    first.compute(&ui);
    let mut first_run = first.clear();
    first_run.extend(first.compute(&ui));
    first_run.extend(first.compute(&ui));

    let mut second = Simulator::with_size(100, 100).ok().unwrap();
    let mut second_run = second.clear();
    second_run.extend(second.compute(&ui));
    second_run.extend(second.compute(&ui));

    assert_eq!(first_run, second_run);
    assert_eq!(first_run.len(), 10);
    assert_eq!(first_run[0], FieldCommand::Clear { generation: 0 });
    assert_eq!(first_run[1], FieldCommand::Wait);
    assert_eq!(first_run[2..6], update_of(first.field(), &ui)[..]);
    assert_eq!(first_run[6..10], update_of(first.field(), &ui)[..]);
}

#[test]
fn ten_periodic_updates_keep_the_field_in_shape() {
    let mut ui = UIState::new();
    ui.boundary_condition = BoundaryCondition::Periodic;
    ui.brush_enabled = 0;
    let mut simulator = Simulator::with_size(100, 100).ok().unwrap();
    let expected = update_of(FieldState { width: 100, height: 100, generation: 0 }, &ui);
    for _ in 0..10 {
        let plan = simulator.compute(&ui);
        assert_eq!(plan, expected);
        for command in &plan {
            if let FieldCommand::Dispatch { params, .. } = command {
                assert_eq!(params.boundary_condition, BoundaryCondition::Periodic);
                assert_eq!(params.brush_enabled, 0);
            }
        }
    }
    assert_eq!(simulator.field(), FieldState { width: 100, height: 100, generation: 0 });
}
