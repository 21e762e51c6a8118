use quantum_echoes::layer::SimulationLayer;
use quantum_echoes::orchestrator::{App, Reaction, WindowSignal};
use quantum_echoes::pipeline::{RebuildSet, RebuildTrigger};
use quantum_echoes::quad_renderer::{FrameEnd, FrameStart, FrameStep, RendererError};
use quantum_echoes::simulator::{FieldCommand, FieldError, FieldState};
use quantum_echoes::surface::{AcquireOutcome, PresentOutcome, SurfaceState};
use quantum_echoes::ui_state::{GuiInput, GuiOutcome, UIState};
use quantum_echoes::viewport::{Extent, Viewport};

const WINDOW: Extent = Extent { width: 800, height: 600 };

fn app() -> App {
    App::new(WINDOW, 3, 50).ok().unwrap()
}

fn panel_values(app: &App) -> GuiInput {
    let ui = app.state().ui;
    GuiInput {
        time_step_micros: ui.time_step_micros,
        brush_radius: ui.brush_radius,
        brush_value: ui.brush_value,
        visible_layer: ui.visible_layer,
        brush_layer: ui.brush_layer,
        reset_grid: false,
    }
}

fn redraw(app: &mut App, now_ms: u64) -> (GuiOutcome, Vec<FieldCommand>, FrameStart) {
    let gui = panel_values(app);
    redraw_with(app, now_ms, gui)
}

fn redraw_with(app: &mut App, now_ms: u64, gui: GuiInput) -> (GuiOutcome, Vec<FieldCommand>, FrameStart) {
    match app.window_event(now_ms, WindowSignal::RedrawRequested { gui }) {
        Reaction::Frame { gui, plan } => (gui, plan.field, plan.start),
        other => panic!("expected a frame, found {:?}", other),
    }
}

fn planned_update(field: FieldState, ui: &UIState) -> Vec<FieldCommand> {
    let block = ui.parameters();
    vec![
        FieldCommand::Dispatch {
            width: field.width,
            height: field.height,
            generation: field.generation,
            params: block.at_stage(0),
        },
        FieldCommand::Wait,
        FieldCommand::Dispatch {
            width: field.width,
            height: field.height,
            generation: field.generation,
            params: block.at_stage(1),
        },
        FieldCommand::Wait,
    ]
}

#[test]
fn orchestrator_starts_with_defaults() {
    let state = app().state();
    assert_eq!(state.ui, UIState::new());
    assert_eq!(state.field, FieldState { width: 1024, height: 1024, generation: 0 });
    assert_eq!(state.renderer.surface.extent, WINDOW);
    assert_eq!(state.renderer.surface.image_count, 3);
    assert_eq!(state.renderer.debounce_ms, 50);
    assert_eq!(state.renderer.pipeline.bound_field, 0);
}

#[test]
fn orchestrator_is_not_built_for_an_empty_window_or_without_images() {
    assert_eq!(App::new(Extent { width: 0, height: 1 }, 3, 50).err(), Some(RendererError::EmptyExtent));
    assert_eq!(App::new(WINDOW, 0, 50).err(), Some(RendererError::NoImages));
}

#[test]
fn close_request_leaves_the_loop() {
    let mut app = app();
    let before = app.state();
    assert!(matches!(app.window_event(5, WindowSignal::CloseRequested), Reaction::Exit));
    assert_eq!(app.state(), before);
}

#[test]
fn other_signals_do_nothing() {
    let mut app = app();
    let before = app.state();
    assert!(matches!(app.window_event(5, WindowSignal::Other), Reaction::Idle));
    assert_eq!(app.state(), before);
}

#[test]
fn resize_and_scale_signals_are_noted_alike() {
    let size = Extent { width: 1000, height: 700 };
    let mut resized = app();
    assert!(matches!(resized.window_event(7, WindowSignal::Resized { window: size }), Reaction::Idle));
    let mut rescaled = app();
    assert!(matches!(
        rescaled.window_event(7, WindowSignal::ScaleFactorChanged { window: size }),
        Reaction::Idle
    ));
    assert_eq!(resized.state(), rescaled.state());
    let state = resized.state().renderer;
    assert!(state.window_resized);
    assert_eq!(state.last_resize_ms, 7);
    assert_eq!(state.window, size);
    assert_eq!(state.surface.extent, WINDOW);
}

#[test]
fn redraw_updates_the_field_and_renders() {
    let mut app = app();
    let (gui, field, start) = redraw(&mut app, 0);
    assert_eq!(gui, GuiOutcome { reset_grid: false, visible_layer_changed: false });
    assert_eq!(field, planned_update(app.state().field, &UIState::new()));
    assert_eq!(
        start,
        FrameStart::Render { rebuild: RebuildSet::for_trigger(RebuildTrigger::ViewportOffsetChanged) }
    );
    let (_, field, start) = redraw(&mut app, 16);
    assert_eq!(field.len(), 4);
    assert_eq!(start, FrameStart::Render { rebuild: RebuildSet::none() });
}

#[test]
fn redraw_takes_over_the_panel_before_it_plans() {
    let mut app = app();
    let mut gui = panel_values(&app);
    gui.time_step_micros = 30_000;
    gui.brush_radius = 100;
    gui.visible_layer = SimulationLayer::Real;
    let (outcome, field, _) = redraw_with(&mut app, 0, gui);
    assert!(outcome.visible_layer_changed);
    let ui = app.state().ui;
    assert_eq!(ui.time_step_micros, 30_000);
    assert_eq!(ui.brush_radius, 8);
    assert_eq!(field, planned_update(app.state().field, &ui));
    assert_eq!(app.state().renderer.pipeline.visible_layer, SimulationLayer::Real);
}

#[test]
fn reset_clears_the_field_before_the_update() {
    let mut app = app();
    let mut gui = panel_values(&app);
    gui.reset_grid = true;
    let (outcome, field, _) = redraw_with(&mut app, 0, gui);
    assert!(outcome.reset_grid);
    let mut expected = vec![FieldCommand::Clear { generation: 0 }, FieldCommand::Wait];
    expected.extend(planned_update(app.state().field, &UIState::new()));
    assert_eq!(field, expected);
}

#[test]
fn minimised_window_runs_no_update() {
    let mut app = app();
    app.window_event(1, WindowSignal::Resized { window: Extent { width: 0, height: 0 } });
    let (_, field, start) = redraw(&mut app, 100);
    assert_eq!(start, FrameStart::Skip);
    assert!(field.is_empty());
    let mut gui = panel_values(&app);
    gui.reset_grid = true;
    let (_, field, start) = redraw_with(&mut app, 200, gui);
    assert_eq!(start, FrameStart::Skip);
    assert_eq!(field, vec![FieldCommand::Clear { generation: 0 }, FieldCommand::Wait]);
}

#[test]
fn settled_resize_orders_a_recreation_and_the_frame_goes_on_after_it() {
    let mut app = app();
    redraw(&mut app, 0);
    let size = Extent { width: 1000, height: 700 };
    app.window_event(100, WindowSignal::Resized { window: size });
    let (_, field, start) = redraw(&mut app, 120);
    assert!(matches!(start, FrameStart::Render { .. }));
    assert_eq!(field.len(), 4);

    let (_, field, start) = redraw(&mut app, 150);
    assert_eq!(
        start,
        FrameStart::Recreate {
            extent: size,
            rebuild: RebuildSet::for_trigger(RebuildTrigger::ViewportOffsetChanged),
        }
    );
    assert!(field.is_empty());
    let ordered = app.state().renderer;
    assert_eq!(ordered.surface.state, SurfaceState::Recreating);
    assert!(!ordered.window_resized);
    assert_eq!(
        ordered.pipeline.viewport,
        Viewport { offset_x: 300, offset_y: 0, width: 700, height: 700 }
    );

    let next = app.surface_recreated(150, size, 3).unwrap();
    assert_eq!(next.rebuild, RebuildSet::for_trigger(RebuildTrigger::SurfaceRecreated));
    assert_eq!(next.plan.start, FrameStart::Render { rebuild: RebuildSet::none() });
    assert_eq!(next.plan.field, planned_update(app.state().field, &app.state().ui));
    let renderer = app.state().renderer;
    assert_eq!(renderer.surface.state, SurfaceState::Valid);
    assert_eq!(renderer.surface.extent, size);
    assert_eq!(renderer.pipeline.viewport, ordered.pipeline.viewport);
    assert!(matches!(
        app.acquired(AcquireOutcome::Acquired { image_index: 0, suboptimal: false }),
        FrameStep::Draw { .. }
    ));
}

#[test]
fn recreation_after_an_invalidation_rebuilds_the_framebuffers_only() {
    let mut app = app();
    redraw(&mut app, 0);
    assert_eq!(app.acquired(AcquireOutcome::Invalidated), FrameStep::Skip);
    let (_, field, start) = redraw(&mut app, 16);
    assert_eq!(start, FrameStart::Recreate { extent: WINDOW, rebuild: RebuildSet::none() });
    assert!(field.is_empty());
    let next = app.surface_recreated(16, WINDOW, 2).unwrap();
    assert_eq!(next.rebuild, RebuildSet::for_trigger(RebuildTrigger::SurfaceRecreated));
    assert_eq!(next.plan.start, FrameStart::Render { rebuild: RebuildSet::none() });
    assert_eq!(next.plan.field.len(), 4);
    assert_eq!(app.state().renderer.pipeline.framebuffers, 2);
}

#[test]
fn resize_signal_during_a_recreation_orders_another_once_quiet() {
    let mut app = app();
    redraw(&mut app, 0);
    assert_eq!(app.acquired(AcquireOutcome::Invalidated), FrameStep::Skip);
    redraw(&mut app, 16);
    app.window_event(17, WindowSignal::Resized { window: WINDOW });
    let next = app.surface_recreated(18, WINDOW, 3).unwrap();
    assert!(matches!(next.plan.start, FrameStart::Render { .. }));
    assert_eq!(next.plan.field.len(), 4);
    assert!(app.state().renderer.window_resized);
    let (_, _, start) = redraw(&mut app, 67);
    assert!(matches!(start, FrameStart::Recreate { .. }));
}

#[test]
fn failed_recreation_report_changes_nothing() {
    let mut app = app();
    let size = Extent { width: 1000, height: 700 };
    app.window_event(100, WindowSignal::Resized { window: size });
    redraw(&mut app, 150);
    let before = app.state();
    assert_eq!(
        app.surface_recreated(150, Extent { width: 1000, height: 0 }, 3).err(),
        Some(RendererError::EmptyExtent)
    );
    assert_eq!(app.surface_recreated(150, WINDOW, 3).err(), Some(RendererError::UnexpectedExtent));
    assert_eq!(app.surface_recreated(150, size, 0).err(), Some(RendererError::NoImages));
    assert_eq!(app.state(), before);
}

#[test]
fn binding_set_names_the_current_field_at_every_step() {
    let mut app = app();
    let bound = |app: &App| {
        let state = app.state();
        assert_eq!(state.renderer.pipeline.bound_field, state.field.generation);
    };
    bound(&app);
    app.resize_field(64, 64).unwrap();
    bound(&app);
    app.window_event(5, WindowSignal::Resized { window: Extent { width: 640, height: 480 } });
    bound(&app);
    redraw(&mut app, 100);
    bound(&app);
    app.surface_recreated(100, Extent { width: 640, height: 480 }, 3).unwrap();
    bound(&app);
    app.resize_field(32, 32).unwrap();
    app.acquired(AcquireOutcome::Acquired { image_index: 0, suboptimal: false });
    bound(&app);
    app.presented(PresentOutcome::Invalidated);
    bound(&app);
}

#[test]
fn a_whole_frame_counts_once_and_reveals_the_window() {
    let mut app = app();
    redraw(&mut app, 0);
    let step = app.acquired(AcquireOutcome::Acquired { image_index: 1, suboptimal: false });
    match step {
        FrameStep::Draw { batch } => {
            assert_eq!(batch.image_index, 1);
            assert_eq!(batch.field_generation, app.state().field.generation);
            assert_eq!(batch.surface_generation, app.state().renderer.surface.generation);
        }
        FrameStep::Skip => panic!("expected a draw"),
    }
    let end = app.presented(PresentOutcome::Presented { suboptimal: false });
    assert_eq!(end, FrameEnd { completed: true, reveal_window: true });
    assert_eq!(app.state().renderer.frames, 1);
}

#[test]
fn invalidated_acquire_counts_no_frame() {
    let mut app = app();
    redraw(&mut app, 0);
    assert_eq!(app.acquired(AcquireOutcome::Invalidated), FrameStep::Skip);
    assert_eq!(
        app.presented(PresentOutcome::Presented { suboptimal: false }),
        FrameEnd { completed: false, reveal_window: false }
    );
    assert_eq!(app.state().renderer.frames, 0);
    assert!(!app.state().renderer.window_visible);
}

#[test]
fn field_resize_rebuilds_zeroes_and_rebinds() {
    let mut app = app();
    redraw(&mut app, 0);
    let replacement = app.resize_field(256, 128).unwrap();
    assert_eq!(
        replacement.field,
        vec![
            FieldCommand::Allocate { width: 256, height: 128, generation: 1 },
            FieldCommand::Clear { generation: 1 },
            FieldCommand::Wait,
        ]
    );
    assert_eq!(replacement.rebuild, RebuildSet::for_trigger(RebuildTrigger::FieldReplaced));
    let state = app.state();
    assert_eq!(state.field, FieldState { width: 256, height: 128, generation: 1 });
    assert_eq!(state.renderer.pipeline.bound_field, 1);

    let (_, field, start) = redraw(&mut app, 16);
    assert_eq!(start, FrameStart::Render { rebuild: RebuildSet::none() });
    assert_eq!(field, planned_update(state.field, &state.ui));
    match app.acquired(AcquireOutcome::Acquired { image_index: 0, suboptimal: false }) {
        FrameStep::Draw { batch } => assert_eq!(batch.field_generation, 1),
        FrameStep::Skip => panic!("expected a draw"),
    }
}

#[test]
fn field_resize_to_zero_is_rejected() {
    let mut app = app();
    let before = app.state();
    assert_eq!(app.resize_field(0, 128).err(), Some(FieldError::ZeroExtent));
    assert_eq!(app.resize_field(128, 0).err(), Some(FieldError::ZeroExtent));
    assert_eq!(app.state(), before);
}

#[test]
fn two_size_signals_leave_what_the_second_alone_leaves() {
    let first = Extent { width: 1000, height: 700 };
    let second = Extent { width: 640, height: 480 };
    let mut twice = app();
    twice.window_event(100, WindowSignal::Resized { window: first });
    twice.window_event(120, WindowSignal::ScaleFactorChanged { window: second });
    let mut once = app();
    once.window_event(120, WindowSignal::Resized { window: second });
    assert_eq!(twice.state(), once.state());

    let before = app().state();
    let after = once.state();
    assert!(after.renderer.window_resized);
    assert_eq!(after.renderer.surface, before.renderer.surface);
    assert_eq!(after.renderer.pipeline, before.renderer.pipeline);
    assert_eq!(after.field, before.field);
    assert_eq!(after.ui, before.ui);
}
