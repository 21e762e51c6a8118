//! The frame orchestrator: sole owner of the field, the surface with its draw
//! resources, and the user's parameters. It turns window signals into frames
//! and keeps the binding of field to texture current at every step.

use crate::pipeline::{RebuildSet, RebuildTrigger};
use crate::quad_renderer::{FrameEnd, FrameStart, FrameStep, QuadRenderer, RendererError, RendererState};
use crate::simulator::{
    content_after_update, Content, FieldCommand, FieldError, FieldState, Simulator,
};
use crate::surface::{AcquireOutcome, PresentOutcome};
use crate::ui_state::{GuiInput, GuiOutcome, SimulationParameters, UIState};
use crate::viewport::Extent;
use vstd::prelude::*;

verus! {

/// What the window reports, with what the orchestrator needs of it.
#[derive(Clone, Copy, Debug, PartialEq, Eq)]
pub enum WindowSignal {
    CloseRequested,
    /// The window has a new size.
    Resized { window: Extent },
    /// The window moved to a display of another density; `window` is its size in pixels now.
    ScaleFactorChanged { window: Extent },
    /// A frame is wanted; `gui` is what the panel's widgets hold.
    RedrawRequested { gui: GuiInput },
    /// Anything else.
    Other,
}

/// One frame's work up to the acquire. The field commands are executed
/// first, in order; `start` says how the frame goes on.
#[derive(Debug)]
pub struct FramePlan {
    pub field: Vec<FieldCommand>,
    pub start: FrameStart,
}

/// What follows the rebuild of the surface: the framebuffers are built anew,
/// and the tick that ordered the rebuild is opened again.
#[derive(Debug)]
pub struct Recreation {
    /// What has to be rebuilt for the new surface.
    pub rebuild: RebuildSet,
    /// How the frame goes on.
    pub plan: FramePlan,
}

/// The work that replaces the field by one of another size.
#[derive(Debug)]
pub struct FieldReplacement {
    /// Builds and zeroes the new field.
    pub field: Vec<FieldCommand>,
    /// What has to be rebuilt once the new field exists.
    pub rebuild: RebuildSet,
}

/// What a window signal leads to.
#[derive(Debug)]
pub enum Reaction {
    /// Leave the event loop.
    Exit,
    /// Nothing to do now.
    Idle,
    /// Run a frame.
    Frame { gui: GuiOutcome, plan: FramePlan },
}

/// The orchestrator's state as a plain value.
#[derive(Clone, Copy, Debug, PartialEq, Eq)]
pub struct AppState {
    pub renderer: RendererState,
    pub field: FieldState,
    pub ui: UIState,
}

impl AppState {
    /// Each part is consistent, and the binding set names the current field.
    pub open spec fn wf(self) -> bool {
        &&& self.renderer.wf()
        &&& self.field.wf()
        &&& self.renderer.pipeline.bound_field == self.field.generation
    }

    /// The state when a frame has been opened with what the panel holds.
    pub open spec fn frame_opened(self, now_ms: u64, gui: GuiInput) -> AppState {
        let ui = self.ui.after_gui(gui);
        AppState {
            renderer: self.renderer.frame_started(
                now_ms,
                self.field.generation,
                ui.gui_width,
                ui.visible_layer,
            ).0,
            ui,
            ..self
        }
    }

    /// How that frame starts.
    pub open spec fn frame_start(self, now_ms: u64, gui: GuiInput) -> FrameStart {
        let ui = self.ui.after_gui(gui);
        self.renderer.frame_started(now_ms, self.field.generation, ui.gui_width, ui.visible_layer).1
    }

    /// The field work of a frame: the clear that the panel asked for, then the
    /// update if the frame renders.
    pub open spec fn field_work(self, reset_grid: bool, renders: bool) -> Seq<FieldCommand> {
        let clear = if reset_grid {
            self.field.clear_schedule()
        } else {
            Seq::empty()
        };
        let update = if renders {
            self.field.update_schedule(self.ui.spec_parameters())
        } else {
            Seq::empty()
        };
        clear + update
    }

    /// What the rebuilt surface invalidates, or why it cannot be taken over.
    pub open spec fn recreation_report(self, extent: Extent, image_count: u32) -> Result<
        RebuildSet,
        RendererError,
    > {
        self.renderer.surface_recreated(extent, image_count).1
    }

    /// How the frame goes on once the rebuilt surface is taken over: the
    /// tick is opened again, with the controls as they are.
    pub open spec fn frame_resumed(self, now_ms: u64, extent: Extent, image_count: u32) -> (
        RendererState,
        FrameStart,
    ) {
        self.renderer.surface_recreated(extent, image_count).0.frame_started(
            now_ms,
            self.field.generation,
            self.ui.gui_width,
            self.ui.visible_layer,
        )
    }

    /// The state after the surface was rebuilt at `extent` with `image_count`
    /// images. A rebuild that cannot be taken over changes nothing.
    pub open spec fn surface_recreated(
        self,
        now_ms: u64,
        extent: Extent,
        image_count: u32,
    ) -> AppState {
        if self.recreation_report(extent, image_count) is Ok {
            AppState { renderer: self.frame_resumed(now_ms, extent, image_count).0, ..self }
        } else {
            self
        }
    }

    /// The state after a request for a field of another size.
    pub open spec fn field_resized(self, width: u32, height: u32) -> AppState {
        match self.field.resized(width, height) {
            Ok(field) => AppState {
                renderer: self.renderer.field_rebound(field.generation),
                field,
                ..self
            },
            Err(_) => self,
        }
    }

    /// The state after a window signal.
    pub open spec fn signalled(self, now_ms: u64, signal: WindowSignal) -> AppState {
        match signal {
            WindowSignal::Resized { window } | WindowSignal::ScaleFactorChanged { window } => {
                AppState { renderer: self.renderer.resize_requested(now_ms, window), ..self }
            },
            WindowSignal::RedrawRequested { gui } => self.frame_opened(now_ms, gui),
            _ => self,
        }
    }
}

/// The field's content after a frame's field work.
pub open spec fn content_after_frame(
    before: Content,
    reset_grid: bool,
    renders: bool,
    params: SimulationParameters,
) -> Content {
    let cleared = if reset_grid {
        Some(Seq::empty())
    } else {
        before
    };
    if renders {
        content_after_update(cleared, params)
    } else {
        cleared
    }
}

/// A frame that resets the field and renders leaves it holding that frame's
/// update and nothing else: two fields with different pasts cannot be told
/// apart afterwards.
pub proof fn law_reset_frame_forgets_history(
    before: Content,
    other: Content,
    params: SimulationParameters,
)
    ensures
        content_after_frame(before, true, true, params) == content_after_frame(
            other,
            true,
            true,
            params,
        ),
        content_after_frame(before, true, true, params) == Some(
            seq![params.spec_at_stage(0), params.spec_at_stage(1)],
        ),
        content_after_frame(before, true, false, params) == Some(
            Seq::<SimulationParameters>::empty(),
        ),
{
    let cleared: Content = Some(Seq::empty());
    assert(content_after_update(cleared, params)->0 =~= seq![
        params.spec_at_stage(0),
        params.spec_at_stage(1),
    ]);
}

/// Two size signals with no redraw between them leave what the second alone
/// would have left, whether they report a new size or a new density: the
/// pending resize is a flag, so one rebuild of the surface answers both.
pub proof fn law_window_signals_do_not_accumulate(
    state: AppState,
    first_ms: u64,
    first: WindowSignal,
    second_ms: u64,
    second: WindowSignal,
)
    requires
        first is Resized || first is ScaleFactorChanged,
        second is Resized || second is ScaleFactorChanged,
    ensures
        state.signalled(first_ms, first).signalled(second_ms, second) == state.signalled(
            second_ms,
            second,
        ),
        state.signalled(second_ms, second).renderer.window_resized,
        state.signalled(second_ms, second).renderer.surface == state.renderer.surface,
        state.signalled(second_ms, second).renderer.pipeline == state.renderer.pipeline,
        state.signalled(second_ms, second).field == state.field,
        state.signalled(second_ms, second).ui == state.ui,
{
}

/// Owner of the three resources that a frame touches.
pub struct App {
    renderer: QuadRenderer,
    simulator: Simulator,
    ui_state: UIState,
}

impl View for App {
    type V = AppState;

    closed spec fn view(&self) -> AppState {
        AppState { renderer: self.renderer@, field: self.simulator@, ui: self.ui_state }
    }
}

impl App {
    /// Each part is consistent at all times, and the binding set names the
    /// current field.
    #[verifier::type_invariant]
    pub open spec fn inv(&self) -> bool {
        self@.wf()
    }

    /// What the field holds, as far as it is known.
    pub closed spec fn content(&self) -> Content {
        self.simulator.content()
    }

    /// Takes over a window whose surface was just built with `image_count`
    /// images, with a field of the default size and the panel's defaults.
    pub fn new(window: Extent, image_count: u32, debounce_ms: u64) -> (made: Result<
        App,
        RendererError,
    >)
        ensures
            match made {
                Ok(app) => {
                    &&& !window.spec_is_empty()
                    &&& image_count > 0
                    &&& app@.ui == UIState::initial()
                    &&& app@.field == Simulator::initial_field()
                    &&& app@.renderer == RendererState::created(
                        window,
                        image_count,
                        debounce_ms,
                        0,
                    )
                    &&& app@.wf()
                    &&& app.content() is None
                },
                Err(e) => if window.spec_is_empty() {
                    e == RendererError::EmptyExtent
                } else {
                    image_count == 0 && e == RendererError::NoImages
                },
            },
    {
        let simulator = Simulator::new();
        let renderer = QuadRenderer::new(window, image_count, debounce_ms, &simulator);
        match renderer {
            Ok(renderer) => Ok(App { renderer, simulator, ui_state: UIState::new() }),
            Err(e) => Err(e),
        }
    }

    /// A copy of the whole state.
    pub fn state(&self) -> (state: AppState)
        ensures
            state == self@,
            state.wf(),
            state.renderer.pipeline.bound_field == state.field.generation,
    {
        proof {
            use_type_invariant(self);
        }
        AppState {
            renderer: self.renderer.state(),
            field: self.simulator.field(),
            ui: self.ui_state,
        }
    }

    /// Reacts to a window signal. A close request ends the loop; a new size
    /// is noted for a later rebuild; a redraw request takes over the panel's
    /// values and opens a frame.
    pub fn window_event(&mut self, now_ms: u64, signal: WindowSignal) -> (reaction: Reaction)
        ensures
            final(self)@ == old(self)@.signalled(now_ms, signal),
            final(self)@.wf(),
            match signal {
                WindowSignal::CloseRequested => reaction is Exit && final(self).content() == old(self).content(),
                WindowSignal::RedrawRequested { gui } => {
                    &&& reaction matches Reaction::Frame { gui: outcome, plan }
                    &&& outcome.reset_grid == gui.reset_grid
                    &&& outcome.visible_layer_changed == (final(self)@.ui.visible_layer != old(self)@.ui.visible_layer)
                    &&& plan.start == old(self)@.frame_start(now_ms, gui)
                    &&& plan.field@ == final(self)@.field_work(gui.reset_grid, plan.start is Render)
                    &&& final(self).content() == content_after_frame(
                        old(self).content(),
                        gui.reset_grid,
                        plan.start is Render,
                        final(self)@.ui.spec_parameters(),
                    )
                },
                _ => reaction is Idle && final(self).content() == old(self).content(),
            },
    {
        proof {
            use_type_invariant(&*self);
        }
        match signal {
            WindowSignal::CloseRequested => Reaction::Exit,
            WindowSignal::Resized { window } | WindowSignal::ScaleFactorChanged { window } => {
                let mut renderer = self.renderer.duplicate();
                renderer.resize_requested(now_ms, window);
                self.renderer = renderer;
                Reaction::Idle
            },
            WindowSignal::RedrawRequested { gui } => {
                let mut ui_state = self.ui_state;
                let mut simulator = self.simulator.duplicate();
                let mut renderer = self.renderer.duplicate();
                let outcome = ui_state.setup_gui(gui);
                let mut field: Vec<FieldCommand> = if outcome.reset_grid {
                    simulator.clear()
                } else {
                    Vec::new()
                };
                let start = renderer.draw(now_ms, &simulator, &ui_state);
                match start {
                    FrameStart::Render { .. } => {
                        let mut update = simulator.compute(&ui_state);
                        field.append(&mut update);
                    },
                    _ => {},
                }
                *self = App { renderer, simulator, ui_state };
                Reaction::Frame { gui: outcome, plan: FramePlan { field, start } }
            },
            WindowSignal::Other => Reaction::Idle,
        }
    }

    /// Takes over a surface just rebuilt at `extent`, the window's size, with
    /// `image_count` images, and opens the tick again: the frame goes on as
    /// a tick at `now_ms` would start, and the field is updated if it
    /// renders. A rebuild that cannot be taken over changes nothing.
    pub fn surface_recreated(&mut self, now_ms: u64, extent: Extent, image_count: u32) -> (next:
        Result<Recreation, RendererError>)
        ensures
            final(self)@ == old(self)@.surface_recreated(now_ms, extent, image_count),
            final(self)@.wf(),
            match old(self)@.recreation_report(extent, image_count) {
                Ok(rebuild) => {
                    &&& next matches Ok(recreation)
                    &&& recreation.rebuild == rebuild
                    &&& recreation.plan.start == old(self)@.frame_resumed(
                        now_ms,
                        extent,
                        image_count,
                    ).1
                    &&& recreation.plan.field@ == final(self)@.field_work(
                        false,
                        recreation.plan.start is Render,
                    )
                    &&& final(self).content() == content_after_frame(
                        old(self).content(),
                        false,
                        recreation.plan.start is Render,
                        final(self)@.ui.spec_parameters(),
                    )
                },
                Err(e) => {
                    &&& next matches Err(error)
                    &&& error == e
                    &&& final(self).content() == old(self).content()
                },
            },
    {
        proof {
            use_type_invariant(&*self);
        }
        let mut simulator = self.simulator.duplicate();
        let mut renderer = self.renderer.duplicate();
        match renderer.recreate_swapchain(extent, image_count) {
            Ok(rebuild) => {
                let start = renderer.draw(now_ms, &simulator, &self.ui_state);
                let field: Vec<FieldCommand> = match start {
                    FrameStart::Render { .. } => simulator.compute(&self.ui_state),
                    _ => Vec::new(),
                };
                proof {
                    assert(field@ =~= AppState {
                        renderer: renderer@,
                        field: simulator@,
                        ui: self.ui_state,
                    }.field_work(false, start is Render));
                }
                *self = App { renderer, simulator, ui_state: self.ui_state };
                Ok(Recreation { rebuild, plan: FramePlan { field, start } })
            },
            Err(e) => Err(e),
        }
    }

    /// Takes the device's answer to the acquire and decides on the draw. A
    /// batch to draw names the current field and the current surface.
    pub fn acquired(&mut self, outcome: AcquireOutcome) -> (step: FrameStep)
        ensures
            final(self)@ == (AppState {
                renderer: old(self)@.renderer.image_acquired(outcome).0,
                ..old(self)@
            }),
            step == old(self)@.renderer.image_acquired(outcome).1,
            final(self).content() == old(self).content(),
            final(self)@.wf(),
            step matches FrameStep::Draw { batch } ==> batch.field_generation == final(self)@.field.generation && batch.surface_generation == final(self)@.renderer.surface.generation,
    {
        proof {
            use_type_invariant(&*self);
        }
        let mut renderer = self.renderer.duplicate();
        let step = renderer.acquired(outcome);
        self.renderer = renderer;
        step
    }

    /// Takes the device's answer to the present and closes the frame.
    pub fn presented(&mut self, outcome: PresentOutcome) -> (end: FrameEnd)
        ensures
            final(self)@ == (AppState {
                renderer: old(self)@.renderer.image_presented(outcome).0,
                ..old(self)@
            }),
            end == old(self)@.renderer.image_presented(outcome).1,
            final(self).content() == old(self).content(),
            final(self)@.wf(),
    {
        proof {
            use_type_invariant(&*self);
        }
        let mut renderer = self.renderer.duplicate();
        let end = renderer.presented(outcome);
        self.renderer = renderer;
        end
    }

    /// Replaces the field by a zeroed one of another size and points the
    /// binding set at it. A size without cells is refused and changes nothing.
    pub fn resize_field(&mut self, width: u32, height: u32) -> (plan: Result<
        FieldReplacement,
        FieldError,
    >)
        ensures
            final(self)@ == old(self)@.field_resized(width, height),
            final(self)@.wf(),
            match old(self)@.field.resized(width, height) {
                Ok(field) => {
                    &&& plan matches Ok(replacement)
                    &&& replacement.field@ == field.allocate_schedule()
                    &&& replacement.rebuild == RebuildSet::spec_for_trigger(
                        RebuildTrigger::FieldReplaced,
                    )
                    &&& final(self).content() == Some(Seq::<SimulationParameters>::empty())
                    &&& final(self)@.renderer.pipeline.bound_field == field.generation
                },
                Err(e) => {
                    &&& plan matches Err(error)
                    &&& error == e
                    &&& final(self).content() == old(self).content()
                },
            },
            width == 0 || height == 0 ==> (plan matches Err(error) && error
                == FieldError::ZeroExtent) && final(self)@ == old(self)@,
    {
        proof {
            use_type_invariant(&*self);
        }
        let mut simulator = self.simulator.duplicate();
        match simulator.resize(width, height) {
            Ok(field) => {
                let mut renderer = self.renderer.duplicate();
                let rebuild = renderer.rebind_field(&simulator);
                *self = App { renderer, simulator, ui_state: self.ui_state };
                Ok(FieldReplacement { field, rebuild })
            },
            Err(e) => Err(e),
        }
    }
}

} // verus!
