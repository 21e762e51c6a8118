//! The frame loop's decisions: when the surface is rebuilt, which draw
//! resources follow, and what one tick does with the image it is given.
//!
//! A tick is a short exchange. `draw` opens it and says whether to skip,
//! to rebuild the surface, or to render. A rebuild is reported to
//! `recreate_swapchain`, and the tick is opened again. To render, the caller
//! runs the field update, asks the device for an image and reports the
//! answer to `acquired`, which hands back the batch to draw. After the
//! overlay is composited and the image is queued for presentation,
//! `presented` closes the tick.
//!
//! The viewport always follows the window's size as of the latest resize
//! signal. The surface follows it too, but only after the signals have been
//! quiet for the debounce time.

use crate::layer::SimulationLayer;
use crate::pipeline::{DrawBatch, QuadPipeline, RebuildSet, RebuildTrigger};
use crate::simulator::Simulator;
use crate::surface::{AcquireOutcome, PresentOutcome, PresentationSurface, SurfaceState};
use crate::ui_state::UIState;
use crate::viewport::{Extent, Viewport};
use vstd::prelude::*;

verus! {

/// Quiet time after the last resize signal before the surface is rebuilt, in milliseconds.
pub const DEFAULT_DEBOUNCE_MS: u64 = 50;

#[derive(Clone, Copy, Debug, PartialEq, Eq)]
pub enum RendererError {
    /// A surface cannot be built for a window without pixels.
    EmptyExtent,
    /// The surface was not built at the window's size.
    UnexpectedExtent,
    /// A surface needs at least one image.
    NoImages,
    /// The generation counter cannot name another surface.
    GenerationExhausted,
}

/// How a tick begins.
#[derive(Clone, Copy, Debug, PartialEq, Eq)]
pub enum FrameStart {
    /// Nothing is done this tick.
    Skip,
    /// Rebuild what `rebuild` names and the surface at `extent`, report the
    /// surface, and open the tick again.
    Recreate { extent: Extent, rebuild: RebuildSet },
    /// Rebuild what `rebuild` names, update the field, and acquire an image.
    Render { rebuild: RebuildSet },
}

/// What follows the device's answer to the acquire.
#[derive(Clone, Copy, Debug, PartialEq, Eq)]
pub enum FrameStep {
    /// No draw and no present this tick.
    Skip,
    /// Submit `batch`, composite the overlay, and present the image.
    Draw { batch: DrawBatch },
}

/// How a tick ends.
#[derive(Clone, Copy, Debug, PartialEq, Eq)]
pub struct FrameEnd {
    /// A frame was counted.
    pub completed: bool,
    /// The window has its first picture and is to be shown now.
    pub reveal_window: bool,
}

/// Everything the frame loop remembers between calls.
#[derive(Clone, Copy, Debug, PartialEq, Eq)]
pub struct RendererState {
    pub surface: PresentationSurface,
    pub pipeline: QuadPipeline,
    /// Size of the window as of the latest resize signal.
    pub window: Extent,
    /// Width of the panel that the viewport was last computed for.
    pub panel_width: u32,
    /// A resize signal has arrived that no surface rebuild has answered yet.
    pub window_resized: bool,
    /// Time of the latest resize signal.
    pub last_resize_ms: u64,
    pub debounce_ms: u64,
    /// The image acquired this tick, until it is presented.
    pub in_flight: Option<u32>,
    /// Frames completed so far.
    pub frames: u64,
    /// The window has been revealed.
    pub window_visible: bool,
}

/// Time from `since_ms` to `now_ms`; none if the clock reads earlier than `since_ms`.
pub open spec fn elapsed(now_ms: u64, since_ms: u64) -> int {
    if now_ms >= since_ms {
        now_ms - since_ms
    } else {
        0
    }
}

/// The frame counter after one more frame. It stops at its largest value.
pub open spec fn next_frame(frames: u64) -> u64 {
    if frames < u64::MAX {
        (frames + 1) as u64
    } else {
        frames
    }
}

impl RendererState {
    /// The framebuffers wrap the current surface's images, and an image in
    /// flight belongs to it. While no resize is pending the viewport is the
    /// one for the window and the panel; once no rebuild is under way either,
    /// the surface has the window's size.
    pub open spec fn wf(self) -> bool {
        &&& self.surface.wf()
        &&& self.pipeline.framebuffers == self.surface.image_count
        &&& self.pipeline.framebuffer_surface == self.surface.generation
        &&& self.in_flight matches Some(index) ==> index < self.surface.image_count
            && self.surface.state !is Recreating
        &&& !self.window_resized ==> self.pipeline.viewport == Viewport::spec_for_window(
            self.window,
            self.panel_width,
        )
        &&& self.settled() ==> self.surface.extent == self.window
    }

    /// No resize awaits its rebuild and no rebuild is under way.
    pub open spec fn settled(self) -> bool {
        !self.window_resized && self.surface.state !is Recreating
    }

    /// The state after the first surface and its draw resources are built.
    /// The viewport starts without a panel.
    pub open spec fn created(
        window: Extent,
        image_count: u32,
        debounce_ms: u64,
        field_generation: u64,
    ) -> RendererState {
        RendererState {
            surface: PresentationSurface::created(window, image_count),
            pipeline: QuadPipeline {
                viewport: Viewport::spec_for_window(window, 0),
                framebuffers: image_count,
                framebuffer_surface: 0,
                bound_field: field_generation,
                visible_layer: SimulationLayer::Probability,
            },
            window,
            panel_width: 0,
            window_resized: false,
            last_resize_ms: 0,
            debounce_ms,
            in_flight: None,
            frames: 0,
            window_visible: false,
        }
    }

    /// Whether a tick at `now_ms` rebuilds the surface. A pending resize waits
    /// until the signals have been quiet for the debounce time; an invalidated
    /// surface with no resize pending is rebuilt at once.
    pub open spec fn recreate_due(self, now_ms: u64) -> bool {
        if self.window_resized {
            elapsed(now_ms, self.last_resize_ms) >= self.debounce_ms
        } else {
            self.surface.state is PendingRecreate
        }
    }

    /// The state after a resize or scale-factor signal. The signal is a flag,
    /// not a count: only its time and the window's size are taken over.
    pub open spec fn resize_requested(self, now_ms: u64, window: Extent) -> RendererState {
        RendererState { window_resized: true, last_resize_ms: now_ms, window, ..self }
    }

    /// The draw resources after viewport, pipeline and binding set are built
    /// for the window's size, a panel, a field and a layer.
    pub open spec fn matched(
        self,
        field_generation: u64,
        panel_width: u32,
        layer: SimulationLayer,
    ) -> RendererState {
        RendererState {
            pipeline: QuadPipeline {
                viewport: Viewport::spec_for_window(self.window, panel_width),
                bound_field: field_generation,
                visible_layer: layer,
                ..self.pipeline
            },
            panel_width,
            ..self
        }
    }

    /// The binding set after it is pointed at a field.
    pub open spec fn field_rebound(self, field_generation: u64) -> RendererState {
        RendererState {
            pipeline: QuadPipeline { bound_field: field_generation, ..self.pipeline },
            ..self
        }
    }

    /// What has to be rebuilt to match a field and a panel.
    pub open spec fn stale(self, field_generation: u64, panel_width: u32) -> RebuildSet {
        RebuildSet::spec_when(
            panel_width != self.panel_width,
            RebuildTrigger::ViewportOffsetChanged,
        ).spec_union(
            RebuildSet::spec_when(
                field_generation != self.pipeline.bound_field,
                RebuildTrigger::FieldReplaced,
            ),
        )
    }

    /// The draw resources after what is stale has been rebuilt: everything
    /// that hangs on the viewport if the panel changed, else the binding set
    /// alone. The layer to push is taken over in either case.
    pub open spec fn reconciled(
        self,
        field_generation: u64,
        panel_width: u32,
        layer: SimulationLayer,
    ) -> RendererState {
        if panel_width != self.panel_width {
            self.matched(field_generation, panel_width, layer)
        } else {
            RendererState {
                pipeline: QuadPipeline {
                    bound_field: field_generation,
                    visible_layer: layer,
                    ..self.pipeline
                },
                ..self
            }
        }
    }

    /// The state when a rebuild of the surface has been ordered. A pending
    /// resize is answered here: the flag is cleared, and viewport, pipeline
    /// and binding set are built for the window's new size.
    pub open spec fn recreation_ordered(
        self,
        field_generation: u64,
        panel_width: u32,
        layer: SimulationLayer,
    ) -> RendererState {
        let answered = if self.window_resized {
            self.matched(field_generation, panel_width, layer)
        } else {
            self
        };
        RendererState {
            surface: self.surface.recreating(),
            window_resized: false,
            in_flight: None,
            ..answered
        }
    }

    /// A tick opens. A frame left unfinished by the previous tick is dropped.
    pub open spec fn frame_started(
        self,
        now_ms: u64,
        field_generation: u64,
        panel_width: u32,
        layer: SimulationLayer,
    ) -> (RendererState, FrameStart) {
        let fresh = RendererState { in_flight: None, ..self };
        if self.window.spec_is_empty() {
            (fresh, FrameStart::Skip)
        } else if self.surface.state is Recreating || self.recreate_due(now_ms) {
            (
                self.recreation_ordered(field_generation, panel_width, layer),
                FrameStart::Recreate {
                    extent: self.window,
                    rebuild: RebuildSet::spec_when(
                        self.window_resized,
                        RebuildTrigger::ViewportOffsetChanged,
                    ),
                },
            )
        } else {
            (
                fresh.reconciled(field_generation, panel_width, layer),
                FrameStart::Render { rebuild: self.stale(field_generation, panel_width) },
            )
        }
    }

    /// The surface was rebuilt at `extent` with `image_count` images. Only
    /// what hangs on the images changes: the resize flag and the viewport are
    /// left as they are.
    pub open spec fn surface_recreated(self, extent: Extent, image_count: u32) -> (
        RendererState,
        Result<RebuildSet, RendererError>,
    ) {
        if extent.spec_is_empty() {
            (self, Err(RendererError::EmptyExtent))
        } else if extent != self.window {
            (self, Err(RendererError::UnexpectedExtent))
        } else if image_count == 0 {
            (self, Err(RendererError::NoImages))
        } else if self.surface.generation == u64::MAX {
            (self, Err(RendererError::GenerationExhausted))
        } else {
            let surface = self.surface.replaced(extent, image_count);
            (
                RendererState {
                    surface,
                    pipeline: QuadPipeline {
                        framebuffers: image_count,
                        framebuffer_surface: surface.generation,
                        ..self.pipeline
                    },
                    in_flight: None,
                    ..self
                },
                Ok(RebuildSet::spec_for_trigger(RebuildTrigger::SurfaceRecreated)),
            )
        }
    }

    /// The device answered the acquire.
    pub open spec fn image_acquired(self, outcome: AcquireOutcome) -> (RendererState, FrameStep) {
        if self.surface.state is Recreating || self.in_flight is Some {
            (self, FrameStep::Skip)
        } else {
            match outcome {
                AcquireOutcome::Invalidated => (
                    RendererState { surface: self.surface.invalidated(), ..self },
                    FrameStep::Skip,
                ),
                AcquireOutcome::TimedOut => (self, FrameStep::Skip),
                AcquireOutcome::Acquired { image_index, suboptimal } => {
                    if image_index >= self.surface.image_count {
                        (
                            RendererState { surface: self.surface.invalidated(), ..self },
                            FrameStep::Skip,
                        )
                    } else {
                        (
                            RendererState {
                                surface: if suboptimal {
                                    self.surface.invalidated()
                                } else {
                                    self.surface
                                },
                                in_flight: Some(image_index),
                                ..self
                            },
                            FrameStep::Draw {
                                batch: DrawBatch {
                                    image_index,
                                    surface_generation: self.surface.generation,
                                    field_generation: self.pipeline.bound_field,
                                    viewport: self.pipeline.viewport,
                                    visible_layer: self.pipeline.visible_layer,
                                },
                            },
                        )
                    }
                },
            }
        }
    }

    /// The device answered the present.
    pub open spec fn image_presented(self, outcome: PresentOutcome) -> (RendererState, FrameEnd) {
        if self.in_flight is None {
            (self, FrameEnd { completed: false, reveal_window: false })
        } else {
            match outcome {
                PresentOutcome::Presented { suboptimal } => (
                    RendererState {
                        surface: if suboptimal {
                            self.surface.invalidated()
                        } else {
                            self.surface
                        },
                        in_flight: None,
                        frames: next_frame(self.frames),
                        window_visible: true,
                        ..self
                    },
                    FrameEnd { completed: true, reveal_window: !self.window_visible },
                ),
                PresentOutcome::Invalidated => (
                    RendererState {
                        surface: self.surface.invalidated(),
                        in_flight: None,
                        frames: next_frame(self.frames),
                        ..self
                    },
                    FrameEnd { completed: true, reveal_window: false },
                ),
            }
        }
    }
}

/// The frame loop's state, changed only through the steps of a tick.
pub struct QuadRenderer {
    state: RendererState,
}

impl View for QuadRenderer {
    type V = RendererState;

    closed spec fn view(&self) -> RendererState {
        self.state
    }
}

impl QuadRenderer {
    /// The state is consistent at all times.
    #[verifier::type_invariant]
    pub open spec fn inv(&self) -> bool {
        self@.wf()
    }

    /// Takes over a surface just built for `window` with `image_count` images,
    /// and draw resources built for it and for `simulator`'s field.
    pub fn new(window: Extent, image_count: u32, debounce_ms: u64, simulator: &Simulator) -> (made:
        Result<QuadRenderer, RendererError>)
        ensures
            match made {
                Ok(renderer) => {
                    &&& !window.spec_is_empty()
                    &&& image_count > 0
                    &&& renderer@ == RendererState::created(
                        window,
                        image_count,
                        debounce_ms,
                        simulator@.generation,
                    )
                    &&& renderer@.wf()
                },
                Err(e) => if window.spec_is_empty() {
                    e == RendererError::EmptyExtent
                } else {
                    image_count == 0 && e == RendererError::NoImages
                },
            },
    {
        if window.is_empty() {
            return Err(RendererError::EmptyExtent);
        }
        if image_count == 0 {
            return Err(RendererError::NoImages);
        }
        Ok(
            QuadRenderer {
                state: RendererState {
                    surface: PresentationSurface {
                        state: SurfaceState::Valid,
                        extent: window,
                        image_count,
                        generation: 0,
                    },
                    pipeline: QuadPipeline {
                        viewport: Viewport::for_window(window, 0),
                        framebuffers: image_count,
                        framebuffer_surface: 0,
                        bound_field: simulator.generation(),
                        visible_layer: SimulationLayer::Probability,
                    },
                    window,
                    panel_width: 0,
                    window_resized: false,
                    last_resize_ms: 0,
                    debounce_ms,
                    in_flight: None,
                    frames: 0,
                    window_visible: false,
                },
            },
        )
    }

    /// Resumes from a state taken earlier, if it is consistent.
    pub fn from_state(state: RendererState) -> (made: Option<QuadRenderer>)
        ensures
            made is Some <==> state.wf(),
            made matches Some(renderer) ==> renderer@ == state,
    {
        let recreating = match state.surface.state {
            SurfaceState::Recreating => true,
            _ => false,
        };
        let in_flight_fits = match state.in_flight {
            Some(index) => index < state.surface.image_count && !recreating,
            None => true,
        };
        let viewport_fits = state.window_resized || state.pipeline.viewport
            == Viewport::for_window(state.window, state.panel_width);
        let extent_fits = state.window_resized || recreating || state.surface.extent
            == state.window;
        if !state.surface.extent.is_empty() && state.surface.image_count > 0
            && state.pipeline.framebuffers == state.surface.image_count
            && state.pipeline.framebuffer_surface == state.surface.generation && in_flight_fits
            && viewport_fits && extent_fits {
            Some(QuadRenderer { state })
        } else {
            None
        }
    }

    /// A second handle on the same state, for an owner that replaces its
    /// parts as a whole.
    pub(crate) fn duplicate(&self) -> (copy: QuadRenderer)
        ensures
            copy@ == self@,
    {
        proof {
            use_type_invariant(self);
        }
        QuadRenderer { state: self.state }
    }

    /// A copy of the whole state.
    pub fn state(&self) -> (state: RendererState)
        ensures
            state == self@,
            state.wf(),
    {
        proof {
            use_type_invariant(self);
        }
        self.state
    }

    /// Notes a resize or scale-factor signal. Nothing is rebuilt yet.
    pub fn resize_requested(&mut self, now_ms: u64, window: Extent)
        ensures
            final(self)@ == old(self)@.resize_requested(now_ms, window),
            final(self)@.wf(),
    {
        proof {
            use_type_invariant(&*self);
        }
        let s = self.state;
        self.state = RendererState { window_resized: true, last_resize_ms: now_ms, window, ..s };
    }

    /// Opens a tick at `now_ms`. It is skipped while the window has no
    /// pixels. A rebuild of the surface is ordered when a resize has been
    /// quiet for the debounce time, or at once when the device called the
    /// surface invalid; ordering it answers the resize. Otherwise the draw
    /// resources are matched to the field and the panel, and the frame renders.
    pub fn draw(&mut self, now_ms: u64, simulator: &Simulator, ui_state: &UIState) -> (start:
        FrameStart)
        ensures
            (final(self)@, start) == old(self)@.frame_started(
                now_ms,
                simulator@.generation,
                ui_state.gui_width,
                ui_state.visible_layer,
            ),
            final(self)@.wf(),
            final(self)@.in_flight is None,
            final(self)@.frames == old(self)@.frames,
            final(self)@.window == old(self)@.window,
            start is Skip <==> old(self)@.window.spec_is_empty(),
            start is Recreate ==> !final(self)@.window_resized && final(self)@.surface.state
                is Recreating,
            start is Render ==> final(self)@.window_resized == old(self)@.window_resized
                && final(self)@.surface == old(self)@.surface,
            start is Render ==> final(self)@.pipeline.bound_field == simulator@.generation
                && final(self)@.panel_width == ui_state.gui_width,
            !final(self)@.window_resized ==> final(self)@.pipeline.viewport
                == Viewport::spec_for_window(final(self)@.window, final(self)@.panel_width),
    {
        proof {
            use_type_invariant(&*self);
        }
        let s = self.state;
        let fresh = RendererState { in_flight: None, ..s };
        if s.window.is_empty() {
            self.state = fresh;
            return FrameStart::Skip;
        }
        let field_generation = simulator.generation();
        let matched = QuadPipeline {
            viewport: Viewport::for_window(s.window, ui_state.gui_width),
            bound_field: field_generation,
            visible_layer: ui_state.visible_layer,
            ..s.pipeline
        };
        let recreating = match s.surface.state {
            SurfaceState::Recreating => true,
            _ => false,
        };
        let pending = match s.surface.state {
            SurfaceState::PendingRecreate => true,
            _ => false,
        };
        let due = if s.window_resized {
            now_ms >= s.last_resize_ms && now_ms - s.last_resize_ms >= s.debounce_ms
                || s.debounce_ms == 0
        } else {
            pending
        };
        if recreating || due {
            let surface = PresentationSurface { state: SurfaceState::Recreating, ..s.surface };
            self.state = if s.window_resized {
                RendererState {
                    surface,
                    pipeline: matched,
                    panel_width: ui_state.gui_width,
                    window_resized: false,
                    ..fresh
                }
            } else {
                RendererState { surface, ..fresh }
            };
            return FrameStart::Recreate {
                extent: s.window,
                rebuild: RebuildSet::when(s.window_resized, RebuildTrigger::ViewportOffsetChanged),
            };
        }
        let rebuild = RebuildSet::when(
            ui_state.gui_width != s.panel_width,
            RebuildTrigger::ViewportOffsetChanged,
        ).union(
            RebuildSet::when(
                field_generation != s.pipeline.bound_field,
                RebuildTrigger::FieldReplaced,
            ),
        );
        self.state = if ui_state.gui_width != s.panel_width {
            RendererState { pipeline: matched, panel_width: ui_state.gui_width, ..fresh }
        } else {
            RendererState {
                pipeline: QuadPipeline {
                    bound_field: field_generation,
                    visible_layer: ui_state.visible_layer,
                    ..s.pipeline
                },
                ..fresh
            }
        };
        FrameStart::Render { rebuild }
    }

    /// Takes over a surface just rebuilt at `extent`, the window's size, with
    /// `image_count` images: the framebuffers are to be built anew, one for
    /// each image of the new generation. The resize flag, the viewport and
    /// the pipeline are not touched. A rebuild that cannot be taken over
    /// changes nothing.
    pub fn recreate_swapchain(&mut self, extent: Extent, image_count: u32) -> (rebuild: Result<
        RebuildSet,
        RendererError,
    >)
        ensures
            (final(self)@, rebuild) == old(self)@.surface_recreated(extent, image_count),
            final(self)@.wf(),
            rebuild is Ok <==> !extent.spec_is_empty() && extent == old(self)@.window && image_count
                > 0 && old(self)@.surface.generation < u64::MAX,
            rebuild is Err ==> final(self)@ == old(self)@,
            rebuild matches Ok(set) ==> {
                &&& set == RebuildSet::spec_for_trigger(RebuildTrigger::SurfaceRecreated)
                &&& final(self)@.surface.state is Valid
                &&& final(self)@.surface.extent == old(self)@.window
                &&& final(self)@.surface.image_count == image_count
                &&& final(self)@.surface.generation == old(self)@.surface.generation + 1
                &&& final(self)@.pipeline.framebuffers == image_count
                &&& final(self)@.pipeline.framebuffer_surface == final(self)@.surface.generation
                &&& final(self)@.in_flight is None
            },
            final(self)@.window_resized == old(self)@.window_resized,
            final(self)@.window == old(self)@.window,
            final(self)@.pipeline.viewport == old(self)@.pipeline.viewport,
            final(self)@.pipeline.bound_field == old(self)@.pipeline.bound_field,
            final(self)@.panel_width == old(self)@.panel_width,
            final(self)@.frames == old(self)@.frames,
    {
        proof {
            use_type_invariant(&*self);
        }
        let s = self.state;
        if extent.is_empty() {
            return Err(RendererError::EmptyExtent);
        }
        if extent != s.window {
            return Err(RendererError::UnexpectedExtent);
        }
        if image_count == 0 {
            return Err(RendererError::NoImages);
        }
        if s.surface.generation == u64::MAX {
            return Err(RendererError::GenerationExhausted);
        }
        let generation: u64 = s.surface.generation + 1;
        self.state = RendererState {
            surface: PresentationSurface {
                state: SurfaceState::Valid,
                extent,
                image_count,
                generation,
            },
            pipeline: QuadPipeline {
                framebuffers: image_count,
                framebuffer_surface: generation,
                ..s.pipeline
            },
            in_flight: None,
            ..s
        };
        Ok(RebuildSet::for_trigger(RebuildTrigger::SurfaceRecreated))
    }

    /// Rebuilds viewport, pipeline, binding set and command batches, whether
    /// or not they are stale. The viewport is computed from the window's size
    /// as of the latest resize signal and from the panel's width; nothing of
    /// the earlier viewport survives.
    pub fn update_pipeline_and_command_buffers(
        &mut self,
        simulator: &Simulator,
        ui_state: &UIState,
    ) -> (rebuild: RebuildSet)
        ensures
            final(self)@ == old(self)@.matched(
                simulator@.generation,
                ui_state.gui_width,
                ui_state.visible_layer,
            ),
            final(self)@.wf(),
            final(self)@.pipeline.viewport == Viewport::spec_for_window(
                old(self)@.window,
                ui_state.gui_width,
            ),
            final(self)@.pipeline.bound_field == simulator@.generation,
            rebuild == RebuildSet::spec_for_trigger(RebuildTrigger::ViewportOffsetChanged),
    {
        proof {
            use_type_invariant(&*self);
        }
        let s = self.state;
        self.state = RendererState {
            pipeline: QuadPipeline {
                viewport: Viewport::for_window(s.window, ui_state.gui_width),
                bound_field: simulator.generation(),
                visible_layer: ui_state.visible_layer,
                ..s.pipeline
            },
            panel_width: ui_state.gui_width,
            ..s
        };
        RebuildSet::for_trigger(RebuildTrigger::ViewportOffsetChanged)
    }

    /// Rebuilds the binding set for the current field, whether or not it is stale.
    pub fn rebind_field(&mut self, simulator: &Simulator) -> (rebuild: RebuildSet)
        ensures
            final(self)@ == old(self)@.field_rebound(simulator@.generation),
            final(self)@.wf(),
            rebuild == RebuildSet::spec_for_trigger(RebuildTrigger::FieldReplaced),
    {
        proof {
            use_type_invariant(&*self);
        }
        let s = self.state;
        self.state = RendererState {
            pipeline: QuadPipeline { bound_field: simulator.generation(), ..s.pipeline },
            ..s
        };
        RebuildSet::for_trigger(RebuildTrigger::FieldReplaced)
    }

    /// Takes the device's answer to the acquire and decides on the draw.
    pub fn acquired(&mut self, outcome: AcquireOutcome) -> (step: FrameStep)
        ensures
            (final(self)@, step) == old(self)@.image_acquired(outcome),
            final(self)@.wf(),
            final(self)@.frames == old(self)@.frames,
            outcome is Invalidated ==> step is Skip && final(self)@.in_flight == old(self)@.in_flight,
            outcome is Invalidated && old(self)@.in_flight is None ==> final(self)@.surface.state
                !is Valid,
            step matches FrameStep::Draw { batch } ==> {
                &&& outcome matches AcquireOutcome::Acquired { image_index, .. }
                &&& batch.image_index == image_index
                &&& image_index < final(self)@.pipeline.framebuffers
                &&& batch.surface_generation == final(self)@.pipeline.framebuffer_surface
                &&& batch.field_generation == final(self)@.pipeline.bound_field
                &&& final(self)@.in_flight == Some(image_index)
            },
    {
        proof {
            use_type_invariant(&*self);
        }
        let s = self.state;
        let recreating = match s.surface.state {
            SurfaceState::Recreating => true,
            _ => false,
        };
        if recreating || s.in_flight.is_some() {
            return FrameStep::Skip;
        }
        let invalid = PresentationSurface { state: SurfaceState::PendingRecreate, ..s.surface };
        match outcome {
            AcquireOutcome::Invalidated => {
                self.state = RendererState { surface: invalid, ..s };
                FrameStep::Skip
            },
            AcquireOutcome::TimedOut => FrameStep::Skip,
            AcquireOutcome::Acquired { image_index, suboptimal } => {
                if image_index >= s.surface.image_count {
                    self.state = RendererState { surface: invalid, ..s };
                    FrameStep::Skip
                } else {
                    self.state = RendererState {
                        surface: if suboptimal {
                            invalid
                        } else {
                            s.surface
                        },
                        in_flight: Some(image_index),
                        ..s
                    };
                    FrameStep::Draw {
                        batch: DrawBatch {
                            image_index,
                            surface_generation: s.surface.generation,
                            field_generation: s.pipeline.bound_field,
                            viewport: s.pipeline.viewport,
                            visible_layer: s.pipeline.visible_layer,
                        },
                    }
                }
            },
        }
    }

    /// Takes the device's answer to the present and closes the tick.
    pub fn presented(&mut self, outcome: PresentOutcome) -> (end: FrameEnd)
        ensures
            (final(self)@, end) == old(self)@.image_presented(outcome),
            final(self)@.wf(),
            end.completed <==> old(self)@.in_flight is Some,
            !end.completed ==> final(self)@ == old(self)@,
            end.reveal_window <==> old(self)@.in_flight is Some && outcome is Presented && !old(self)@.window_visible,
    {
        proof {
            use_type_invariant(&*self);
        }
        let s = self.state;
        if s.in_flight.is_none() {
            return FrameEnd { completed: false, reveal_window: false };
        }
        let frames: u64 = if s.frames < u64::MAX {
            s.frames + 1
        } else {
            s.frames
        };
        let invalid = PresentationSurface { state: SurfaceState::PendingRecreate, ..s.surface };
        match outcome {
            PresentOutcome::Presented { suboptimal } => {
                self.state = RendererState {
                    surface: if suboptimal {
                        invalid
                    } else {
                        s.surface
                    },
                    in_flight: None,
                    frames,
                    window_visible: true,
                    ..s
                };
                FrameEnd { completed: true, reveal_window: !s.window_visible }
            },
            PresentOutcome::Invalidated => {
                self.state = RendererState { surface: invalid, in_flight: None, frames, ..s };
                FrameEnd { completed: true, reveal_window: false }
            },
        }
    }
}

} // verus!
