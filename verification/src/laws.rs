//! What holds of the frame loop over whole runs, whatever the window, the
//! user and the device do.

use crate::layer::SimulationLayer;
use crate::pipeline::{QuadPipeline, RebuildSet, RebuildTrigger};
use crate::quad_renderer::{FrameStart, FrameStep, RendererError, RendererState};
use crate::surface::{AcquireOutcome, PresentOutcome};
use crate::viewport::{drawable_width, Extent, Viewport};
use vstd::prelude::*;

verus! {

/// One call into the frame loop, with what it was given.
pub enum Event {
    ResizeRequested { now_ms: u64, window: Extent },
    FrameStarted { now_ms: u64, field_generation: u64, panel_width: u32, layer: SimulationLayer },
    SurfaceRecreated { extent: Extent, image_count: u32 },
    PipelineUpdated { field_generation: u64, panel_width: u32, layer: SimulationLayer },
    FieldRebound { field_generation: u64 },
    ImageAcquired { acquire: AcquireOutcome },
    ImagePresented { present: PresentOutcome },
}

impl RendererState {
    /// The state that one call leaves.
    pub open spec fn after(self, event: Event) -> RendererState {
        match event {
            Event::ResizeRequested { now_ms, window } => self.resize_requested(now_ms, window),
            Event::FrameStarted { now_ms, field_generation, panel_width, layer } => {
                self.frame_started(now_ms, field_generation, panel_width, layer).0
            },
            Event::SurfaceRecreated { extent, image_count } => {
                self.surface_recreated(extent, image_count).0
            },
            Event::PipelineUpdated { field_generation, panel_width, layer } => {
                self.matched(field_generation, panel_width, layer)
            },
            Event::FieldRebound { field_generation } => self.field_rebound(field_generation),
            Event::ImageAcquired { acquire } => self.image_acquired(acquire).0,
            Event::ImagePresented { present } => self.image_presented(present).0,
        }
    }

    /// The state that a run of calls leaves, the first of them made first.
    pub open spec fn after_all(self, events: Seq<Event>) -> RendererState
        decreases events.len(),
    {
        if events.len() == 0 {
            self
        } else {
            self.after_all(events.drop_last()).after(events.last())
        }
    }
}

/// The window size that the latest resize signal of a run carried, or
/// `window` if the run has none.
pub open spec fn latest_window(window: Extent, events: Seq<Event>) -> Extent
    decreases events.len(),
{
    if events.len() == 0 {
        window
    } else {
        match events.last() {
            Event::ResizeRequested { window: latest, .. } => latest,
            _ => latest_window(window, events.drop_last()),
        }
    }
}

/// No call breaks the consistency of the state.
pub proof fn law_call_keeps_consistency(state: RendererState, event: Event)
    requires
        state.wf(),
    ensures
        state.after(event).wf(),
{
}

/// The state is consistent after every run of calls: whatever the order of
/// resize signals, ticks and device answers, the framebuffers wrap the
/// current surface's images, the viewport is the one computed for the current
/// surface and panel, and an image in flight belongs to the current surface.
pub proof fn law_run_keeps_consistency(state: RendererState, events: Seq<Event>)
    requires
        state.wf(),
    ensures
        state.after_all(events).wf(),
    decreases events.len(),
{
    if events.len() > 0 {
        law_run_keeps_consistency(state, events.drop_last());
        law_call_keeps_consistency(state.after_all(events.drop_last()), events.last());
    }
}

/// The window size on record is the one that the latest resize signal carried.
pub proof fn law_window_is_latest(state: RendererState, events: Seq<Event>)
    ensures
        state.after_all(events).window == latest_window(state.window, events),
    decreases events.len(),
{
    if events.len() > 0 {
        law_window_is_latest(state, events.drop_last());
    }
}

/// After any run of calls, a tick that renders with no resize pending draws
/// into the region computed from the latest window size and the panel width
/// given to that tick: offset `(panel, 0)`, extent `(max(w - panel, panel), h)`.
pub proof fn law_settled_viewport_is_current(
    state: RendererState,
    events: Seq<Event>,
    now_ms: u64,
    field_generation: u64,
    panel_width: u32,
    layer: SimulationLayer,
)
    requires
        state.wf(),
    ensures
        ({
            let window = latest_window(state.window, events);
            let (ticked, start) = state.after_all(events).frame_started(
                now_ms,
                field_generation,
                panel_width,
                layer,
            );
            start is Render && ticked.settled() ==> {
                &&& ticked.pipeline.viewport == Viewport::spec_for_window(window, panel_width)
                &&& ticked.pipeline.viewport.offset_x == panel_width
                &&& ticked.pipeline.viewport.offset_y == 0
                &&& ticked.pipeline.viewport.width == drawable_width(
                    window.width as int,
                    panel_width as int,
                )
                &&& ticked.pipeline.viewport.height == window.height
            }
        }),
{
    law_run_keeps_consistency(state, events);
    law_window_is_latest(state, events);
    Viewport::lemma_drawable_width(latest_window(state.window, events).width, panel_width);
}

/// After any run of calls, rebuilding the pipeline takes the viewport from
/// the window's latest size and the panel's width, whether or not a resize is
/// still pending: offset `(panel, 0)`, extent `(max(w - panel, panel), h)`.
/// Nothing of the earlier viewport survives.
pub proof fn law_pipeline_update_uses_latest_window(
    state: RendererState,
    events: Seq<Event>,
    field_generation: u64,
    panel_width: u32,
    layer: SimulationLayer,
)
    ensures
        ({
            let window = latest_window(state.window, events);
            let updated = state.after_all(events).matched(field_generation, panel_width, layer);
            &&& updated.pipeline.viewport == Viewport::spec_for_window(window, panel_width)
            &&& updated.pipeline.viewport.offset_x == panel_width
            &&& updated.pipeline.viewport.offset_y == 0
            &&& updated.pipeline.viewport.width == drawable_width(
                window.width as int,
                panel_width as int,
            )
            &&& updated.pipeline.viewport.height == window.height
        }),
{
    law_window_is_latest(state, events);
    Viewport::lemma_drawable_width(latest_window(state.window, events).width, panel_width);
}

/// A tick whose acquire is answered with `Invalidated` draws nothing, counts
/// no frame and leaves no image to present: a present reported afterwards is
/// not counted either. The surface is marked for rebuilding.
pub proof fn law_invalidated_acquire_ends_tick(
    state: RendererState,
    now_ms: u64,
    field_generation: u64,
    panel_width: u32,
    layer: SimulationLayer,
    present: PresentOutcome,
)
    requires
        state.wf(),
    ensures
        ({
            let (opened, start) = state.frame_started(now_ms, field_generation, panel_width, layer);
            let (answered, step) = opened.image_acquired(AcquireOutcome::Invalidated);
            let (closed, end) = answered.image_presented(present);
            &&& step is Skip
            &&& answered.in_flight is None
            &&& answered.frames == state.frames
            &&& start is Render ==> answered.surface.state is PendingRecreate
            &&& !end.completed
            &&& !end.reveal_window
            &&& closed == answered
        }),
{
}

/// The frame counter moves only when an acquired image is presented, and then by one.
pub proof fn law_frames_count_presents(state: RendererState, event: Event)
    ensures
        state.after(event).frames != state.frames ==> event is ImagePresented && state.in_flight
            is Some && state.after(event).frames == state.frames + 1,
{
}

/// Two resize signals less than the debounce time apart lead to one rebuild
/// of the surface, at the size of the second. No tick between them or within
/// the debounce time after the second orders a rebuild, whatever the device
/// answers meanwhile. The first tick after that orders one. Once it is
/// reported, the loop is settled at the new size and orders no other.
pub proof fn law_resize_burst_recreates_once(
    state: RendererState,
    first_ms: u64,
    first: Extent,
    second_ms: u64,
    second: Extent,
    between_ms: u64,
    early_ms: u64,
    late_ms: u64,
    later_ms: u64,
    acquire_between: AcquireOutcome,
    present_between: PresentOutcome,
    acquire_early: AcquireOutcome,
    present_early: PresentOutcome,
    image_count: u32,
    field_generation: u64,
    panel_width: u32,
    layer: SimulationLayer,
)
    requires
        state.wf(),
        state.surface.state !is Recreating,
        state.surface.generation < u64::MAX,
        !second.spec_is_empty(),
        image_count > 0,
        first_ms <= between_ms <= second_ms <= early_ms <= late_ms,
        second_ms - first_ms < state.debounce_ms,
        early_ms - second_ms < state.debounce_ms,
        late_ms - second_ms >= state.debounce_ms,
    ensures
        ({
            let one = state.resize_requested(first_ms, first);
            let (one_opened, start_between) = one.frame_started(
                between_ms,
                field_generation,
                panel_width,
                layer,
            );
            let one_closed = one_opened.image_acquired(acquire_between).0.image_presented(
                present_between,
            ).0;
            let two = one_closed.resize_requested(second_ms, second);
            let (two_opened, start_early) = two.frame_started(
                early_ms,
                field_generation,
                panel_width,
                layer,
            );
            let two_closed = two_opened.image_acquired(acquire_early).0.image_presented(
                present_early,
            ).0;
            let (ordered, start_late) = two_closed.frame_started(
                late_ms,
                field_generation,
                panel_width,
                layer,
            );
            let (rebuilt, report) = ordered.surface_recreated(second, image_count);
            let (after, start_later) = rebuilt.frame_started(
                later_ms,
                field_generation,
                panel_width,
                layer,
            );
            &&& start_between !is Recreate
            &&& start_early !is Recreate
            &&& start_late == (FrameStart::Recreate {
                extent: second,
                rebuild: RebuildSet::spec_for_trigger(RebuildTrigger::ViewportOffsetChanged),
            })
            &&& !ordered.window_resized
            &&& ordered.pipeline.viewport == Viewport::spec_for_window(second, panel_width)
            &&& report == Ok::<RebuildSet, RendererError>(
                RebuildSet::spec_for_trigger(RebuildTrigger::SurfaceRecreated),
            )
            &&& rebuilt.surface.generation == state.surface.generation + 1
            &&& rebuilt.settled()
            &&& rebuilt.surface.extent == second
            &&& rebuilt.pipeline.viewport == Viewport::spec_for_window(second, panel_width)
            &&& start_later is Render
            &&& after.settled()
        }),
{
}

/// Resize signals do not add up. A second signal leaves what it would have
/// left alone: of the first, neither time nor size survives, and one rebuild
/// answers both. A signal changes the flag, its time and the window's size,
/// and nothing else.
pub proof fn law_resize_signals_do_not_accumulate(
    state: RendererState,
    first_ms: u64,
    first: Extent,
    second_ms: u64,
    second: Extent,
)
    ensures
        state.resize_requested(first_ms, first).resize_requested(second_ms, second)
            == state.resize_requested(second_ms, second),
        state.resize_requested(first_ms, first).resize_requested(first_ms, first)
            == state.resize_requested(first_ms, first),
        state.resize_requested(second_ms, second) == (RendererState {
            window_resized: true,
            last_resize_ms: second_ms,
            window: second,
            ..state
        }),
{
}

/// Rebuilding the surface twice in the same way leaves what the first
/// rebuild left, one generation on. A rebuild changes the surface, the
/// framebuffers' count and generation and the image in flight, and nothing
/// else: the resize flag and the viewport stay as they were.
pub proof fn law_rebuild_is_repeatable(state: RendererState, extent: Extent, image_count: u32)
    requires
        state.wf(),
    ensures
        ({
            let (once, first) = state.surface_recreated(extent, image_count);
            let (twice, second) = once.surface_recreated(extent, image_count);
            &&& once.window_resized == state.window_resized
            &&& once.pipeline.viewport == state.pipeline.viewport
            &&& first is Err ==> once == state
            &&& first is Ok && once.surface.generation < u64::MAX ==> second is Ok
            &&& first is Ok && second is Ok ==> twice == (RendererState {
                surface: once.surface.replaced(extent, image_count),
                pipeline: QuadPipeline {
                    framebuffer_surface: (once.pipeline.framebuffer_surface + 1) as u64,
                    ..once.pipeline
                },
                ..once
            })
        }),
{
}

/// The window stays hidden until an acquired image has been presented with
/// success, and is never hidden again.
pub proof fn law_window_revealed_by_first_present(state: RendererState, event: Event)
    ensures
        state.window_visible ==> state.after(event).window_visible,
        !state.window_visible && state.after(event).window_visible ==> state.in_flight is Some
            && (event matches Event::ImagePresented { present } && present is Presented),
{
}

/// Surfaces are never reused: a run of calls does not lower the surface's generation.
pub proof fn law_generation_never_falls(state: RendererState, events: Seq<Event>)
    ensures
        state.after_all(events).surface.generation >= state.surface.generation,
    decreases events.len(),
{
    if events.len() > 0 {
        law_generation_never_falls(state, events.drop_last());
    }
}

/// A draw batch names the surface generation that was current when it was
/// issued. Whatever happens afterwards, a later rebuild of the surface builds
/// its framebuffers for a generation that no earlier batch names, so a batch
/// still on the device cannot touch them.
pub proof fn law_batches_never_name_later_surfaces(
    state: RendererState,
    outcome: AcquireOutcome,
    events: Seq<Event>,
    extent: Extent,
    image_count: u32,
)
    requires
        state.wf(),
    ensures
        ({
            let (issued, step) = state.image_acquired(outcome);
            let (rebuilt, report) = issued.after_all(events).surface_recreated(
                extent,
                image_count,
            );
            report is Ok ==> (step matches FrameStep::Draw { batch } ==> {
                &&& batch.surface_generation == state.pipeline.framebuffer_surface
                &&& batch.surface_generation < rebuilt.pipeline.framebuffer_surface
                &&& rebuilt.pipeline.framebuffer_surface == rebuilt.surface.generation
            })
        }),
{
    law_generation_never_falls(state.image_acquired(outcome).0, events);
}

} // verus!
