//! The parameter block that the panel edits and the kernel reads.
//!
//! Quantities that the kernel takes as fractions are held here as whole
//! millionths, so that the block stays exact and comparable.

use crate::layer::{BoundaryCondition, SimulationLayer};
use vstd::prelude::*;

verus! {

/// Width of the side panel, in pixels.
pub const DEFAULT_GUI_WIDTH: u32 = 300;

/// Time step on start-up, in millionths.
pub const DEFAULT_TIME_STEP_MICROS: u32 = 10_000;

/// Largest time step that the panel offers, in millionths.
pub const MAX_TIME_STEP_MICROS: u32 = 60_000;

/// Propagation speed on start-up, in millionths.
pub const DEFAULT_SPEED_MICROS: u32 = 1_000_000;

pub const MIN_BRUSH_RADIUS: i32 = 1;

pub const MAX_BRUSH_RADIUS: i32 = 8;

pub const DEFAULT_BRUSH_RADIUS: i32 = 2;

pub const MIN_BRUSH_VALUE: i32 = 1;

pub const MAX_BRUSH_VALUE: i32 = 10;

pub const DEFAULT_BRUSH_VALUE: i32 = 2;

/// `value` moved to the nearest point of `low..=high`.
pub open spec fn clamped(value: int, low: int, high: int) -> int {
    if value < low {
        low
    } else if value > high {
        high
    } else {
        value
    }
}

/// The block copied by value into one dispatch of the kernel.
#[derive(Clone, Copy, Debug, PartialEq, Eq)]
pub struct SimulationParameters {
    pub time_step_micros: u32,
    pub speed_micros: u32,
    pub rotation_microradians: i32,
    pub brush_x: i32,
    pub brush_y: i32,
    /// Zero while the brush is off.
    pub brush_enabled: i32,
    pub brush_radius: i32,
    pub brush_value: i32,
    pub brush_layer: SimulationLayer,
    pub boundary_condition: BoundaryCondition,
    pub active_stage: u32,
}

impl SimulationParameters {
    /// The same block, addressed to another stage of the update.
    pub open spec fn spec_at_stage(self, stage: u32) -> SimulationParameters {
        SimulationParameters { active_stage: stage, ..self }
    }

    #[verifier::when_used_as_spec(spec_at_stage)]
    pub fn at_stage(self, stage: u32) -> (block: SimulationParameters)
        ensures
            block == self.spec_at_stage(stage),
    {
        SimulationParameters { active_stage: stage, ..self }
    }
}

/// What the panel's widgets hold after one pass over them.
#[derive(Clone, Copy, Debug, PartialEq, Eq)]
pub struct GuiInput {
    pub time_step_micros: u32,
    pub brush_radius: i32,
    pub brush_value: i32,
    pub visible_layer: SimulationLayer,
    pub brush_layer: SimulationLayer,
    /// The reset button was pressed during this pass.
    pub reset_grid: bool,
}

/// What the rest of the frame has to do after a pass over the panel.
#[derive(Clone, Copy, Debug, PartialEq, Eq)]
pub struct GuiOutcome {
    /// The field is to be cleared before the next update.
    pub reset_grid: bool,
    /// The next draw pushes another layer; no resource is rebuilt for it.
    pub visible_layer_changed: bool,
}

/// Everything the user controls.
#[derive(Clone, Copy, Debug, PartialEq, Eq)]
pub struct UIState {
    pub gui_width: u32,
    pub time_step_micros: u32,
    pub speed_micros: u32,
    pub rotation_microradians: i32,
    pub brush_x: i32,
    pub brush_y: i32,
    /// Zero while the brush is off.
    pub brush_enabled: i32,
    pub brush_radius: i32,
    pub brush_value: i32,
    pub visible_layer: SimulationLayer,
    pub brush_layer: SimulationLayer,
    pub boundary_condition: BoundaryCondition,
}

impl UIState {
    /// The state on start-up.
    pub open spec fn initial() -> UIState {
        UIState {
            gui_width: DEFAULT_GUI_WIDTH,
            time_step_micros: DEFAULT_TIME_STEP_MICROS,
            speed_micros: DEFAULT_SPEED_MICROS,
            rotation_microradians: 0,
            brush_x: 0,
            brush_y: 0,
            brush_enabled: 0,
            brush_radius: DEFAULT_BRUSH_RADIUS,
            brush_value: DEFAULT_BRUSH_VALUE,
            visible_layer: SimulationLayer::Probability,
            brush_layer: SimulationLayer::Real,
            boundary_condition: BoundaryCondition::Periodic,
        }
    }

    /// Every value lies within what the panel offers.
    pub open spec fn within_panel_ranges(self) -> bool {
        &&& self.time_step_micros <= MAX_TIME_STEP_MICROS
        &&& MIN_BRUSH_RADIUS <= self.brush_radius <= MAX_BRUSH_RADIUS
        &&& MIN_BRUSH_VALUE <= self.brush_value <= MAX_BRUSH_VALUE
        &&& self.visible_layer.spec_is_displayable()
        &&& self.brush_layer.spec_is_paintable()
    }

    /// The block that the next update dispatches, addressed to its first stage.
    pub open spec fn spec_parameters(&self) -> SimulationParameters {
        SimulationParameters {
            time_step_micros: self.time_step_micros,
            speed_micros: self.speed_micros,
            rotation_microradians: self.rotation_microradians,
            brush_x: self.brush_x,
            brush_y: self.brush_y,
            brush_enabled: self.brush_enabled,
            brush_radius: self.brush_radius,
            brush_value: self.brush_value,
            brush_layer: self.brush_layer,
            boundary_condition: self.boundary_condition,
            active_stage: 0,
        }
    }

    /// The state after the widgets' values are taken over: sliders stop at
    /// their ends, and a layer that a selector does not offer is not selected.
    pub open spec fn after_gui(self, input: GuiInput) -> UIState {
        UIState {
            time_step_micros: if input.time_step_micros > MAX_TIME_STEP_MICROS {
                MAX_TIME_STEP_MICROS
            } else {
                input.time_step_micros
            },
            brush_radius: clamped(
                input.brush_radius as int,
                MIN_BRUSH_RADIUS as int,
                MAX_BRUSH_RADIUS as int,
            ) as i32,
            brush_value: clamped(
                input.brush_value as int,
                MIN_BRUSH_VALUE as int,
                MAX_BRUSH_VALUE as int,
            ) as i32,
            visible_layer: if input.visible_layer.spec_is_displayable() {
                input.visible_layer
            } else {
                self.visible_layer
            },
            brush_layer: if input.brush_layer.spec_is_paintable() {
                input.brush_layer
            } else {
                self.brush_layer
            },
            ..self
        }
    }

    pub fn new() -> (state: UIState)
        ensures
            state == Self::initial(),
            state.within_panel_ranges(),
    {
        UIState {
            gui_width: DEFAULT_GUI_WIDTH,
            time_step_micros: DEFAULT_TIME_STEP_MICROS,
            speed_micros: DEFAULT_SPEED_MICROS,
            rotation_microradians: 0,
            brush_x: 0,
            brush_y: 0,
            brush_enabled: 0,
            brush_radius: DEFAULT_BRUSH_RADIUS,
            brush_value: DEFAULT_BRUSH_VALUE,
            visible_layer: SimulationLayer::Probability,
            brush_layer: SimulationLayer::Real,
            boundary_condition: BoundaryCondition::Periodic,
        }
    }

    #[verifier::when_used_as_spec(spec_parameters)]
    pub fn parameters(&self) -> (block: SimulationParameters)
        ensures
            block == self.spec_parameters(),
    {
        SimulationParameters {
            time_step_micros: self.time_step_micros,
            speed_micros: self.speed_micros,
            rotation_microradians: self.rotation_microradians,
            brush_x: self.brush_x,
            brush_y: self.brush_y,
            brush_enabled: self.brush_enabled,
            brush_radius: self.brush_radius,
            brush_value: self.brush_value,
            brush_layer: self.brush_layer,
            boundary_condition: self.boundary_condition,
            active_stage: 0,
        }
    }

    /// Takes over what the panel's widgets hold and says what follows from it.
    pub fn setup_gui(&mut self, input: GuiInput) -> (outcome: GuiOutcome)
        ensures
            *final(self) == old(self).after_gui(input),
            outcome.reset_grid == input.reset_grid,
            outcome.visible_layer_changed == (final(self).visible_layer != old(self).visible_layer),
            old(self).within_panel_ranges() ==> final(self).within_panel_ranges(),
    {
        let previous = self.visible_layer;
        self.time_step_micros = if input.time_step_micros > MAX_TIME_STEP_MICROS {
            MAX_TIME_STEP_MICROS
        } else {
            input.time_step_micros
        };
        self.brush_radius = clamp(input.brush_radius, MIN_BRUSH_RADIUS, MAX_BRUSH_RADIUS);
        self.brush_value = clamp(input.brush_value, MIN_BRUSH_VALUE, MAX_BRUSH_VALUE);
        if input.visible_layer.is_displayable() {
            self.visible_layer = input.visible_layer;
        }
        if input.brush_layer.is_paintable() {
            self.brush_layer = input.brush_layer;
        }
        GuiOutcome {
            reset_grid: input.reset_grid,
            visible_layer_changed: self.visible_layer != previous,
        }
    }
}

fn clamp(value: i32, low: i32, high: i32) -> (result: i32)
    requires
        low <= high,
    ensures
        result == clamped(value as int, low as int, high as int),
{
    if value < low {
        low
    } else if value > high {
        high
    } else {
        value
    }
}

} // verus!
