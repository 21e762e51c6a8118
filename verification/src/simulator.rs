//! The field store and the staged update that runs over it.
//!
//! The field lives in one storage texture with a view and a sampler. The three
//! are built together, never resized in place, and told apart by a generation
//! number: whatever was built against an earlier generation is stale. Updates
//! are planned here as a list of commands; the caller executes them in order.

use crate::ui_state::{SimulationParameters, UIState};
use vstd::prelude::*;

verus! {

/// Edge length of the field on start-up, in cells.
pub const DEFAULT_FIELD_SIZE: u32 = 1024;

/// Shape and identity of the texture behind the field.
#[derive(Clone, Copy, Debug, PartialEq, Eq)]
pub struct FieldState {
    pub width: u32,
    pub height: u32,
    /// Counts the textures built so far; a view or sampler belongs to one of them.
    pub generation: u64,
}

/// One step of device work on the field.
#[derive(Clone, Copy, Debug, PartialEq, Eq)]
pub enum FieldCommand {
    /// Build texture, view and sampler of a new generation at this size.
    Allocate { width: u32, height: u32, generation: u64 },
    /// Write zero to every cell.
    Clear { generation: u64 },
    /// Run the kernel once over `width` by `height` cells with `params`.
    Dispatch { width: u32, height: u32, generation: u64, params: SimulationParameters },
    /// Submit what precedes and block until the device has finished it.
    Wait,
}

#[derive(Clone, Copy, Debug, PartialEq, Eq)]
pub enum FieldError {
    /// A side of the requested field has no cells.
    ZeroExtent,
    /// The generation counter cannot name another texture.
    GenerationExhausted,
}

impl FieldState {
    /// The texture has cells along both sides.
    pub open spec fn wf(self) -> bool {
        self.width > 0 && self.height > 0
    }

    /// The two stages of one update. Both run over the whole field on the same
    /// texture, the second reading what the first wrote, so each is submitted
    /// alone and waited for.
    pub open spec fn update_schedule(self, params: SimulationParameters) -> Seq<FieldCommand> {
        seq![
            FieldCommand::Dispatch {
                width: self.width,
                height: self.height,
                generation: self.generation,
                params: params.spec_at_stage(0),
            },
            FieldCommand::Wait,
            FieldCommand::Dispatch {
                width: self.width,
                height: self.height,
                generation: self.generation,
                params: params.spec_at_stage(1),
            },
            FieldCommand::Wait,
        ]
    }

    /// Zeroing the field, finished before anything else may touch it.
    pub open spec fn clear_schedule(self) -> Seq<FieldCommand> {
        seq![FieldCommand::Clear { generation: self.generation }, FieldCommand::Wait]
    }

    /// Building this texture and zeroing it.
    pub open spec fn allocate_schedule(self) -> Seq<FieldCommand> {
        seq![
            FieldCommand::Allocate {
                width: self.width,
                height: self.height,
                generation: self.generation,
            },
            FieldCommand::Clear { generation: self.generation },
            FieldCommand::Wait,
        ]
    }

    /// What a resize request is answered with, and the field it leaves.
    pub open spec fn resized(self, width: u32, height: u32) -> Result<FieldState, FieldError> {
        if width == 0 || height == 0 {
            Err(FieldError::ZeroExtent)
        } else if self.generation == u64::MAX {
            Err(FieldError::GenerationExhausted)
        } else {
            Ok(FieldState { width, height, generation: (self.generation + 1) as u64 })
        }
    }
}

/// What the field holds, as far as it is known: the parameter blocks of the
/// dispatches run on it since it was last all zero.
pub type Content = Option<Seq<SimulationParameters>>;

/// The content after one update with `params` on `before`.
pub open spec fn content_after_update(before: Content, params: SimulationParameters) -> Content {
    match before {
        Some(applied) => Some(applied.push(params.spec_at_stage(0)).push(params.spec_at_stage(1))),
        None => None,
    }
}

/// A clear followed by one update leaves the field holding that update's two
/// stages and nothing else, whatever it held before; a second update with the
/// same block adds the same two stages again.
pub proof fn law_clear_then_update_forgets_history(before: Content, params: SimulationParameters)
    ensures
        ({
            let cleared: Content = Some(Seq::empty());
            let once = content_after_update(cleared, params);
            let twice = content_after_update(once, params);
            &&& once == Some(seq![params.spec_at_stage(0), params.spec_at_stage(1)])
            &&& twice == Some(
                seq![
                    params.spec_at_stage(0),
                    params.spec_at_stage(1),
                    params.spec_at_stage(0),
                    params.spec_at_stage(1),
                ],
            )
            &&& before is Some ==> content_after_update(before, params) is Some
        }),
{
    let cleared: Content = Some(Seq::empty());
    let once = content_after_update(cleared, params);
    assert(once->0 =~= seq![params.spec_at_stage(0), params.spec_at_stage(1)]);
    assert(content_after_update(once, params)->0 =~= seq![
        params.spec_at_stage(0),
        params.spec_at_stage(1),
        params.spec_at_stage(0),
        params.spec_at_stage(1),
    ]);
}

/// Within one update the stage-1 dispatch comes after the stage-0 dispatch
/// has been waited for, and both cover the whole field.
pub proof fn law_update_stages_are_ordered(field: FieldState, params: SimulationParameters)
    ensures
        ({
            let plan = field.update_schedule(params);
            &&& plan.len() == 4
            &&& plan[0] == (FieldCommand::Dispatch {
                width: field.width,
                height: field.height,
                generation: field.generation,
                params: params.spec_at_stage(0),
            })
            &&& plan[1] == FieldCommand::Wait
            &&& plan[2] == (FieldCommand::Dispatch {
                width: field.width,
                height: field.height,
                generation: field.generation,
                params: params.spec_at_stage(1),
            })
            &&& plan[3] == FieldCommand::Wait
        }),
{
}

/// Owner of the field store and planner of the work on it.
pub struct Simulator {
    field: FieldState,
    content: Ghost<Content>,
}

impl View for Simulator {
    type V = FieldState;

    closed spec fn view(&self) -> FieldState {
        self.field
    }
}

impl Simulator {
    /// The field has cells at all times.
    #[verifier::type_invariant]
    pub open spec fn inv(&self) -> bool {
        self@.wf()
    }

    /// `None` while the texture holds what the allocator left in it; after a
    /// clear, the blocks dispatched since, oldest first.
    pub closed spec fn content(&self) -> Content {
        self.content@
    }

    /// The field on start-up.
    pub open spec fn initial_field() -> FieldState {
        FieldState { width: DEFAULT_FIELD_SIZE, height: DEFAULT_FIELD_SIZE, generation: 0 }
    }

    /// A field of the default size. Nothing has been written to it yet.
    pub fn new() -> (simulator: Simulator)
        ensures
            simulator@ == Self::initial_field(),
            simulator@.wf(),
            simulator.content() is None,
    {
        Simulator {
            field: FieldState {
                width: DEFAULT_FIELD_SIZE,
                height: DEFAULT_FIELD_SIZE,
                generation: 0,
            },
            content: Ghost(None),
        }
    }

    /// A field of the given size, refused if a side has no cells.
    pub fn with_size(width: u32, height: u32) -> (made: Result<Simulator, FieldError>)
        ensures
            width == 0 || height == 0 <==> made is Err,
            made matches Err(e) ==> e == FieldError::ZeroExtent,
            made matches Ok(simulator) ==> simulator@ == (FieldState { width, height, generation: 0 })
                && simulator.content() is None,
    {
        if width == 0 || height == 0 {
            Err(FieldError::ZeroExtent)
        } else {
            Ok(Simulator { field: FieldState { width, height, generation: 0 }, content: Ghost(None) })
        }
    }

    /// Resumes with a field built earlier, if it has cells. Nothing is
    /// claimed of what it holds.
    pub fn from_field(field: FieldState) -> (made: Option<Simulator>)
        ensures
            made is Some <==> field.wf(),
            made matches Some(simulator) ==> simulator@ == field && simulator.content() is None,
    {
        if field.width > 0 && field.height > 0 {
            Some(Simulator { field, content: Ghost(None) })
        } else {
            None
        }
    }

    /// A second handle on the same field, for an owner that replaces its
    /// parts as a whole.
    pub(crate) fn duplicate(&self) -> (copy: Simulator)
        ensures
            copy@ == self@,
            copy.content() == self.content(),
    {
        proof {
            use_type_invariant(self);
        }
        Simulator { field: self.field, content: self.content }
    }

    /// Shape and generation of the current texture.
    pub fn field(&self) -> (field: FieldState)
        ensures
            field == self@,
            field.wf(),
    {
        proof {
            use_type_invariant(self);
        }
        self.field
    }

    pub fn width(&self) -> (width: u32)
        ensures
            width == self@.width,
            width > 0,
    {
        proof {
            use_type_invariant(self);
        }
        self.field.width
    }

    pub fn height(&self) -> (height: u32)
        ensures
            height == self@.height,
            height > 0,
    {
        proof {
            use_type_invariant(self);
        }
        self.field.height
    }

    pub fn generation(&self) -> (generation: u64)
        ensures
            generation == self@.generation,
    {
        self.field.generation
    }

    /// Replaces the field by a zeroed one of another size. The old texture is
    /// not touched: the plan builds a new generation. A size without cells is
    /// refused and leaves everything as it was.
    pub fn resize(&mut self, width: u32, height: u32) -> (plan: Result<Vec<FieldCommand>, FieldError>)
        ensures
            old(self)@.wf(),
            final(self)@.wf(),
            width == 0 || height == 0 ==> plan == Err::<Vec<FieldCommand>, FieldError>(
                FieldError::ZeroExtent,
            ) && final(self)@ == old(self)@,
            match old(self)@.resized(width, height) {
                Ok(field) => {
                    &&& final(self)@ == field
                    &&& final(self).content() == Some(Seq::<SimulationParameters>::empty())
                    &&& plan matches Ok(commands)
                    &&& commands@ == field.allocate_schedule()
                },
                Err(e) => {
                    &&& final(self)@ == old(self)@
                    &&& final(self).content() == old(self).content()
                    &&& plan == Err::<Vec<FieldCommand>, FieldError>(e)
                },
            },
    {
        proof {
            use_type_invariant(&*self);
        }
        if width == 0 || height == 0 {
            return Err(FieldError::ZeroExtent);
        }
        if self.field.generation == u64::MAX {
            return Err(FieldError::GenerationExhausted);
        }
        let generation: u64 = self.field.generation + 1;
        self.field = FieldState { width, height, generation };
        proof {
            self.content@ = Some(Seq::empty());
        }
        let mut commands: Vec<FieldCommand> = Vec::new();
        commands.push(FieldCommand::Allocate { width, height, generation });
        commands.push(FieldCommand::Clear { generation });
        commands.push(FieldCommand::Wait);
        Ok(commands)
    }

    /// Plans the zeroing of the whole field.
    pub fn clear(&mut self) -> (plan: Vec<FieldCommand>)
        ensures
            final(self)@ == old(self)@,
            final(self).content() == Some(Seq::<SimulationParameters>::empty()),
            plan@ == old(self)@.clear_schedule(),
    {
        proof {
            use_type_invariant(&*self);
            self.content@ = Some(Seq::empty());
        }
        let mut commands: Vec<FieldCommand> = Vec::new();
        commands.push(FieldCommand::Clear { generation: self.field.generation });
        commands.push(FieldCommand::Wait);
        commands
    }

    /// Plans one update of the field with the user's current parameters: two
    /// dispatches over every cell, the first at stage 0 and the second at
    /// stage 1, each followed by a wait.
    pub fn compute(&mut self, ui_state: &UIState) -> (plan: Vec<FieldCommand>)
        ensures
            final(self)@ == old(self)@,
            final(self).content() == content_after_update(
                old(self).content(),
                ui_state.spec_parameters(),
            ),
            plan@ == old(self)@.update_schedule(ui_state.spec_parameters()),
    {
        proof {
            use_type_invariant(&*self);
        }
        let params = ui_state.parameters();
        let width = self.field.width;
        let height = self.field.height;
        let generation = self.field.generation;
        proof {
            self.content@ = content_after_update(self.content@, params);
        }
        let mut commands: Vec<FieldCommand> = Vec::new();
        commands.push(FieldCommand::Dispatch { width, height, generation, params: params.at_stage(0) });
        commands.push(FieldCommand::Wait);
        commands.push(FieldCommand::Dispatch { width, height, generation, params: params.at_stage(1) });
        commands.push(FieldCommand::Wait);
        commands
    }
}

} // verus!
