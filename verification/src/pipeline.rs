//! The resources that draw the field into a surface image, what invalidates
//! them, and the commands of one draw.

use crate::layer::SimulationLayer;
use crate::viewport::Viewport;
use vstd::prelude::*;

verus! {

/// Vertices of the full-screen quad: two triangles.
pub const QUAD_VERTEX_COUNT: u32 = 6;

/// An event after which some draw resources no longer match what they were built from.
#[derive(Clone, Copy, Debug, PartialEq, Eq)]
pub enum RebuildTrigger {
    /// The surface was replaced by a new chain of images.
    SurfaceRecreated,
    /// The field store was replaced by one of another resolution.
    FieldReplaced,
    /// The drawable region moved, as when the side panel changes width.
    ViewportOffsetChanged,
}

/// Which draw resources are to be built anew. Each is rebuilt whole.
#[derive(Clone, Copy, Debug, PartialEq, Eq)]
pub struct RebuildSet {
    /// One framebuffer per surface image.
    pub framebuffers: bool,
    pub viewport: bool,
    /// Shaders, layout and fixed-function state, the viewport among it.
    pub pipeline: bool,
    /// The table that binds the field's view and sampler to the pipeline.
    pub binding_set: bool,
    /// Recorded command batches that name any of the above.
    pub command_batches: bool,
}

impl RebuildSet {
    pub open spec fn spec_none() -> RebuildSet {
        RebuildSet {
            framebuffers: false,
            viewport: false,
            pipeline: false,
            binding_set: false,
            command_batches: false,
        }
    }

    /// What one trigger invalidates.
    pub open spec fn spec_for_trigger(trigger: RebuildTrigger) -> RebuildSet {
        match trigger {
            RebuildTrigger::SurfaceRecreated => RebuildSet {
                framebuffers: true,
                viewport: true,
                pipeline: false,
                binding_set: false,
                command_batches: false,
            },
            RebuildTrigger::FieldReplaced => RebuildSet {
                framebuffers: false,
                viewport: false,
                pipeline: false,
                binding_set: true,
                command_batches: false,
            },
            RebuildTrigger::ViewportOffsetChanged => RebuildSet {
                framebuffers: false,
                viewport: true,
                pipeline: true,
                binding_set: true,
                command_batches: true,
            },
        }
    }

    /// Everything that either set names.
    pub open spec fn spec_union(self, other: RebuildSet) -> RebuildSet {
        RebuildSet {
            framebuffers: self.framebuffers || other.framebuffers,
            viewport: self.viewport || other.viewport,
            pipeline: self.pipeline || other.pipeline,
            binding_set: self.binding_set || other.binding_set,
            command_batches: self.command_batches || other.command_batches,
        }
    }

    /// `trigger`'s set if it fired, nothing otherwise.
    pub open spec fn spec_when(fired: bool, trigger: RebuildTrigger) -> RebuildSet {
        if fired {
            Self::spec_for_trigger(trigger)
        } else {
            Self::spec_none()
        }
    }

    pub open spec fn spec_is_none(self) -> bool {
        self == Self::spec_none()
    }

    #[verifier::when_used_as_spec(spec_none)]
    pub fn none() -> (set: RebuildSet)
        ensures
            set == Self::spec_none(),
    {
        RebuildSet {
            framebuffers: false,
            viewport: false,
            pipeline: false,
            binding_set: false,
            command_batches: false,
        }
    }

    #[verifier::when_used_as_spec(spec_for_trigger)]
    pub fn for_trigger(trigger: RebuildTrigger) -> (set: RebuildSet)
        ensures
            set == Self::spec_for_trigger(trigger),
    {
        match trigger {
            RebuildTrigger::SurfaceRecreated => RebuildSet {
                framebuffers: true,
                viewport: true,
                pipeline: false,
                binding_set: false,
                command_batches: false,
            },
            RebuildTrigger::FieldReplaced => RebuildSet {
                framebuffers: false,
                viewport: false,
                pipeline: false,
                binding_set: true,
                command_batches: false,
            },
            RebuildTrigger::ViewportOffsetChanged => RebuildSet {
                framebuffers: false,
                viewport: true,
                pipeline: true,
                binding_set: true,
                command_batches: true,
            },
        }
    }

    #[verifier::when_used_as_spec(spec_union)]
    pub fn union(self, other: RebuildSet) -> (set: RebuildSet)
        ensures
            set == self.spec_union(other),
    {
        RebuildSet {
            framebuffers: self.framebuffers || other.framebuffers,
            viewport: self.viewport || other.viewport,
            pipeline: self.pipeline || other.pipeline,
            binding_set: self.binding_set || other.binding_set,
            command_batches: self.command_batches || other.command_batches,
        }
    }

    #[verifier::when_used_as_spec(spec_when)]
    pub fn when(fired: bool, trigger: RebuildTrigger) -> (set: RebuildSet)
        ensures
            set == Self::spec_when(fired, trigger),
    {
        if fired {
            Self::for_trigger(trigger)
        } else {
            Self::none()
        }
    }

    #[verifier::when_used_as_spec(spec_is_none)]
    pub fn is_none(self) -> (nothing: bool)
        ensures
            nothing == self.spec_is_none(),
    {
        !self.framebuffers && !self.viewport && !self.pipeline && !self.binding_set
            && !self.command_batches
    }
}

/// What the draw resources were built from.
#[derive(Clone, Copy, Debug, PartialEq, Eq)]
pub struct QuadPipeline {
    /// The viewport in the pipeline's fixed-function state.
    pub viewport: Viewport,
    pub framebuffers: u32,
    /// Generation of the surface whose images the framebuffers wrap.
    pub framebuffer_surface: u64,
    /// Generation of the field whose view and sampler the binding set names.
    pub bound_field: u64,
    /// The layer that the next draw pushes.
    pub visible_layer: SimulationLayer,
}

/// One command of a draw batch.
#[derive(Clone, Copy, Debug, PartialEq, Eq)]
pub enum DrawCommand {
    BeginPass { framebuffer: u32 },
    BindPipeline,
    PushVisibleLayer { layer: SimulationLayer },
    BindFieldSet { field_generation: u64 },
    BindQuad,
    Draw { vertices: u32, instances: u32 },
    EndPass,
}

/// One draw of the field into one surface image, with the generations of the
/// resources that it names.
#[derive(Clone, Copy, Debug, PartialEq, Eq)]
pub struct DrawBatch {
    pub image_index: u32,
    pub surface_generation: u64,
    pub field_generation: u64,
    pub viewport: Viewport,
    pub visible_layer: SimulationLayer,
}

impl DrawBatch {
    /// The batch's commands: one pass over the image's framebuffer that draws
    /// the quad once, without indices, with the field bound as a texture.
    pub open spec fn spec_commands(&self) -> Seq<DrawCommand> {
        seq![
            DrawCommand::BeginPass { framebuffer: self.image_index },
            DrawCommand::BindPipeline,
            DrawCommand::PushVisibleLayer { layer: self.visible_layer },
            DrawCommand::BindFieldSet { field_generation: self.field_generation },
            DrawCommand::BindQuad,
            DrawCommand::Draw { vertices: QUAD_VERTEX_COUNT, instances: 1 },
            DrawCommand::EndPass,
        ]
    }

    pub fn commands(&self) -> (list: Vec<DrawCommand>)
        ensures
            list@ == self.spec_commands(),
    {
        let mut list: Vec<DrawCommand> = Vec::new();
        list.push(DrawCommand::BeginPass { framebuffer: self.image_index });
        list.push(DrawCommand::BindPipeline);
        list.push(DrawCommand::PushVisibleLayer { layer: self.visible_layer });
        list.push(DrawCommand::BindFieldSet { field_generation: self.field_generation });
        list.push(DrawCommand::BindQuad);
        list.push(DrawCommand::Draw { vertices: QUAD_VERTEX_COUNT, instances: 1 });
        list.push(DrawCommand::EndPass);
        list
    }
}

/// A corner of the quad. Positions are in clip space, where the screen spans
/// -1 to 1; texture coordinates span 0 to 1.
#[derive(Clone, Copy, Debug, PartialEq, Eq)]
pub struct QuadVertex {
    pub x: i32,
    pub y: i32,
    pub u: u32,
    pub v: u32,
}

/// The quad as two triangles that share the diagonal from the first corner to
/// the opposite one.
pub open spec fn quad() -> Seq<QuadVertex> {
    seq![
        QuadVertex { x: -1i32, y: -1i32, u: 0, v: 0 },
        QuadVertex { x: -1i32, y: 1, u: 0, v: 1 },
        QuadVertex { x: 1, y: 1, u: 1, v: 1 },
        QuadVertex { x: -1i32, y: -1i32, u: 0, v: 0 },
        QuadVertex { x: 1, y: 1, u: 1, v: 1 },
        QuadVertex { x: 1, y: -1i32, u: 1, v: 0 },
    ]
}

/// Some vertex lies at `(x, y)`.
pub open spec fn has_corner(vertices: Seq<QuadVertex>, x: int, y: int) -> bool {
    exists|i: int|
        0 <= i < vertices.len() && (#[trigger] vertices[i]).x == x && vertices[i].y == y
}

/// Every screen corner is a vertex of the quad.
pub open spec fn covers_screen(vertices: Seq<QuadVertex>) -> bool {
    &&& has_corner(vertices, -1, -1)
    &&& has_corner(vertices, -1, 1)
    &&& has_corner(vertices, 1, 1)
    &&& has_corner(vertices, 1, -1)
}

/// Every vertex lies on a screen corner and carries that corner's texture coordinate.
pub open spec fn maps_texture_to_screen(vertices: Seq<QuadVertex>) -> bool {
    forall|i: int|
        0 <= i < vertices.len() ==> {
            let vertex = #[trigger] vertices[i];
            &&& (vertex.x == -1 || vertex.x == 1)
            &&& (vertex.y == -1 || vertex.y == 1)
            &&& 2 * vertex.u == vertex.x + 1
            &&& 2 * vertex.v == vertex.y + 1
        }
}

pub fn quad_vertices() -> (vertices: Vec<QuadVertex>)
    ensures
        vertices@ == quad(),
        vertices@.len() == QUAD_VERTEX_COUNT,
        covers_screen(vertices@),
        maps_texture_to_screen(vertices@),
{
    let mut vertices: Vec<QuadVertex> = Vec::new();
    vertices.push(QuadVertex { x: -1, y: -1, u: 0, v: 0 });
    vertices.push(QuadVertex { x: -1, y: 1, u: 0, v: 1 });
    vertices.push(QuadVertex { x: 1, y: 1, u: 1, v: 1 });
    vertices.push(QuadVertex { x: -1, y: -1, u: 0, v: 0 });
    vertices.push(QuadVertex { x: 1, y: 1, u: 1, v: 1 });
    vertices.push(QuadVertex { x: 1, y: -1, u: 1, v: 0 });
    proof {
        assert(vertices@ =~= quad());
        assert(vertices@[0].x == -1 && vertices@[0].y == -1);
        assert(vertices@[1].x == -1 && vertices@[1].y == 1);
        assert(vertices@[2].x == 1 && vertices@[2].y == 1);
        assert(vertices@[5].x == 1 && vertices@[5].y == -1);
    }
    vertices
}

} // verus!
