use quantum_echoes::layer::SimulationLayer;
use quantum_echoes::pipeline::{
    quad_vertices, DrawBatch, DrawCommand, QuadVertex, RebuildSet, RebuildTrigger,
};
use quantum_echoes::viewport::Viewport;

#[test]
fn surface_recreation_rebuilds_framebuffers_and_viewport() {
    assert_eq!(
        RebuildSet::for_trigger(RebuildTrigger::SurfaceRecreated),
        RebuildSet {
            framebuffers: true,
            viewport: true,
            pipeline: false,
            binding_set: false,
            command_batches: false,
        }
    );
}

#[test]
fn field_replacement_rebuilds_the_binding_set_only() {
    assert_eq!(
        RebuildSet::for_trigger(RebuildTrigger::FieldReplaced),
        RebuildSet {
            framebuffers: false,
            viewport: false,
            pipeline: false,
            binding_set: true,
            command_batches: false,
        }
    );
}

#[test]
fn viewport_offset_change_rebuilds_all_but_the_framebuffers() {
    assert_eq!(
        RebuildSet::for_trigger(RebuildTrigger::ViewportOffsetChanged),
        RebuildSet {
            framebuffers: false,
            viewport: true,
            pipeline: true,
            binding_set: true,
            command_batches: true,
        }
    );
}

#[test]
fn union_names_what_either_set_names() {
    let both = RebuildSet::for_trigger(RebuildTrigger::SurfaceRecreated)
        .union(RebuildSet::for_trigger(RebuildTrigger::FieldReplaced));
    assert_eq!(
        both,
        RebuildSet {
            framebuffers: true,
            viewport: true,
            pipeline: false,
            binding_set: true,
            command_batches: false,
        }
    );
    assert_eq!(both.union(RebuildSet::none()), both);
    assert_eq!(RebuildSet::none().union(both), both);
}

#[test]
fn nothing_is_rebuilt_for_a_trigger_that_did_not_fire() {
    assert_eq!(RebuildSet::when(false, RebuildTrigger::ViewportOffsetChanged), RebuildSet::none());
    assert_eq!(
        RebuildSet::when(true, RebuildTrigger::FieldReplaced),
        RebuildSet::for_trigger(RebuildTrigger::FieldReplaced)
    );
    assert!(RebuildSet::none().is_none());
    assert!(!RebuildSet::for_trigger(RebuildTrigger::FieldReplaced).is_none());
}

#[test]
fn a_draw_is_one_pass_with_one_quad() {
    let batch = DrawBatch {
        image_index: 2,
        surface_generation: 5,
        field_generation: 7,
        viewport: Viewport { offset_x: 300, offset_y: 0, width: 500, height: 600 },
        visible_layer: SimulationLayer::Imaginary,
    };
    assert_eq!(
        batch.commands(),
        vec![
            DrawCommand::BeginPass { framebuffer: 2 },
            DrawCommand::BindPipeline,
            DrawCommand::PushVisibleLayer { layer: SimulationLayer::Imaginary },
            DrawCommand::BindFieldSet { field_generation: 7 },
            DrawCommand::BindQuad,
            DrawCommand::Draw { vertices: 6, instances: 1 },
            DrawCommand::EndPass,
        ]
    );
}

#[test]
fn the_quad_is_two_triangles_over_the_whole_screen() {
    assert_eq!(
        quad_vertices(),
        vec![
            QuadVertex { x: -1, y: -1, u: 0, v: 0 },
            QuadVertex { x: -1, y: 1, u: 0, v: 1 },
            QuadVertex { x: 1, y: 1, u: 1, v: 1 },
            QuadVertex { x: -1, y: -1, u: 0, v: 0 },
            QuadVertex { x: 1, y: 1, u: 1, v: 1 },
            QuadVertex { x: 1, y: -1, u: 1, v: 0 },
        ]
    );
}

#[test]
fn every_quad_vertex_carries_its_corners_texture_coordinate() {
    for vertex in quad_vertices() {
        assert_eq!(2 * vertex.u as i32, vertex.x + 1);
        assert_eq!(2 * vertex.v as i32, vertex.y + 1);
    }
}
