use nethercade::draw_context::{expand_rgba, Draw3dContext, DrawContextState, DrawError};
use nethercade::pipeline::Pipeline;
use nethercade::render_pass::{
    BufferWrite, Command, GpuBuffer, RenderOp, TextureStates, VirtualRenderPass, WriteSource,
};

fn drawing() -> Draw3dContext {
    let mut ctx = Draw3dContext::new();
    ctx.begin_render();
    ctx
}

fn push_all_matrices(ctx: &mut Draw3dContext) -> Vec<BufferWrite> {
    ctx.push_model_matrix(1024, 0).unwrap();
    ctx.push_view_matrix_pos(1024, 64, 128).unwrap();
    ctx.push_projection_matrix(1024, 192).unwrap()
}

#[test]
fn tri_list_of_whole_vertices_is_recorded() {
    let mut ctx = drawing();
    let w = ctx.draw_tri_list(1024, 16, 18, 0).unwrap();
    assert_eq!(
        w,
        BufferWrite {
            buffer: GpuBuffer::ImmediateVertices,
            offset: 0,
            source: WriteSource::Guest { offset: 16, len: 72 },
        }
    );
    assert_eq!(
        ctx.vrp.commands,
        vec![
            Command::SetPipeline(Pipeline::Color),
            Command::Draw { byte_offset: 0, vertex_count: 3 }
        ]
    );
    assert_eq!(ctx.vrp.immediate_buffer_last_index, 72);
    let w2 = ctx.draw_tri_list(1024, 0, 11, 7).unwrap();
    assert_eq!(w2.offset, 72);
    assert_eq!(ctx.vrp.commands[3], Command::Draw { byte_offset: 72, vertex_count: 1 });
}

#[test]
fn tri_list_of_partial_vertex_is_dropped() {
    let mut ctx = drawing();
    assert_eq!(ctx.draw_tri_list(1024, 0, 7, 0), Err(DrawError::SizeMismatch));
    assert!(ctx.vrp.commands.is_empty());
    assert_eq!(ctx.vrp.immediate_buffer_last_index, 0);
    assert_eq!(ctx.draw_tri_list(1024, 0, 6, 9), Err(DrawError::InvalidPipeline));
    assert_eq!(ctx.draw_tri_list(1024, 1004, 6, 0), Err(DrawError::OutOfBounds));
    assert_eq!(ctx.draw_tri_list(1024, 0, -6, 0), Err(DrawError::OutOfBounds));
    assert_eq!(ctx.draw_tri_list(1024, -4, 6, 0), Err(DrawError::OutOfBounds));
    assert!(ctx.vrp.commands.is_empty());
}

#[test]
fn draw_calls_outside_render_change_nothing() {
    let mut ctx = Draw3dContext::new();
    ctx.meshes.push(nethercade::draw_context::MeshInfo { pipeline: Pipeline::Uv, vertex_count: 3 });
    for state in [DrawContextState::Invalid, DrawContextState::Init] {
        ctx.state = state;
        assert_eq!(ctx.draw_tri_list(1024, 0, 6, 0), Err(DrawError::OutsideDraw));
        assert_eq!(ctx.push_model_matrix(1024, 0), Err(DrawError::OutsideDraw));
        assert_eq!(ctx.push_view_matrix_pos(1024, 0, 0), Err(DrawError::OutsideDraw));
        assert_eq!(ctx.push_projection_matrix(1024, 0), Err(DrawError::OutsideDraw));
        assert_eq!(ctx.push_light(1024, 0), Err(DrawError::OutsideDraw));
        assert_eq!(ctx.draw_static_mesh(0), Err(DrawError::OutsideDraw));
        assert_eq!(ctx.draw_static_mesh_indexed(0), Err(DrawError::OutsideDraw));
        assert_eq!(ctx.draw_sprite(0), Err(DrawError::OutsideDraw));
        assert_eq!(ctx.set_texture(0, 0, 0), Err(DrawError::OutsideDraw));
        assert_eq!(ctx.set_matcap(0, 0, 0), Err(DrawError::OutsideDraw));
        assert_eq!(ctx.clear_textures(), Err(DrawError::OutsideDraw));
        assert!(ctx.vrp.commands.is_empty());
        assert_eq!(ctx.vrp.model_matrix_count, 0);
        assert_eq!(ctx.vrp.light_count, 0);
    }
}

#[test]
fn pass_without_view_or_projection_is_skipped() {
    let mut ctx = drawing();
    ctx.push_model_matrix(1024, 0).unwrap();
    ctx.push_projection_matrix(1024, 64).unwrap();
    ctx.draw_tri_list(1024, 0, 6, 0).unwrap();
    assert_eq!(ctx.vrp.instance_count, 0);
    assert_eq!(ctx.end_render(), None);
    assert_eq!(ctx.state, DrawContextState::Invalid);
    assert_eq!(VirtualRenderPass::new().plan(), None);
}

#[test]
fn draw_before_first_instance_skips_whole_pass() {
    let mut ctx = drawing();
    ctx.draw_tri_list(1024, 0, 6, 0).unwrap();
    push_all_matrices(&mut ctx);
    assert_eq!(ctx.vrp.instance_count, 1);
    assert_eq!(ctx.end_render(), None);
}

#[test]
fn complete_pass_plans_in_order() {
    let mut ctx = drawing();
    let writes = push_all_matrices(&mut ctx);
    assert_eq!(writes.len(), 2);
    assert_eq!(
        writes[1],
        BufferWrite { buffer: GpuBuffer::Instance, offset: 0, source: WriteSource::Instance([0, 0, 0, 0]) }
    );
    ctx.set_matcap(0, 2, 3).unwrap();
    ctx.draw_tri_list(1024, 0, 12, 0).unwrap();
    let ops = ctx.end_render().unwrap();
    let mut tex = TextureStates::new();
    tex.set_texture(0, 2, 3, true);
    assert_eq!(
        ops,
        vec![
            RenderOp::BindTextures(TextureStates::new()),
            RenderOp::BindTextures(tex),
            RenderOp::UsePipeline { shader: 0, textures: tex },
            RenderOp::DrawImmediate { byte_offset: 0, vertex_count: 2, instance: 0 },
        ]
    );
    assert_eq!(tex.to_push_constants(), [0, 0, 3, 0, 0b100, 0, 0, 0]);
}

#[test]
fn second_push_closes_second_instance() {
    let mut ctx = drawing();
    push_all_matrices(&mut ctx);
    ctx.push_light(1024, 0).unwrap();
    let w = ctx.push_model_matrix(1024, 256).unwrap();
    assert_eq!(w[0].offset, 64);
    assert_eq!(
        w[1],
        BufferWrite { buffer: GpuBuffer::Instance, offset: 16, source: WriteSource::Instance([1, 0, 0, 1]) }
    );
    assert_eq!(ctx.vrp.instance_count, 2);
}

#[test]
fn lights_are_capped() {
    let mut ctx = drawing();
    for i in 0..4 {
        let w = ctx.push_light(1024, 0).unwrap();
        assert_eq!(w.offset, 48 * i);
    }
    assert_eq!(ctx.push_light(1024, 0), Err(DrawError::BufferFull));
    assert_eq!(ctx.push_light(10, 0), Err(DrawError::OutOfBounds));
}

#[test]
fn binds_check_layer_and_texture() {
    let mut ctx = drawing();
    assert_eq!(ctx.set_texture(0, 4, 0), Err(DrawError::InvalidLayer));
    assert_eq!(ctx.set_texture(1, 0, 0), Err(DrawError::UnknownTexture));
    assert_eq!(ctx.draw_sprite(1), Err(DrawError::UnknownTexture));
    assert_eq!(ctx.draw_static_mesh(0), Err(DrawError::UnknownMesh));
    assert_eq!(ctx.set_texture(0, 1, 2), Ok(()));
    assert_eq!(ctx.clear_textures(), Ok(()));
    assert_eq!(ctx.vrp.commands, vec![Command::SetTexture(0, 1, 2), Command::ClearTextures]);
}

#[test]
fn load_texture_after_init_is_refused() {
    let mem = vec![7u8; 64];
    let mut ctx = Draw3dContext::new();
    ctx.begin_init();
    ctx.end_phase();
    let r = ctx.load_texture(&mem, 0, 2, 2, 1);
    assert_eq!(r.map(|u| u.handle).unwrap_or(nethercade::draw_context::INVALID_HANDLE), -1);
    assert_eq!(ctx.texture_count, 1);
    ctx.begin_render();
    assert!(matches!(ctx.load_texture(&mem, 0, 2, 2, 1), Err(DrawError::OutsideInit)));
    assert_eq!(ctx.texture_count, 1);
}

#[test]
fn load_texture_during_init_expands_rgb() {
    let mem: Vec<u8> = (0..12).collect();
    let mut ctx = Draw3dContext::new();
    ctx.begin_init();
    let up = ctx.load_texture(&mem, 0, 2, 2, 0).unwrap();
    assert_eq!(up.handle, 1);
    assert_eq!((up.width, up.height), (2, 2));
    assert_eq!(up.rgba, vec![0, 1, 2, 255, 3, 4, 5, 255, 6, 7, 8, 255, 9, 10, 11, 255]);
    assert_eq!(ctx.texture_count, 2);
    assert!(matches!(ctx.load_texture(&mem, 4, 2, 2, 0), Err(DrawError::OutOfBounds)));
    assert!(matches!(ctx.load_texture(&mem, 0, 0, 2, 0), Err(DrawError::InvalidSize)));
    assert_eq!(expand_rgba(&[1, 2, 3, 4], true, 1), vec![1, 2, 3, 4]);
}

#[test]
fn static_meshes_load_only_during_init() {
    let mut ctx = Draw3dContext::new();
    assert_eq!(ctx.load_static_mesh(1024, 0, 15, 1), Err(DrawError::OutsideInit));
    ctx.begin_init();
    assert_eq!(ctx.load_static_mesh(1024, 0, 16, 1), Err(DrawError::SizeMismatch));
    let m = ctx.load_static_mesh(1024, 0, 15, 1).unwrap();
    assert_eq!(m.handle, 0);
    assert_eq!(m.vertex_count, 3);
    assert_eq!(m.data_len, 60);
    let im = ctx.load_static_mesh_indexed(1024, 0, 24, 512, 6, 2).unwrap();
    assert_eq!(im.handle, 0);
    assert_eq!(im.index_count, 6);
    assert_eq!(im.index_len, 12);
    assert_eq!(
        ctx.load_static_mesh_indexed(1024, 0, 24, 1020, 6, 2),
        Err(DrawError::OutOfBounds)
    );
    ctx.end_phase();
    ctx.begin_render();
    assert_eq!(ctx.draw_static_mesh(0), Ok(()));
    assert_eq!(ctx.draw_static_mesh_indexed(0), Ok(()));
    assert_eq!(ctx.draw_static_mesh(1), Err(DrawError::UnknownMesh));
}
