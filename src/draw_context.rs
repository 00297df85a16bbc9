use vstd::prelude::*;

use crate::guest_memory::{checked_range, guest_addr, range_ok, read_bytes};
use crate::pipeline::Pipeline;
use crate::render_pass::{
    lemma_fold_push, plan_fold, BufferWrite, Command, GpuBuffer, RenderOp, VirtualRenderPass,
    WriteSource, BUFFER_BYTES, LIGHT_BYTES, MATRIX_BYTES, MAX_INSTANCES, MAX_LIGHTS, MAX_MATRICES,
    POSITION_STRIDE, TEXTURE_LAYERS,
};

verus! {

/// Which class of host call is legal: resource loading during `init`, drawing during
/// `render`, neither otherwise.
#[derive(Debug, Clone, Copy, PartialEq, Eq, Structural)]
pub enum DrawContextState {
    Init,
    Draw,
    Invalid,
}

/// Why a drawing or loading call was dropped.
#[derive(Debug, Clone, Copy, PartialEq, Eq, Structural)]
pub enum DrawError {
    /// A draw-only call outside `render`.
    OutsideDraw,
    /// A loading call outside `init`.
    OutsideInit,
    InvalidPipeline,
    /// A pointer and length that reach past guest memory.
    OutOfBounds,
    /// A float count that is not a whole number of the pipeline's vertices.
    SizeMismatch,
    /// The buffer or table the call would fill is full.
    BufferFull,
    InvalidLayer,
    UnknownTexture,
    UnknownMesh,
    /// Texture dimensions that are not positive or exceed the largest texture.
    InvalidSize,
}

/// What a loading call returns to the guest when it is refused.
pub const INVALID_HANDLE: i32 = -1;

/// Texture slot 0 holds the console's default texture; guest textures follow it.
pub const FIRST_GUEST_TEXTURE: usize = 1;

/// Largest texture side the backend creates.
pub const MAX_TEXTURE_SIDE: i32 = 8192;

/// Most resources of one kind a program may load.
pub const MAX_RESOURCES: usize = 0x7FFF_FFFF;

#[derive(Debug, Clone, Copy, PartialEq, Eq, Structural)]
pub struct MeshInfo {
    pub pipeline: Pipeline,
    pub vertex_count: u32,
}

#[derive(Debug, Clone, Copy, PartialEq, Eq, Structural)]
pub struct IndexedMeshInfo {
    pub pipeline: Pipeline,
    pub index_count: u32,
}

/// A texture to create in slot `handle`, as RGBA8 rows.
#[derive(Debug)]
pub struct TextureUpload {
    pub handle: i32,
    pub width: u32,
    pub height: u32,
    pub rgba: Vec<u8>,
}

/// A static mesh to create in slot `handle` from `data_len` bytes of guest memory.
#[derive(Debug, Clone, Copy, PartialEq, Eq, Structural)]
pub struct MeshUpload {
    pub handle: i32,
    pub pipeline: Pipeline,
    pub vertex_count: u32,
    pub data_offset: usize,
    pub data_len: usize,
}

/// An indexed static mesh to create in slot `handle`; its indices are 16-bit.
#[derive(Debug, Clone, Copy, PartialEq, Eq, Structural)]
pub struct IndexedMeshUpload {
    pub handle: i32,
    pub pipeline: Pipeline,
    pub index_count: u32,
    pub data_offset: usize,
    pub data_len: usize,
    pub index_offset: usize,
    pub index_len: usize,
}

/// The pixels of a texture as RGBA: RGB input gets an opaque alpha of 255.
pub open spec fn rgba_spec(data: Seq<u8>, has_alpha: bool, pixels: int) -> Seq<u8> {
    Seq::new(
        (pixels * 4) as nat,
        |i: int|
            if has_alpha {
                data[i]
            } else if i % 4 == 3 {
                255u8
            } else {
                data[(i / 4) * 3 + i % 4]
            },
    )
}

/// Expands `pixels` pixels of RGB or RGBA bytes into RGBA.
pub fn expand_rgba(data: &[u8], has_alpha: bool, pixels: usize) -> (r: Vec<u8>)
    requires
        data@.len() == pixels * (if has_alpha {
            4int
        } else {
            3int
        }),
        pixels * 4 <= usize::MAX,
    ensures
        r@ == rgba_spec(data@, has_alpha, pixels as int),
{
    let mut out: Vec<u8> = Vec::new();
    let mut p: usize = 0;
    while p < pixels
        invariant
            p <= pixels,
            pixels * 4 <= usize::MAX,
            data@.len() == pixels * (if has_alpha {
                4int
            } else {
                3int
            }),
            out@ =~= rgba_spec(data@, has_alpha, p as int),
        decreases pixels - p,
    {
        if has_alpha {
            let b = 4 * p;
            out.push(data[b]);
            out.push(data[b + 1]);
            out.push(data[b + 2]);
            out.push(data[b + 3]);
        } else {
            let b = 3 * p;
            out.push(data[b]);
            out.push(data[b + 1]);
            out.push(data[b + 2]);
            out.push(255);
        }
        p = p + 1;
        assert(out@ =~= rgba_spec(data@, has_alpha, p as int));
    }
    out
}

/// Host-side drawing state of one program: the render pass being recorded, which calls
/// are legal now, and the resources loaded so far.
#[derive(Debug)]
pub struct Draw3dContext {
    pub vrp: VirtualRenderPass,
    pub state: DrawContextState,
    pub texture_count: usize,
    pub meshes: Vec<MeshInfo>,
    pub indexed_meshes: Vec<IndexedMeshInfo>,
}

impl Draw3dContext {
    /// Resources a recorded command names exist.
    pub open spec fn refs_ok(self, c: Command) -> bool {
        match c {
            Command::SetTexture(t, _, _) | Command::SetMatcap(t, _, _) | Command::DrawSprite(t) => t
                < self.texture_count,
            Command::DrawStaticMesh(m) => m < self.meshes@.len(),
            Command::DrawStaticMeshIndexed(m) => m < self.indexed_meshes@.len(),
            _ => true,
        }
    }

    pub open spec fn wf(self) -> bool {
        &&& self.vrp.wf()
        &&& FIRST_GUEST_TEXTURE <= self.texture_count <= MAX_RESOURCES
        &&& self.meshes@.len() <= MAX_RESOURCES
        &&& self.indexed_meshes@.len() <= MAX_RESOURCES
        &&& forall|i: int|
            0 <= i < self.vrp.commands@.len() ==> self.refs_ok(#[trigger] self.vrp.commands@[i])
    }

    /// Same call state and same loaded resources as `other`.
    pub open spec fn same_resources(self, other: Self) -> bool {
        &&& self.state == other.state
        &&& self.texture_count == other.texture_count
        &&& self.meshes@ == other.meshes@
        &&& self.indexed_meshes@ == other.indexed_meshes@
    }

    /// The pass of `self` is that of `other` with `cmds` appended; no counter moved.
    pub open spec fn appended(self, other: Self, cmds: Seq<Command>) -> bool {
        &&& self.same_resources(other)
        &&& self.vrp.commands@ == other.vrp.commands@ + cmds
        &&& self.vrp.instance_count == other.vrp.instance_count
        &&& self.vrp.light_count == other.vrp.light_count
        &&& self.vrp.model_matrix_count == other.vrp.model_matrix_count
        &&& self.vrp.view_pos_count == other.vrp.view_pos_count
        &&& self.vrp.projection_matrix_count == other.vrp.projection_matrix_count
        &&& self.vrp.immediate_buffer_last_index == other.vrp.immediate_buffer_last_index
    }

    pub fn new() -> (r: Self)
        ensures
            r.wf(),
            r.state == DrawContextState::Invalid,
            r.vrp.is_empty(),
            r.texture_count == FIRST_GUEST_TEXTURE,
            r.meshes@.len() == 0,
            r.indexed_meshes@.len() == 0,
    {
        Draw3dContext {
            vrp: VirtualRenderPass::new(),
            state: DrawContextState::Invalid,
            texture_count: FIRST_GUEST_TEXTURE,
            meshes: Vec::new(),
            indexed_meshes: Vec::new(),
        }
    }

    fn record(&mut self, c: Command)
        requires
            old(self).wf(),
            c.wf(),
            old(self).refs_ok(c),
            !(c is UpdateInstance),
        ensures
            final(self).wf(),
            final(self).appended(*old(self), seq![c]),
    {
        proof {
            lemma_fold_push(self.vrp.commands@, c);
        }
        self.vrp.commands.push(c);
        proof {
            assert(self.vrp.commands@ =~= old(self).vrp.commands@ + seq![c]);
            assert forall|i: int| 0 <= i < self.vrp.commands@.len() implies (
            #[trigger] self.vrp.commands@[i]).wf() && self.refs_ok(self.vrp.commands@[i]) by {
                if i < old(self).vrp.commands@.len() {
                    assert(self.vrp.commands@[i] == old(self).vrp.commands@[i]);
                }
            }
        }
    }

    /// The first reason a matrix push of `byte_len` bytes at `ptr` is refused, if any;
    /// `count` is how many matrices of that kind the pass already holds.
    pub open spec fn matrix_check(self, mem_len: int, ptr: i32, byte_len: int, count: u64) -> Option<
        DrawError,
    > {
        if self.state != DrawContextState::Draw {
            Some(DrawError::OutsideDraw)
        } else if !range_ok(mem_len, ptr, byte_len) {
            Some(DrawError::OutOfBounds)
        } else if count >= MAX_MATRICES || self.vrp.instance_count >= MAX_INSTANCES {
            Some(DrawError::BufferFull)
        } else {
            None
        }
    }

    /// The writes after the first `k` close an instance exactly when `self.vrp` says so.
    pub open spec fn instance_tail(self, before: Self, writes: Seq<BufferWrite>, k: int) -> bool {
        &&& writes.len() == k || writes.len() == k + 1
        &&& self.vrp.closed_instance(
            before.vrp,
            if writes.len() == k + 1 {
                Some(writes[k])
            } else {
                None
            },
        )
        &&& self.same_resources(before)
    }

    proof fn lemma_instance_push_wf(self, before: Self)
        requires
            before.wf(),
            self.vrp.wf(),
            self.same_resources(before),
            self.vrp.commands@ == before.vrp.commands@ || self.vrp.commands@
                == before.vrp.commands@.push(Command::UpdateInstance),
        ensures
            self.wf(),
    {
        assert forall|i: int| 0 <= i < self.vrp.commands@.len() implies self.refs_ok(
            #[trigger] self.vrp.commands@[i],
        ) by {
            if i < before.vrp.commands@.len() {
                assert(self.vrp.commands@[i] == before.vrp.commands@[i]);
            }
        }
    }

    /// Pushes the model matrix at `mat_ptr` (64 bytes); closes an instance when view and
    /// projection exist too.
    pub fn push_model_matrix(&mut self, mem_len: usize, mat_ptr: i32) -> (r: Result<
        Vec<BufferWrite>,
        DrawError,
    >)
        requires
            old(self).wf(),
        ensures
            final(self).wf(),
            r is Err <==> old(self).matrix_check(
                mem_len as int,
                mat_ptr,
                MATRIX_BYTES as int,
                old(self).vrp.model_matrix_count,
            ) is Some,
            r is Err ==> Some(r->Err_0) == old(self).matrix_check(
                mem_len as int,
                mat_ptr,
                MATRIX_BYTES as int,
                old(self).vrp.model_matrix_count,
            ) && *final(self) == *old(self),
            r is Ok ==> r->Ok_0@[0] == (BufferWrite {
                buffer: GpuBuffer::Model,
                offset: (old(self).vrp.model_matrix_count * MATRIX_BYTES) as u64,
                source: WriteSource::Guest { offset: guest_addr(mat_ptr) as usize, len: 64usize },
            }) && final(self).instance_tail(*old(self), r->Ok_0@, 1)
                && final(self).vrp.model_matrix_count == old(self).vrp.model_matrix_count + 1
                && final(self).vrp.view_pos_count == old(self).vrp.view_pos_count
                && final(self).vrp.projection_matrix_count == old(self).vrp.projection_matrix_count,
    {
        if self.state != DrawContextState::Draw {
            return Err(DrawError::OutsideDraw);
        }
        let (offset, len) = match checked_range(mem_len, mat_ptr, 1, MATRIX_BYTES) {
            Some(range) => range,
            None => {
                return Err(DrawError::OutOfBounds);
            },
        };
        if self.vrp.model_matrix_count >= MAX_MATRICES || self.vrp.instance_count >= MAX_INSTANCES {
            return Err(DrawError::BufferFull);
        }
        let mut writes: Vec<BufferWrite> = Vec::new();
        writes.push(
            BufferWrite {
                buffer: GpuBuffer::Model,
                offset: self.vrp.model_matrix_count * MATRIX_BYTES,
                source: WriteSource::Guest { offset, len },
            },
        );
        let closed = self.vrp.push_model_matrix();
        if let Some(w) = closed {
            writes.push(w);
        }
        proof {
            self.lemma_instance_push_wf(*old(self));
        }
        Ok(writes)
    }

    pub open spec fn view_check(self, mem_len: int, view_ptr: i32, pos_ptr: i32) -> Option<DrawError> {
        if self.state != DrawContextState::Draw {
            Some(DrawError::OutsideDraw)
        } else if !range_ok(mem_len, view_ptr, MATRIX_BYTES as int) || !range_ok(mem_len, pos_ptr, 12) {
            Some(DrawError::OutOfBounds)
        } else if self.vrp.view_pos_count >= MAX_MATRICES || self.vrp.instance_count >= MAX_INSTANCES {
            Some(DrawError::BufferFull)
        } else {
            None
        }
    }

    /// Pushes the view matrix at `view_ptr` (64 bytes) and the camera position at `pos_ptr`
    /// (three floats); closes an instance when model and projection exist too.
    pub fn push_view_matrix_pos(&mut self, mem_len: usize, view_ptr: i32, pos_ptr: i32) -> (r:
        Result<Vec<BufferWrite>, DrawError>)
        requires
            old(self).wf(),
        ensures
            final(self).wf(),
            r is Err <==> old(self).view_check(mem_len as int, view_ptr, pos_ptr) is Some,
            r is Err ==> Some(r->Err_0) == old(self).view_check(mem_len as int, view_ptr, pos_ptr)
                && *final(self) == *old(self),
            r is Ok ==> r->Ok_0@[0] == (BufferWrite {
                buffer: GpuBuffer::View,
                offset: (old(self).vrp.view_pos_count * MATRIX_BYTES) as u64,
                source: WriteSource::Guest { offset: guest_addr(view_ptr) as usize, len: 64usize },
            }) && r->Ok_0@[1] == (BufferWrite {
                buffer: GpuBuffer::CameraPosition,
                offset: (old(self).vrp.view_pos_count * POSITION_STRIDE) as u64,
                source: WriteSource::Guest { offset: guest_addr(pos_ptr) as usize, len: 12usize },
            }) && final(self).instance_tail(*old(self), r->Ok_0@, 2)
                && final(self).vrp.model_matrix_count == old(self).vrp.model_matrix_count
                && final(self).vrp.view_pos_count == old(self).vrp.view_pos_count + 1
                && final(self).vrp.projection_matrix_count == old(self).vrp.projection_matrix_count,
    {
        if self.state != DrawContextState::Draw {
            return Err(DrawError::OutsideDraw);
        }
        let (offset, len) = match checked_range(mem_len, view_ptr, 1, MATRIX_BYTES) {
            Some(range) => range,
            None => {
                return Err(DrawError::OutOfBounds);
            },
        };
        let (pos_offset, pos_len) = match checked_range(mem_len, pos_ptr, 1, 12) {
            Some(range) => range,
            None => {
                return Err(DrawError::OutOfBounds);
            },
        };
        if self.vrp.view_pos_count >= MAX_MATRICES || self.vrp.instance_count >= MAX_INSTANCES {
            return Err(DrawError::BufferFull);
        }
        let mut writes: Vec<BufferWrite> = Vec::new();
        writes.push(
            BufferWrite {
                buffer: GpuBuffer::View,
                offset: self.vrp.view_pos_count * MATRIX_BYTES,
                source: WriteSource::Guest { offset, len },
            },
        );
        writes.push(
            BufferWrite {
                buffer: GpuBuffer::CameraPosition,
                offset: self.vrp.view_pos_count * POSITION_STRIDE,
                source: WriteSource::Guest { offset: pos_offset, len: pos_len },
            },
        );
        let closed = self.vrp.push_view_pos();
        if let Some(w) = closed {
            writes.push(w);
        }
        proof {
            self.lemma_instance_push_wf(*old(self));
        }
        Ok(writes)
    }

    /// Pushes the projection matrix at `proj_ptr` (64 bytes); closes an instance when model
    /// and view exist too.
    pub fn push_projection_matrix(&mut self, mem_len: usize, proj_ptr: i32) -> (r: Result<
        Vec<BufferWrite>,
        DrawError,
    >)
        requires
            old(self).wf(),
        ensures
            final(self).wf(),
            r is Err <==> old(self).matrix_check(
                mem_len as int,
                proj_ptr,
                MATRIX_BYTES as int,
                old(self).vrp.projection_matrix_count,
            ) is Some,
            r is Err ==> Some(r->Err_0) == old(self).matrix_check(
                mem_len as int,
                proj_ptr,
                MATRIX_BYTES as int,
                old(self).vrp.projection_matrix_count,
            ) && *final(self) == *old(self),
            r is Ok ==> r->Ok_0@[0] == (BufferWrite {
                buffer: GpuBuffer::Projection,
                offset: (old(self).vrp.projection_matrix_count * MATRIX_BYTES) as u64,
                source: WriteSource::Guest { offset: guest_addr(proj_ptr) as usize, len: 64usize },
            }) && final(self).instance_tail(*old(self), r->Ok_0@, 1)
                && final(self).vrp.model_matrix_count == old(self).vrp.model_matrix_count
                && final(self).vrp.view_pos_count == old(self).vrp.view_pos_count
                && final(self).vrp.projection_matrix_count == old(self).vrp.projection_matrix_count
                + 1,
    {
        if self.state != DrawContextState::Draw {
            return Err(DrawError::OutsideDraw);
        }
        let (offset, len) = match checked_range(mem_len, proj_ptr, 1, MATRIX_BYTES) {
            Some(range) => range,
            None => {
                return Err(DrawError::OutOfBounds);
            },
        };
        if self.vrp.projection_matrix_count >= MAX_MATRICES || self.vrp.instance_count
            >= MAX_INSTANCES {
            return Err(DrawError::BufferFull);
        }
        let mut writes: Vec<BufferWrite> = Vec::new();
        writes.push(
            BufferWrite {
                buffer: GpuBuffer::Projection,
                offset: self.vrp.projection_matrix_count * MATRIX_BYTES,
                source: WriteSource::Guest { offset, len },
            },
        );
        let closed = self.vrp.push_proj_matrix();
        if let Some(w) = closed {
            writes.push(w);
        }
        proof {
            self.lemma_instance_push_wf(*old(self));
        }
        Ok(writes)
    }

    pub open spec fn light_check(self, mem_len: int, light_ptr: i32) -> Option<DrawError> {
        if self.state != DrawContextState::Draw {
            Some(DrawError::OutsideDraw)
        } else if !range_ok(mem_len, light_ptr, LIGHT_BYTES as int) {
            Some(DrawError::OutOfBounds)
        } else if self.vrp.light_count >= MAX_LIGHTS {
            Some(DrawError::BufferFull)
        } else {
            None
        }
    }

    /// Pushes the light at `light_ptr` (48 bytes); it joins the next instance closed.
    pub fn push_light(&mut self, mem_len: usize, light_ptr: i32) -> (r: Result<BufferWrite, DrawError>)
        requires
            old(self).wf(),
        ensures
            final(self).wf(),
            r is Err <==> old(self).light_check(mem_len as int, light_ptr) is Some,
            r is Err ==> Some(r->Err_0) == old(self).light_check(mem_len as int, light_ptr)
                && *final(self) == *old(self),
            r is Ok ==> r->Ok_0 == (BufferWrite {
                buffer: GpuBuffer::Lights,
                offset: (old(self).vrp.light_count * LIGHT_BYTES) as u64,
                source: WriteSource::Guest { offset: guest_addr(light_ptr) as usize, len: 48usize },
            }) && final(self).vrp.light_count == old(self).vrp.light_count + 1
                && final(self).same_resources(*old(self))
                && final(self).vrp.commands@ == old(self).vrp.commands@
                && final(self).vrp.instance_count == old(self).vrp.instance_count,
    {
        if self.state != DrawContextState::Draw {
            return Err(DrawError::OutsideDraw);
        }
        let (offset, len) = match checked_range(mem_len, light_ptr, 1, LIGHT_BYTES) {
            Some(range) => range,
            None => {
                return Err(DrawError::OutOfBounds);
            },
        };
        if self.vrp.light_count >= MAX_LIGHTS {
            return Err(DrawError::BufferFull);
        }
        let w = BufferWrite {
            buffer: GpuBuffer::Lights,
            offset: self.vrp.light_count * LIGHT_BYTES,
            source: WriteSource::Guest { offset, len },
        };
        self.vrp.light_count = self.vrp.light_count + 1;
        Ok(w)
    }

    /// The first reason a draw of resource `id` is refused, if any; `known` is how many
    /// resources of its kind exist.
    pub open spec fn resource_check(self, id: i32, known: int, unknown: DrawError) -> Option<DrawError> {
        if self.state != DrawContextState::Draw {
            Some(DrawError::OutsideDraw)
        } else if !(0 <= id < known) {
            Some(unknown)
        } else {
            None
        }
    }

    /// Records a draw of the preloaded mesh `id`.
    pub fn draw_static_mesh(&mut self, id: i32) -> (r: Result<(), DrawError>)
        requires
            old(self).wf(),
        ensures
            final(self).wf(),
            r is Err <==> old(self).resource_check(id, old(self).meshes@.len() as int, DrawError::UnknownMesh) is Some,
            r is Err ==> Some(r->Err_0) == old(self).resource_check(id, old(self).meshes@.len() as int, DrawError::UnknownMesh)
                && *final(self) == *old(self),
            r is Ok ==> final(self).appended(*old(self), seq![Command::DrawStaticMesh(id as usize)]),
    {
        if self.state != DrawContextState::Draw {
            return Err(DrawError::OutsideDraw);
        }
        if id < 0 || id as usize >= self.meshes.len() {
            return Err(DrawError::UnknownMesh);
        }
        self.record(Command::DrawStaticMesh(id as usize));
        Ok(())
    }

    /// Records a draw of the preloaded indexed mesh `id`.
    pub fn draw_static_mesh_indexed(&mut self, id: i32) -> (r: Result<(), DrawError>)
        requires
            old(self).wf(),
        ensures
            final(self).wf(),
            r is Err <==> old(self).resource_check(id, old(self).indexed_meshes@.len() as int, DrawError::UnknownMesh) is Some,
            r is Err ==> Some(r->Err_0) == old(self).resource_check(id, old(self).indexed_meshes@.len() as int, DrawError::UnknownMesh)
                && *final(self) == *old(self),
            r is Ok ==> final(self).appended(*old(self), seq![Command::DrawStaticMeshIndexed(id as usize)]),
    {
        if self.state != DrawContextState::Draw {
            return Err(DrawError::OutsideDraw);
        }
        if id < 0 || id as usize >= self.indexed_meshes.len() {
            return Err(DrawError::UnknownMesh);
        }
        self.record(Command::DrawStaticMeshIndexed(id as usize));
        Ok(())
    }

    /// Records a sprite draw of texture `id`.
    pub fn draw_sprite(&mut self, id: i32) -> (r: Result<(), DrawError>)
        requires
            old(self).wf(),
        ensures
            final(self).wf(),
            r is Err <==> old(self).resource_check(id, old(self).texture_count as int, DrawError::UnknownTexture) is Some,
            r is Err ==> Some(r->Err_0) == old(self).resource_check(id, old(self).texture_count as int, DrawError::UnknownTexture)
                && *final(self) == *old(self),
            r is Ok ==> final(self).appended(*old(self), seq![Command::DrawSprite(id as usize)]),
    {
        if self.state != DrawContextState::Draw {
            return Err(DrawError::OutsideDraw);
        }
        if id < 0 || id as usize >= self.texture_count {
            return Err(DrawError::UnknownTexture);
        }
        self.record(Command::DrawSprite(id as usize));
        Ok(())
    }

    /// The first reason a texture or matcap bind is refused, if any.
    pub open spec fn bind_check(self, tex_id: i32, layer: i32) -> Option<DrawError> {
        if self.state != DrawContextState::Draw {
            Some(DrawError::OutsideDraw)
        } else if !(0 <= layer < TEXTURE_LAYERS) {
            Some(DrawError::InvalidLayer)
        } else if !(0 <= tex_id < self.texture_count) {
            Some(DrawError::UnknownTexture)
        } else {
            None
        }
    }

    /// Binds texture `tex_id` to `layer` with `blend_mode` for the following draws.
    pub fn set_texture(&mut self, tex_id: i32, layer: i32, blend_mode: i32) -> (r: Result<(), DrawError>)
        requires
            old(self).wf(),
        ensures
            final(self).wf(),
            r is Err <==> old(self).bind_check(tex_id, layer) is Some,
            r is Err ==> Some(r->Err_0) == old(self).bind_check(tex_id, layer) && *final(self) == *old(self),
            r is Ok ==> final(self).appended(
                *old(self),
                seq![Command::SetTexture(tex_id as usize, layer as usize, blend_mode as usize)],
            ),
    {
        self.bind(tex_id, layer, blend_mode, false)
    }

    /// Binds texture `tex_id` to `layer` as a matcap with `blend_mode`.
    pub fn set_matcap(&mut self, tex_id: i32, layer: i32, blend_mode: i32) -> (r: Result<(), DrawError>)
        requires
            old(self).wf(),
        ensures
            final(self).wf(),
            r is Err <==> old(self).bind_check(tex_id, layer) is Some,
            r is Err ==> Some(r->Err_0) == old(self).bind_check(tex_id, layer) && *final(self) == *old(self),
            r is Ok ==> final(self).appended(
                *old(self),
                seq![Command::SetMatcap(tex_id as usize, layer as usize, blend_mode as usize)],
            ),
    {
        self.bind(tex_id, layer, blend_mode, true)
    }

    fn bind(&mut self, tex_id: i32, layer: i32, blend_mode: i32, matcap: bool) -> (r: Result<(), DrawError>)
        requires
            old(self).wf(),
        ensures
            final(self).wf(),
            r is Err <==> old(self).bind_check(tex_id, layer) is Some,
            r is Err ==> Some(r->Err_0) == old(self).bind_check(tex_id, layer) && *final(self) == *old(self),
            r is Ok ==> final(self).appended(
                *old(self),
                seq![
                    if matcap {
                        Command::SetMatcap(tex_id as usize, layer as usize, blend_mode as usize)
                    } else {
                        Command::SetTexture(tex_id as usize, layer as usize, blend_mode as usize)
                    },
                ],
            ),
    {
        if self.state != DrawContextState::Draw {
            return Err(DrawError::OutsideDraw);
        }
        if layer < 0 || layer as usize >= TEXTURE_LAYERS {
            return Err(DrawError::InvalidLayer);
        }
        if tex_id < 0 || tex_id as usize >= self.texture_count {
            return Err(DrawError::UnknownTexture);
        }
        if matcap {
            self.record(Command::SetMatcap(tex_id as usize, layer as usize, blend_mode as usize));
        } else {
            self.record(Command::SetTexture(tex_id as usize, layer as usize, blend_mode as usize));
        }
        Ok(())
    }

    /// Resets every layer to the default texture for the following draws.
    pub fn clear_textures(&mut self) -> (r: Result<(), DrawError>)
        requires
            old(self).wf(),
        ensures
            final(self).wf(),
            r is Err <==> old(self).state != DrawContextState::Draw,
            r is Err ==> r->Err_0 == DrawError::OutsideDraw && *final(self) == *old(self),
            r is Ok ==> final(self).appended(*old(self), seq![Command::ClearTextures]),
    {
        if self.state != DrawContextState::Draw {
            return Err(DrawError::OutsideDraw);
        }
        self.record(Command::ClearTextures);
        Ok(())
    }

    pub open spec fn bytes_per_pixel(has_alpha: i32) -> int {
        if has_alpha != 0 {
            4
        } else {
            3
        }
    }

    /// The first reason `load_texture` refuses its arguments, if any.
    pub open spec fn texture_check(self, mem_len: int, data_ptr: i32, width: i32, height: i32, has_alpha: i32) -> Option<DrawError> {
        if self.state != DrawContextState::Init {
            Some(DrawError::OutsideInit)
        } else if !(0 < width <= MAX_TEXTURE_SIDE && 0 < height <= MAX_TEXTURE_SIDE) {
            Some(DrawError::InvalidSize)
        } else if !range_ok(mem_len, data_ptr, width * height * Self::bytes_per_pixel(has_alpha)) {
            Some(DrawError::OutOfBounds)
        } else if self.texture_count >= MAX_RESOURCES {
            Some(DrawError::BufferFull)
        } else {
            None
        }
    }

    /// Loads a `width` by `height` texture of RGBA (`has_alpha` non-zero) or RGB pixels at
    /// `data_ptr`; legal only during `init`. Returns the texture's handle and its pixels as
    /// RGBA for the backend to create.
    pub fn load_texture(&mut self, mem: &[u8], data_ptr: i32, width: i32, height: i32, has_alpha: i32) -> (r: Result<TextureUpload, DrawError>)
        requires
            old(self).wf(),
        ensures
            final(self).wf(),
            r is Err <==> old(self).texture_check(mem@.len() as int, data_ptr, width, height, has_alpha) is Some,
            r is Err ==> Some(r->Err_0) == old(self).texture_check(mem@.len() as int, data_ptr, width, height, has_alpha)
                && *final(self) == *old(self),
            r is Ok ==> ({
                let u = r->Ok_0;
                let pixels = width * height;
                let start = guest_addr(data_ptr);
                &&& u.handle == old(self).texture_count
                &&& u.width == width && u.height == height
                &&& u.rgba@ == rgba_spec(
                    mem@.subrange(start, start + pixels * Self::bytes_per_pixel(has_alpha)),
                    has_alpha != 0,
                    pixels,
                )
                &&& final(self).texture_count == old(self).texture_count + 1
                &&& final(self).state == old(self).state
                &&& final(self).meshes@ == old(self).meshes@
                &&& final(self).indexed_meshes@ == old(self).indexed_meshes@
                &&& final(self).vrp == old(self).vrp
            }),
    {
        if self.state != DrawContextState::Init {
            return Err(DrawError::OutsideInit);
        }
        if width <= 0 || width > MAX_TEXTURE_SIDE || height <= 0 || height > MAX_TEXTURE_SIDE {
            return Err(DrawError::InvalidSize);
        }
        let alpha = has_alpha != 0;
        let bpp: i32 = if alpha { 4 } else { 3 };
        assert(width * height <= 8192 * 8192) by (nonlinear_arith)
            requires
                0 < width <= 8192,
                0 < height <= 8192,
        ;
        let pixels = width * height;
        let data = match read_bytes(mem, data_ptr, pixels * bpp, 1) {
            Some(d) => d,
            None => {
                return Err(DrawError::OutOfBounds);
            },
        };
        if self.texture_count >= MAX_RESOURCES {
            return Err(DrawError::BufferFull);
        }
        let rgba = expand_rgba(data.as_slice(), alpha, pixels as usize);
        let handle = self.texture_count as i32;
        self.texture_count = self.texture_count + 1;
        proof {
            assert forall|i: int| 0 <= i < self.vrp.commands@.len() implies self.refs_ok(
                #[trigger] self.vrp.commands@[i],
            ) by {
                assert(old(self).refs_ok(self.vrp.commands@[i]));
            }
        }
        Ok(TextureUpload { handle, width: width as u32, height: height as u32, rgba })
    }

    /// The first reason a mesh load of `len` floats is refused, if any.
    pub open spec fn mesh_check(self, mem_len: int, data_ptr: i32, len: i32, pipeline: i32, loaded: int) -> Option<DrawError> {
        if self.state != DrawContextState::Init {
            Some(DrawError::OutsideInit)
        } else if Pipeline::from_i32_spec(pipeline) is None {
            Some(DrawError::InvalidPipeline)
        } else if !(len >= 0 && range_ok(mem_len, data_ptr, 4 * len)) {
            Some(DrawError::OutOfBounds)
        } else if (len as int) % (Pipeline::from_i32_spec(pipeline)->0.attribute_count_spec() as int) != 0 {
            Some(DrawError::SizeMismatch)
        } else if loaded >= MAX_RESOURCES {
            Some(DrawError::BufferFull)
        } else {
            None
        }
    }

    /// Loads a static mesh of `len` floats at `data_ptr` in `pipeline`'s vertex format;
    /// legal only during `init`.
    pub fn load_static_mesh(&mut self, mem_len: usize, data_ptr: i32, len: i32, pipeline: i32) -> (r: Result<MeshUpload, DrawError>)
        requires
            old(self).wf(),
        ensures
            final(self).wf(),
            r is Err <==> old(self).mesh_check(mem_len as int, data_ptr, len, pipeline, old(self).meshes@.len() as int) is Some,
            r is Err ==> Some(r->Err_0) == old(self).mesh_check(mem_len as int, data_ptr, len, pipeline, old(self).meshes@.len() as int)
                && *final(self) == *old(self),
            r is Ok ==> ({
                let p = Pipeline::from_i32_spec(pipeline)->0;
                let info = MeshInfo { pipeline: p, vertex_count: ((len as int) / (p.attribute_count_spec() as int)) as u32 };
                &&& r->Ok_0 == (MeshUpload {
                    handle: old(self).meshes@.len() as i32,
                    pipeline: p,
                    vertex_count: info.vertex_count,
                    data_offset: guest_addr(data_ptr) as usize,
                    data_len: (4 * len) as usize,
                })
                &&& final(self).meshes@ == old(self).meshes@.push(info)
                &&& final(self).state == old(self).state
                &&& final(self).texture_count == old(self).texture_count
                &&& final(self).indexed_meshes@ == old(self).indexed_meshes@
                &&& final(self).vrp == old(self).vrp
            }),
    {
        if self.state != DrawContextState::Init {
            return Err(DrawError::OutsideInit);
        }
        let p = match Pipeline::try_from(pipeline) {
            Ok(p) => p,
            Err(_) => {
                return Err(DrawError::InvalidPipeline);
            },
        };
        let (data_offset, data_len) = match checked_range(mem_len, data_ptr, len, 4) {
            Some(range) => range,
            None => {
                return Err(DrawError::OutOfBounds);
            },
        };
        let attribute_count = p.get_attribute_count();
        if len as usize % attribute_count != 0 {
            return Err(DrawError::SizeMismatch);
        }
        if self.meshes.len() >= MAX_RESOURCES {
            return Err(DrawError::BufferFull);
        }
        let vertex_count = (len as usize / attribute_count) as u32;
        let handle = self.meshes.len() as i32;
        self.meshes.push(MeshInfo { pipeline: p, vertex_count });
        proof {
            assert forall|i: int| 0 <= i < self.vrp.commands@.len() implies self.refs_ok(
                #[trigger] self.vrp.commands@[i],
            ) by {
                assert(old(self).refs_ok(self.vrp.commands@[i]));
            }
        }
        Ok(MeshUpload { handle, pipeline: p, vertex_count, data_offset, data_len })
    }

    /// The first reason an indexed mesh load is refused, if any.
    pub open spec fn indexed_mesh_check(self, mem_len: int, data_ptr: i32, data_len: i32, index_ptr: i32, index_len: i32, pipeline: i32) -> Option<DrawError> {
        match self.mesh_check(mem_len, data_ptr, data_len, pipeline, self.indexed_meshes@.len() as int) {
            Some(DrawError::BufferFull) if !(index_len >= 0 && range_ok(mem_len, index_ptr, 2 * index_len)) => Some(DrawError::OutOfBounds),
            Some(e) => Some(e),
            None => if !(index_len >= 0 && range_ok(mem_len, index_ptr, 2 * index_len)) {
                Some(DrawError::OutOfBounds)
            } else {
                None
            },
        }
    }

    /// Loads an indexed static mesh: `data_len` floats at `data_ptr` and `index_len` 16-bit
    /// indices at `index_ptr`; legal only during `init`.
    pub fn load_static_mesh_indexed(&mut self, mem_len: usize, data_ptr: i32, data_len: i32, index_ptr: i32, index_len: i32, pipeline: i32) -> (r: Result<IndexedMeshUpload, DrawError>)
        requires
            old(self).wf(),
        ensures
            final(self).wf(),
            r is Err <==> old(self).indexed_mesh_check(mem_len as int, data_ptr, data_len, index_ptr, index_len, pipeline) is Some,
            r is Err ==> Some(r->Err_0) == old(self).indexed_mesh_check(mem_len as int, data_ptr, data_len, index_ptr, index_len, pipeline)
                && *final(self) == *old(self),
            r is Ok ==> ({
                let p = Pipeline::from_i32_spec(pipeline)->0;
                let info = IndexedMeshInfo { pipeline: p, index_count: index_len as u32 };
                &&& r->Ok_0 == (IndexedMeshUpload {
                    handle: old(self).indexed_meshes@.len() as i32,
                    pipeline: p,
                    index_count: index_len as u32,
                    data_offset: guest_addr(data_ptr) as usize,
                    data_len: (4 * data_len) as usize,
                    index_offset: guest_addr(index_ptr) as usize,
                    index_len: (2 * index_len) as usize,
                })
                &&& final(self).indexed_meshes@ == old(self).indexed_meshes@.push(info)
                &&& final(self).state == old(self).state
                &&& final(self).texture_count == old(self).texture_count
                &&& final(self).meshes@ == old(self).meshes@
                &&& final(self).vrp == old(self).vrp
            }),
    {
        if self.state != DrawContextState::Init {
            return Err(DrawError::OutsideInit);
        }
        let p = match Pipeline::try_from(pipeline) {
            Ok(p) => p,
            Err(_) => {
                return Err(DrawError::InvalidPipeline);
            },
        };
        let (data_offset, data_bytes) = match checked_range(mem_len, data_ptr, data_len, 4) {
            Some(range) => range,
            None => {
                return Err(DrawError::OutOfBounds);
            },
        };
        let attribute_count = p.get_attribute_count();
        if data_len as usize % attribute_count != 0 {
            return Err(DrawError::SizeMismatch);
        }
        let (index_offset, index_bytes) = match checked_range(mem_len, index_ptr, index_len, 2) {
            Some(range) => range,
            None => {
                return Err(DrawError::OutOfBounds);
            },
        };
        if self.indexed_meshes.len() >= MAX_RESOURCES {
            return Err(DrawError::BufferFull);
        }
        let handle = self.indexed_meshes.len() as i32;
        self.indexed_meshes.push(IndexedMeshInfo { pipeline: p, index_count: index_len as u32 });
        proof {
            assert forall|i: int| 0 <= i < self.vrp.commands@.len() implies self.refs_ok(
                #[trigger] self.vrp.commands@[i],
            ) by {
                assert(old(self).refs_ok(self.vrp.commands@[i]));
            }
        }
        Ok(
            IndexedMeshUpload {
                handle,
                pipeline: p,
                index_count: index_len as u32,
                data_offset,
                data_len: data_bytes,
                index_offset,
                index_len: index_bytes,
            },
        )
    }

    /// Opens `init`: loading calls become legal.
    pub fn begin_init(&mut self)
        requires
            old(self).wf(),
        ensures
            final(self).wf(),
            *final(self) == (Draw3dContext { state: DrawContextState::Init, ..*old(self) }),
    {
        self.state = DrawContextState::Init;
    }

    /// Closes `init` or `render`: no drawing or loading call is legal until the next one.
    pub fn end_phase(&mut self)
        requires
            old(self).wf(),
        ensures
            final(self).wf(),
            *final(self) == (Draw3dContext { state: DrawContextState::Invalid, ..*old(self) }),
    {
        self.state = DrawContextState::Invalid;
    }

    /// Opens `render`: the pass starts empty and drawing calls become legal.
    pub fn begin_render(&mut self)
        requires
            old(self).wf(),
        ensures
            final(self).wf(),
            final(self).vrp.is_empty(),
            final(self).state == DrawContextState::Draw,
            final(self).texture_count == old(self).texture_count,
            final(self).meshes@ == old(self).meshes@,
            final(self).indexed_meshes@ == old(self).indexed_meshes@,
    {
        self.vrp.reset();
        self.state = DrawContextState::Draw;
    }

    /// Closes `render` and returns what the backend is to execute: `None` when the pass
    /// holds no complete instance, and is skipped whole.
    pub fn end_render(&mut self) -> (r: Option<Vec<RenderOp>>)
        requires
            old(self).wf(),
        ensures
            final(self).wf(),
            *final(self) == (Draw3dContext { state: DrawContextState::Invalid, ..*old(self) }),
            r is None <==> (old(self).vrp.instance_count == 0 || !plan_fold(old(self).vrp.commands@).0),
            r is Some ==> r->0@ == plan_fold(old(self).vrp.commands@).3,
    {
        self.state = DrawContextState::Invalid;
        self.vrp.plan()
    }

    /// The first reason `draw_tri_list` refuses its arguments, if any.
    pub open spec fn tri_list_check(self, mem_len: int, data_ptr: i32, len: i32, pipeline: i32) -> Option<DrawError> {
        if self.state != DrawContextState::Draw {
            Some(DrawError::OutsideDraw)
        } else if Pipeline::from_i32_spec(pipeline) is None {
            Some(DrawError::InvalidPipeline)
        } else if !(len >= 0 && range_ok(mem_len, data_ptr, 4 * len)) {
            Some(DrawError::OutOfBounds)
        } else if (len as int) % (Pipeline::from_i32_spec(pipeline)->0.attribute_count_spec() as int) != 0 {
            Some(DrawError::SizeMismatch)
        } else if self.vrp.immediate_buffer_last_index + 4 * len > BUFFER_BYTES {
            Some(DrawError::BufferFull)
        } else {
            None
        }
    }

    /// Records an immediate vertex run of `len` floats at `data_ptr`. On success the vertex
    /// data is to be copied to the end of the vertex buffer, as the returned write says.
    pub fn draw_tri_list(&mut self, mem_len: usize, data_ptr: i32, len: i32, pipeline: i32) -> (r:
        Result<BufferWrite, DrawError>)
        requires
            old(self).wf(),
        ensures
            final(self).wf(),
            r is Err <==> old(self).tri_list_check(mem_len as int, data_ptr, len, pipeline) is Some,
            r is Err ==> Some(r->Err_0) == old(self).tri_list_check(mem_len as int, data_ptr, len, pipeline)
                && *final(self) == *old(self),
            r is Ok ==> ({
                let p = Pipeline::from_i32_spec(pipeline)->0;
                let start = old(self).vrp.immediate_buffer_last_index;
                &&& r->Ok_0 == (BufferWrite {
                    buffer: GpuBuffer::ImmediateVertices,
                    offset: start,
                    source: WriteSource::Guest { offset: guest_addr(data_ptr) as usize, len: (4 * len) as usize },
                })
                &&& final(self).vrp.commands@ == old(self).vrp.commands@.push(Command::SetPipeline(p)).push(
                    Command::Draw { byte_offset: start, vertex_count: ((len as int) / (p.attribute_count_spec() as int)) as u32 },
                )
                &&& final(self).vrp.immediate_buffer_last_index == start + 4 * len
                &&& final(self).same_resources(*old(self))
                &&& final(self).vrp.instance_count == old(self).vrp.instance_count
            }),
    {
        if self.state != DrawContextState::Draw {
            return Err(DrawError::OutsideDraw);
        }
        let p = match Pipeline::try_from(pipeline) {
            Ok(p) => p,
            Err(_) => {
                return Err(DrawError::InvalidPipeline);
            },
        };
        let (offset, bytes) = match checked_range(mem_len, data_ptr, len, 4) {
            Some(range) => range,
            None => {
                return Err(DrawError::OutOfBounds);
            },
        };
        let attribute_count = p.get_attribute_count();
        let total = len as usize;
        if total % attribute_count != 0 {
            return Err(DrawError::SizeMismatch);
        }
        let start = self.vrp.immediate_buffer_last_index;
        if start + bytes as u64 > BUFFER_BYTES {
            return Err(DrawError::BufferFull);
        }
        let vertex_count = (total / attribute_count) as u32;
        self.record(Command::SetPipeline(p));
        self.record(Command::Draw { byte_offset: start, vertex_count });
        self.vrp.immediate_buffer_last_index = start + bytes as u64;
        proof {
            assert(self.vrp.commands@ =~= old(self).vrp.commands@.push(Command::SetPipeline(p)).push(
                Command::Draw { byte_offset: start, vertex_count },
            ));
        }
        Ok(
            BufferWrite {
                buffer: GpuBuffer::ImmediateVertices,
                offset: start,
                source: WriteSource::Guest { offset, len: bytes },
            },
        )
    }
}

/// Outside `render` every draw-only call is refused as `OutsideDraw`, whatever its
/// arguments; each such call then leaves the context, and so the command list, unchanged.
pub proof fn lemma_draw_calls_gated(
    ctx: Draw3dContext,
    mem_len: int,
    ptr: i32,
    second_ptr: i32,
    len: i32,
    pipeline: i32,
    id: i32,
    layer: i32,
)
    requires
        ctx.state != DrawContextState::Draw,
    ensures
        ctx.tri_list_check(mem_len, ptr, len, pipeline) == Some(DrawError::OutsideDraw),
        ctx.matrix_check(mem_len, ptr, MATRIX_BYTES as int, ctx.vrp.model_matrix_count) == Some(
            DrawError::OutsideDraw,
        ),
        ctx.matrix_check(mem_len, ptr, MATRIX_BYTES as int, ctx.vrp.projection_matrix_count)
            == Some(DrawError::OutsideDraw),
        ctx.view_check(mem_len, ptr, second_ptr) == Some(DrawError::OutsideDraw),
        ctx.light_check(mem_len, ptr) == Some(DrawError::OutsideDraw),
        ctx.resource_check(id, ctx.meshes@.len() as int, DrawError::UnknownMesh) == Some(
            DrawError::OutsideDraw,
        ),
        ctx.resource_check(id, ctx.indexed_meshes@.len() as int, DrawError::UnknownMesh) == Some(
            DrawError::OutsideDraw,
        ),
        ctx.resource_check(id, ctx.texture_count as int, DrawError::UnknownTexture) == Some(
            DrawError::OutsideDraw,
        ),
        ctx.bind_check(id, layer) == Some(DrawError::OutsideDraw),
{
}

} // verus!
