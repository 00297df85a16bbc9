use vstd::prelude::*;

use crate::pipeline::Pipeline;

verus! {

/// Size in bytes of each per-frame buffer the backend allocates (vertices, matrices,
/// positions, instances).
pub const BUFFER_BYTES: u64 = 8 * 1024 * 1024;

pub const MATRIX_BYTES: u64 = 64;

/// Stride of a camera position: a three-float vector padded to four.
pub const POSITION_STRIDE: u64 = 16;

pub const INSTANCE_BYTES: u64 = 16;

pub const LIGHT_BYTES: u64 = 48;

/// Matrices of one kind that fit in one buffer.
pub const MAX_MATRICES: u64 = BUFFER_BYTES / MATRIX_BYTES;

pub const MAX_INSTANCES: u64 = BUFFER_BYTES / INSTANCE_BYTES;

/// Lights the light buffer holds.
pub const MAX_LIGHTS: u64 = 4;

/// Texture layers a draw samples.
pub const TEXTURE_LAYERS: usize = 4;

/// Indices of the two triangles of a unit quad whose corners are numbered top-left,
/// top-right, bottom-left, bottom-right.
pub fn quad_indices() -> (r: [u16; 6])
    ensures
        r@ == seq![0u16, 1, 2, 1, 3, 2],
{
    let r = [0, 1, 2, 1, 3, 2];
    assert(r@ =~= seq![0u16, 1, 2, 1, 3, 2]);
    r
}

/// One recorded operation of a render pass.
#[derive(Debug, Clone, Copy, PartialEq, Eq, Structural)]
pub enum Command {
    SetPipeline(Pipeline),
    /// An immediate vertex run: where it starts in the vertex buffer and how many vertices.
    Draw { byte_offset: u64, vertex_count: u32 },
    /// Texture id, layer, blend mode.
    SetTexture(usize, usize, usize),
    /// Matcap id, layer, blend mode.
    SetMatcap(usize, usize, usize),
    ClearTextures,
    /// Closes one push of model, view and projection into a draw instance.
    UpdateInstance,
    DrawStaticMesh(usize),
    DrawStaticMeshIndexed(usize),
    DrawSprite(usize),
}

impl Command {
    pub open spec fn is_draw(self) -> bool {
        match self {
            Command::Draw { .. } | Command::DrawStaticMesh(_) | Command::DrawStaticMeshIndexed(_)
            | Command::DrawSprite(_) => true,
            _ => false,
        }
    }

    /// Layers named by texture commands exist.
    pub open spec fn wf(self) -> bool {
        match self {
            Command::SetTexture(_, layer, _) | Command::SetMatcap(_, layer, _) => layer
                < TEXTURE_LAYERS,
            _ => true,
        }
    }
}

/// What one texture layer samples and how it blends.
#[derive(Debug, Clone, Copy, PartialEq, Eq, Structural)]
pub struct TextureLayer {
    pub texture: usize,
    pub blend_mode: u8,
    pub is_matcap: bool,
}

/// The texture layers bound for the following draws.
#[derive(Debug, Clone, Copy, PartialEq, Eq, Structural)]
pub struct TextureStates {
    pub layer0: TextureLayer,
    pub layer1: TextureLayer,
    pub layer2: TextureLayer,
    pub layer3: TextureLayer,
}

pub open spec fn matcap_bit(b: bool, i: nat) -> u8 {
    if b {
        (pow2_u8(i)) as u8
    } else {
        0
    }
}

pub open spec fn pow2_u8(i: nat) -> nat
    decreases i,
{
    if i == 0 {
        1
    } else {
        2 * pow2_u8((i - 1) as nat)
    }
}

impl TextureStates {
    pub open spec fn cleared() -> TextureStates {
        let l = TextureLayer { texture: 0, blend_mode: 0, is_matcap: false };
        TextureStates { layer0: l, layer1: l, layer2: l, layer3: l }
    }

    /// Every layer samples texture 0, the console's default, with blend mode 0.
    pub fn new() -> (r: TextureStates)
        ensures
            r == Self::cleared(),
    {
        let l = TextureLayer { texture: 0, blend_mode: 0, is_matcap: false };
        TextureStates { layer0: l, layer1: l, layer2: l, layer3: l }
    }

    pub open spec fn with_layer(self, layer: usize, l: TextureLayer) -> TextureStates {
        if layer == 0 {
            TextureStates { layer0: l, ..self }
        } else if layer == 1 {
            TextureStates { layer1: l, ..self }
        } else if layer == 2 {
            TextureStates { layer2: l, ..self }
        } else {
            TextureStates { layer3: l, ..self }
        }
    }

    /// Points `layer` at `index`; the blend mode keeps its low eight bits.
    pub fn set_texture(&mut self, index: usize, layer: usize, blend_mode: usize, is_matcap: bool)
        requires
            layer < TEXTURE_LAYERS,
        ensures
            *final(self) == old(self).with_layer(
                layer,
                TextureLayer { texture: index, blend_mode: blend_mode as u8, is_matcap },
            ),
    {
        let l = TextureLayer { texture: index, blend_mode: blend_mode as u8, is_matcap };
        if layer == 0 {
            self.layer0 = l;
        } else if layer == 1 {
            self.layer1 = l;
        } else if layer == 2 {
            self.layer2 = l;
        } else {
            self.layer3 = l;
        }
    }

    /// The fragment push constants: the four blend modes, then the matcap flags as a
    /// little-endian 32-bit mask, bit `i` for layer `i`.
    pub open spec fn push_constants_spec(self) -> Seq<u8> {
        seq![
            self.layer0.blend_mode,
            self.layer1.blend_mode,
            self.layer2.blend_mode,
            self.layer3.blend_mode,
            (matcap_bit(self.layer0.is_matcap, 0) + matcap_bit(self.layer1.is_matcap, 1)
                + matcap_bit(self.layer2.is_matcap, 2) + matcap_bit(self.layer3.is_matcap, 3)) as u8,
            0u8,
            0u8,
            0u8,
        ]
    }

    pub fn to_push_constants(&self) -> (r: [u8; 8])
        ensures
            r@ == self.push_constants_spec(),
    {
        proof {
            reveal_with_fuel(pow2_u8, 4);
        }
        let m0: u8 = if self.layer0.is_matcap { 1 } else { 0 };
        let m1: u8 = if self.layer1.is_matcap { 2 } else { 0 };
        let m2: u8 = if self.layer2.is_matcap { 4 } else { 0 };
        let m3: u8 = if self.layer3.is_matcap { 8 } else { 0 };
        let r = [
            self.layer0.blend_mode,
            self.layer1.blend_mode,
            self.layer2.blend_mode,
            self.layer3.blend_mode,
            m0 + m1 + m2 + m3,
            0,
            0,
            0,
        ];
        assert(r@ =~= self.push_constants_spec());
        r
    }
}

/// One operation for the backend to perform, in order, against a render pass.
#[derive(Debug, Clone, Copy, PartialEq, Eq, Structural)]
pub enum RenderOp {
    /// Bind these texture layers for the following draws.
    BindTextures(TextureStates),
    /// Switch to the pipeline with this shader index; its fragment push constants come
    /// from the bound layers (see [`TextureStates::to_push_constants`]).
    UsePipeline { shader: usize, textures: TextureStates },
    DrawImmediate { byte_offset: u64, vertex_count: u32, instance: u32 },
    /// Draw a preloaded mesh with its own pipeline, pushing constants for these layers.
    DrawStaticMesh { mesh: usize, textures: TextureStates, instance: u32 },
    DrawStaticMeshIndexed { mesh: usize, textures: TextureStates, instance: u32 },
    DrawSprite { sprite: usize, instance: u32 },
}

/// State of a replay of a command list: whether it is still valid, instances closed so
/// far, bound textures, and the operations emitted.
pub type PlanState = (bool, nat, TextureStates, Seq<RenderOp>);

/// One command of the replay. A draw before the first closed instance invalidates it.
pub open spec fn plan_step(st: PlanState, c: Command) -> PlanState {
    let (ok, inst, tex, ops) = st;
    let inst2 = if c is UpdateInstance {
        inst + 1
    } else {
        inst
    };
    if !ok || (c.is_draw() && inst == 0) {
        (false, inst2, tex, ops)
    } else {
        match c {
            Command::SetPipeline(p) => (
                true,
                inst2,
                tex,
                ops.push(
                    RenderOp::UsePipeline {
                        shader: p.shader_spec(),
                        textures: tex,
                    },
                ),
            ),
            Command::Draw { byte_offset, vertex_count } => (
                true,
                inst2,
                tex,
                ops.push(
                    RenderOp::DrawImmediate {
                        byte_offset,
                        vertex_count,
                        instance: (inst - 1) as u32,
                    },
                ),
            ),
            Command::SetTexture(t, layer, blend) => {
                let tex2 = tex.with_layer(
                    layer,
                    TextureLayer { texture: t, blend_mode: blend as u8, is_matcap: false },
                );
                (true, inst2, tex2, ops.push(RenderOp::BindTextures(tex2)))
            },
            Command::SetMatcap(t, layer, blend) => {
                let tex2 = tex.with_layer(
                    layer,
                    TextureLayer { texture: t, blend_mode: blend as u8, is_matcap: true },
                );
                (true, inst2, tex2, ops.push(RenderOp::BindTextures(tex2)))
            },
            Command::ClearTextures => (
                true,
                inst2,
                TextureStates::cleared(),
                ops.push(RenderOp::BindTextures(TextureStates::cleared())),
            ),
            Command::UpdateInstance => (true, inst2, tex, ops),
            Command::DrawStaticMesh(m) => (
                true,
                inst2,
                tex,
                ops.push(
                    RenderOp::DrawStaticMesh {
                        mesh: m,
                        textures: tex,
                        instance: (inst - 1) as u32,
                    },
                ),
            ),
            Command::DrawStaticMeshIndexed(m) => (
                true,
                inst2,
                tex,
                ops.push(
                    RenderOp::DrawStaticMeshIndexed {
                        mesh: m,
                        textures: tex,
                        instance: (inst - 1) as u32,
                    },
                ),
            ),
            Command::DrawSprite(s) => (
                true,
                inst2,
                tex,
                ops.push(RenderOp::DrawSprite { sprite: s, instance: (inst - 1) as u32 }),
            ),
        }
    }
}

/// The replay of a whole command list, starting with the cleared texture layers bound.
pub open spec fn plan_fold(cmds: Seq<Command>) -> PlanState
    decreases cmds.len(),
{
    if cmds.len() == 0 {
        (true, 0, TextureStates::cleared(), seq![RenderOp::BindTextures(TextureStates::cleared())])
    } else {
        plan_step(plan_fold(cmds.drop_last()), cmds.last())
    }
}

proof fn lemma_fold_instances_monotone(cmds: Seq<Command>, i: int)
    requires
        0 <= i <= cmds.len(),
    ensures
        plan_fold(cmds.subrange(0, i)).1 <= plan_fold(cmds).1,
    decreases cmds.len() - i,
{
    if i < cmds.len() {
        lemma_fold_instances_monotone(cmds, i + 1);
        assert(cmds.subrange(0, i + 1).drop_last() =~= cmds.subrange(0, i));
    } else {
        assert(cmds.subrange(0, i) =~= cmds);
    }
}

/// Appending a command replays as one more step.
pub proof fn lemma_fold_push(cmds: Seq<Command>, c: Command)
    ensures
        plan_fold(cmds.push(c)) == plan_step(plan_fold(cmds), c),
{
    assert(cmds.push(c).drop_last() =~= cmds);
}

/// The draw operations of one render pass, recorded during a guest's `render` and executed
/// by the backend afterwards.
#[derive(Debug)]
pub struct VirtualRenderPass {
    pub commands: Vec<Command>,
    pub immediate_buffer_last_index: u64,
    pub instance_count: u64,
    pub light_count: u64,
    pub model_matrix_count: u64,
    pub view_pos_count: u64,
    pub projection_matrix_count: u64,
}

/// A GPU buffer that a recorded operation fills.
#[derive(Debug, Clone, Copy, PartialEq, Eq, Structural)]
pub enum GpuBuffer {
    ImmediateVertices,
    Model,
    View,
    CameraPosition,
    Projection,
    Instance,
    Lights,
}

/// Where the bytes of a buffer write come from.
#[derive(Debug, Clone, Copy, PartialEq, Eq)]
pub enum WriteSource {
    /// `len` bytes of guest memory starting at `offset`.
    Guest { offset: usize, len: usize },
    /// The model, view and projection indices and the light count of one instance.
    Instance([u32; 4]),
}

/// A write into a GPU buffer at a byte offset, for the backend to perform.
#[derive(Debug, Clone, Copy, PartialEq, Eq)]
pub struct BufferWrite {
    pub buffer: GpuBuffer,
    pub offset: u64,
    pub source: WriteSource,
}

impl VirtualRenderPass {
    pub open spec fn wf(self) -> bool {
        &&& self.model_matrix_count <= MAX_MATRICES
        &&& self.view_pos_count <= MAX_MATRICES
        &&& self.projection_matrix_count <= MAX_MATRICES
        &&& self.light_count <= MAX_LIGHTS
        &&& self.instance_count <= MAX_INSTANCES
        &&& self.immediate_buffer_last_index <= BUFFER_BYTES
        &&& self.instance_count > 0 ==> self.model_matrix_count > 0 && self.view_pos_count > 0
            && self.projection_matrix_count > 0
        &&& plan_fold(self.commands@).1 == self.instance_count
        &&& forall|i: int| 0 <= i < self.commands@.len() ==> (#[trigger] self.commands@[i]).wf()
    }

    /// Whether every kind of matrix has been pushed at least once.
    pub open spec fn has_instance_data(self) -> bool {
        self.model_matrix_count > 0 && self.view_pos_count > 0 && self.projection_matrix_count > 0
    }

    pub open spec fn is_empty(self) -> bool {
        &&& self.commands@.len() == 0
        &&& self.immediate_buffer_last_index == 0
        &&& self.instance_count == 0
        &&& self.light_count == 0
        &&& self.model_matrix_count == 0
        &&& self.view_pos_count == 0
        &&& self.projection_matrix_count == 0
    }

    pub fn new() -> (r: Self)
        ensures
            r.is_empty(),
            r.wf(),
    {
        VirtualRenderPass {
            commands: Vec::new(),
            instance_count: 0,
            light_count: 0,
            immediate_buffer_last_index: 0,
            model_matrix_count: 0,
            view_pos_count: 0,
            projection_matrix_count: 0,
        }
    }

    /// The latest model, view and projection indices and the light count, once each kind
    /// of matrix has been pushed.
    pub fn get_instance_data(&self) -> (r: Option<[u32; 4]>)
        requires
            self.wf(),
        ensures
            r is Some <==> self.has_instance_data(),
            r is Some ==> r->0@ == seq![
                (self.model_matrix_count - 1) as u32,
                (self.view_pos_count - 1) as u32,
                (self.projection_matrix_count - 1) as u32,
                self.light_count as u32,
            ],
    {
        if self.model_matrix_count == 0 || self.view_pos_count == 0
            || self.projection_matrix_count == 0 {
            None
        } else {
            let r = [
                self.model_matrix_count as u32 - 1,
                self.view_pos_count as u32 - 1,
                self.projection_matrix_count as u32 - 1,
                self.light_count as u32,
            ];
            assert(r@ =~= seq![
                (self.model_matrix_count - 1) as u32,
                (self.view_pos_count - 1) as u32,
                (self.projection_matrix_count - 1) as u32,
                self.light_count as u32,
            ]);
            Some(r)
        }
    }

    /// Closes an instance from the latest matrices, if every kind has been pushed.
    fn write_buffer(&mut self) -> (r: Option<BufferWrite>)
        requires
            old(self).wf(),
            old(self).instance_count < MAX_INSTANCES,
        ensures
            final(self).wf(),
            r is Some <==> old(self).has_instance_data(),
            r is Some ==> final(self).instance_count == old(self).instance_count + 1
                && final(self).commands@ == old(self).commands@.push(Command::UpdateInstance)
                && final(self).instance_write(r->0, old(self).instance_count),
            r is None ==> final(self).instance_count == old(self).instance_count
                && final(self).commands@ == old(self).commands@,
            final(self).model_matrix_count == old(self).model_matrix_count,
            final(self).view_pos_count == old(self).view_pos_count,
            final(self).projection_matrix_count == old(self).projection_matrix_count,
            final(self).light_count == old(self).light_count,
            final(self).immediate_buffer_last_index == old(self).immediate_buffer_last_index,
    {
        let offset = self.instance_count * INSTANCE_BYTES;
        if self.model_matrix_count == 0 || self.view_pos_count == 0
            || self.projection_matrix_count == 0 {
            return None;
        }
        let data = [
            self.model_matrix_count as u32 - 1,
            self.view_pos_count as u32 - 1,
            self.projection_matrix_count as u32 - 1,
            self.light_count as u32,
        ];
        proof {
            lemma_fold_push(self.commands@, Command::UpdateInstance);
        }
        self.instance_count = self.instance_count + 1;
        self.commands.push(Command::UpdateInstance);
        proof {
            assert forall|i: int| 0 <= i < self.commands@.len() implies (#[trigger] self.commands@[i]).wf() by {
                if i < self.commands@.len() - 1 {
                    assert(self.commands@[i] == old(self).commands@[i]);
                }
            }
        }
        assert(data@ =~= seq![
            (self.model_matrix_count - 1) as u32,
            (self.view_pos_count - 1) as u32,
            (self.projection_matrix_count - 1) as u32,
            self.light_count as u32,
        ]);
        Some(BufferWrite { buffer: GpuBuffer::Instance, offset, source: WriteSource::Instance(data) })
    }

    /// Counts one more model matrix and closes an instance if the other kinds exist.
    pub fn push_model_matrix(&mut self) -> (r: Option<BufferWrite>)
        requires
            old(self).wf(),
            old(self).model_matrix_count < MAX_MATRICES,
            old(self).instance_count < MAX_INSTANCES,
        ensures
            final(self).wf(),
            final(self).model_matrix_count == old(self).model_matrix_count + 1,
            final(self).view_pos_count == old(self).view_pos_count,
            final(self).projection_matrix_count == old(self).projection_matrix_count,
            final(self).closed_instance(*old(self), r),
    {
        self.model_matrix_count = self.model_matrix_count + 1;
        self.write_buffer()
    }

    /// Counts one more view matrix and camera position and closes an instance if the other
    /// kinds exist.
    pub fn push_view_pos(&mut self) -> (r: Option<BufferWrite>)
        requires
            old(self).wf(),
            old(self).view_pos_count < MAX_MATRICES,
            old(self).instance_count < MAX_INSTANCES,
        ensures
            final(self).wf(),
            final(self).model_matrix_count == old(self).model_matrix_count,
            final(self).view_pos_count == old(self).view_pos_count + 1,
            final(self).projection_matrix_count == old(self).projection_matrix_count,
            final(self).closed_instance(*old(self), r),
    {
        self.view_pos_count = self.view_pos_count + 1;
        self.write_buffer()
    }

    /// Counts one more projection matrix and closes an instance if the other kinds exist.
    pub fn push_proj_matrix(&mut self) -> (r: Option<BufferWrite>)
        requires
            old(self).wf(),
            old(self).projection_matrix_count < MAX_MATRICES,
            old(self).instance_count < MAX_INSTANCES,
        ensures
            final(self).wf(),
            final(self).model_matrix_count == old(self).model_matrix_count,
            final(self).view_pos_count == old(self).view_pos_count,
            final(self).projection_matrix_count == old(self).projection_matrix_count + 1,
            final(self).closed_instance(*old(self), r),
    {
        self.projection_matrix_count = self.projection_matrix_count + 1;
        self.write_buffer()
    }

    /// `w` writes this pass's latest instance data into slot `slot` of the instance buffer.
    pub open spec fn instance_write(self, w: BufferWrite, slot: u64) -> bool {
        &&& w.buffer == GpuBuffer::Instance
        &&& w.offset == slot * INSTANCE_BYTES
        &&& match w.source {
            WriteSource::Instance(d) => d@ == seq![
                (self.model_matrix_count - 1) as u32,
                (self.view_pos_count - 1) as u32,
                (self.projection_matrix_count - 1) as u32,
                self.light_count as u32,
            ],
            _ => false,
        }
    }

    /// How a push relates the pass after it to the pass before: an instance is closed
    /// exactly when every kind of matrix now exists; lights and vertices are untouched.
    pub open spec fn closed_instance(self, before: Self, r: Option<BufferWrite>) -> bool {
        &&& r is Some <==> self.has_instance_data()
        &&& r is Some ==> self.instance_count == before.instance_count + 1
            && self.commands@ == before.commands@.push(Command::UpdateInstance)
            && self.instance_write(r->0, before.instance_count)
        &&& r is None ==> self.instance_count == before.instance_count && self.commands@
            == before.commands@
        &&& self.light_count == before.light_count
        &&& self.immediate_buffer_last_index == before.immediate_buffer_last_index
    }

    /// Forgets everything recorded: the next render starts from an empty pass.
    pub fn reset(&mut self)
        ensures
            final(self).is_empty(),
            final(self).wf(),
    {
        self.commands.clear();
        self.instance_count = 0;
        self.light_count = 0;
        self.immediate_buffer_last_index = 0;
        self.model_matrix_count = 0;
        self.view_pos_count = 0;
        self.projection_matrix_count = 0;
    }

    /// The operations that execute this pass, in order. With no closed instance, or with a
    /// draw recorded before the first instance, the pass is skipped whole: `None`.
    pub fn plan(&self) -> (r: Option<Vec<RenderOp>>)
        requires
            self.wf(),
        ensures
            r is None <==> (self.instance_count == 0 || !plan_fold(self.commands@).0),
            r is Some ==> r->0@ == plan_fold(self.commands@).3,
            !self.has_instance_data() ==> r is None,
    {
        if self.instance_count == 0 {
            return None;
        }
        let mut ok = true;
        let mut inst: u64 = 0;
        let mut tex = TextureStates::new();
        let mut ops: Vec<RenderOp> = Vec::new();
        ops.push(RenderOp::BindTextures(tex));
        let n = self.commands.len();
        let mut i: usize = 0;
        proof {
            assert(self.commands@.subrange(0, 0) =~= Seq::<Command>::empty());
            assert(ops@ =~= seq![RenderOp::BindTextures(TextureStates::cleared())]);
        }
        while i < n
            invariant
                n == self.commands@.len(),
                self.wf(),
                i <= n,
                (ok, inst as nat, tex, ops@) == plan_fold(self.commands@.subrange(0, i as int)),
                inst <= self.instance_count,
            decreases n - i,
        {
            let c = self.commands[i];
            proof {
                assert(self.commands@.subrange(0, i + 1).drop_last() =~= self.commands@.subrange(
                    0,
                    i as int,
                ));
                lemma_fold_instances_monotone(self.commands@, i + 1);
            }
            let is_draw = match c {
                Command::Draw { .. } | Command::DrawStaticMesh(_) | Command::DrawStaticMeshIndexed(
                    _,
                ) | Command::DrawSprite(_) => true,
                _ => false,
            };
            if !ok || (is_draw && inst == 0) {
                ok = false;
                if c == Command::UpdateInstance {
                    inst = inst + 1;
                }
            } else {
                match c {
                    Command::SetPipeline(p) => {
                        ops.push(RenderOp::UsePipeline { shader: p.get_shader(), textures: tex });
                    },
                    Command::Draw { byte_offset, vertex_count } => {
                        ops.push(
                            RenderOp::DrawImmediate {
                                byte_offset,
                                vertex_count,
                                instance: (inst - 1) as u32,
                            },
                        );
                    },
                    Command::SetTexture(t, layer, blend) => {
                        tex.set_texture(t, layer, blend, false);
                        ops.push(RenderOp::BindTextures(tex));
                    },
                    Command::SetMatcap(t, layer, blend) => {
                        tex.set_texture(t, layer, blend, true);
                        ops.push(RenderOp::BindTextures(tex));
                    },
                    Command::ClearTextures => {
                        tex = TextureStates::new();
                        ops.push(RenderOp::BindTextures(tex));
                    },
                    Command::UpdateInstance => {
                        inst = inst + 1;
                    },
                    Command::DrawStaticMesh(m) => {
                        ops.push(
                            RenderOp::DrawStaticMesh {
                                mesh: m,
                                textures: tex,
                                instance: (inst - 1) as u32,
                            },
                        );
                    },
                    Command::DrawStaticMeshIndexed(m) => {
                        ops.push(
                            RenderOp::DrawStaticMeshIndexed {
                                mesh: m,
                                textures: tex,
                                instance: (inst - 1) as u32,
                            },
                        );
                    },
                    Command::DrawSprite(sp) => {
                        ops.push(RenderOp::DrawSprite { sprite: sp, instance: (inst - 1) as u32 });
                    },
                }
            }
            i = i + 1;
        }
        proof {
            assert(self.commands@.subrange(0, n as int) =~= self.commands@);
        }
        if ok {
            Some(ops)
        } else {
            None
        }
    }
}

/// A pass in which no view or no projection matrix was pushed holds no instance, so it is
/// skipped whole rather than drawn in part.
pub proof fn lemma_no_matrices_no_pass(vrp: VirtualRenderPass)
    requires
        vrp.wf(),
        vrp.view_pos_count == 0 || vrp.projection_matrix_count == 0,
    ensures
        vrp.instance_count == 0,
{
}

} // verus!
