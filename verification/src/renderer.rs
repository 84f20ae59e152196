//! The resource manager: flat tables of pipelines, textures, render objects
//! and buffers, addressed by handles that are plain table positions.
//!
//! The tables are the plan of what lives on the graphics device. Whoever owns
//! the device keeps one device resource per table row, creates a resource for
//! every row that an operation appends, and replaces the resource of every row
//! that an operation rewrites.

use vstd::prelude::*;
use crate::handles::{RObjectId, RPipelineId, RTextureId};
use crate::pipeline::{
    spec_vertex_stride, vertex_stride, RCullMode, RPipelineSetup, RPolyMode, RShader, RShaderKind,
};
use crate::sdf::{pack_sdf_objects, spec_sdf_count, spec_sdf_words, sys_data, RSDFObject, SysData};
use crate::text::{resolve_font, spec_resolve_font, StringPlacement};
use crate::update::{
    pack_joints, spec_joint_count, spec_joint_words, spec_merge_mvp, RCamera, RObjectUpdate,
};
use crate::vertex::{
    pack_anim_vertices, pack_vertices, spec_anim_vertex_words, spec_vertex_words, RVertex, RVertexAnim,
};
use crate::words::{words_of, Vec2};

verus! {

/// What a buffer is bound as.
#[derive(Debug, Clone, Copy, PartialEq, Eq, Structural)]
pub enum RBufferUse {
    Vertex,
    Index,
    Uniform,
}

/// One buffer on the device.
#[derive(Debug, Clone, Copy, PartialEq, Eq, Structural)]
pub struct RBuffer {
    pub size: u64,
    pub usage: RBufferUse,
}

/// Pixel format of a texture row.
#[derive(Debug, Clone, Copy, PartialEq, Eq, Structural)]
pub enum RTextureFormat {
    /// Eight bits per channel, unsigned normalized.
    Rgba8,
    /// Whatever format the screen surface uses.
    Screen,
    /// Depth, for the depth companion.
    Depth,
}

/// One image on the device.
#[derive(Debug, Clone, Copy, PartialEq, Eq, Structural)]
pub struct RTexture {
    pub width: u32,
    pub height: u32,
    pub samples: u32,
    pub format: RTextureFormat,
}

/// One pipeline and the objects it draws, in insertion order.
#[derive(Debug)]
pub struct RPipeline {
    pub obj_indices: Vec<usize>,
    pub shader: RShaderKind,
    pub has_animations: bool,
    pub cull_mode: RCullMode,
    pub poly_mode: RPolyMode,
    pub max_obj_count: Option<usize>,
}

/// What is needed to create a render object. An animated pipeline reads
/// `anim_vertex_data`, any other pipeline `vertex_data`.
#[derive(Debug)]
pub struct RObjectSetup {
    pub pipeline_id: RPipelineId,
    pub vertex_data: Vec<RVertex>,
    pub instances: u32,
    pub indices: Vec<u32>,
    pub anim_vertex_data: Vec<RVertexAnim>,
    pub texture1_id: Option<RTextureId>,
    pub texture2_id: Option<RTextureId>,
    pub max_joints: usize,
}

/// One drawable instance. The buffer fields are positions in the buffer table.
#[derive(Debug, Clone, Copy, PartialEq, Eq, Structural)]
pub struct RObject {
    pub visible: bool,
    pub pipe_id: RPipelineId,
    pub v_buffer: usize,
    pub v_count: usize,
    pub max_joints: usize,
    pub index_buffer: Option<usize>,
    pub index_count: u32,
    pub instances: u32,
    pub mvp_buffer: usize,
    pub gen_buffer: usize,
    pub joints_buffer: Option<usize>,
    pub texture1: Option<RTextureId>,
    pub texture2: Option<RTextureId>,
}

/// One draw call of a frame. `object` is the position of the object drawn,
/// in the object table of whoever made the frame.
#[derive(Debug, Clone, Copy, PartialEq, Eq, Structural)]
pub enum RDrawCall {
    /// Draw `index_count` indices of the object's index buffer.
    Indexed { object: usize, index_count: u32, instances: u32 },
    /// Draw the object's first `vertex_count` vertices.
    Plain { object: usize, vertex_count: u32, instances: u32 },
}

/// Words to be written to a buffer, from its start.
#[derive(Debug)]
pub struct RBufferWrite {
    pub buffer: usize,
    pub words: Vec<u32>,
}

/// The resource manager's tables.
#[derive(Debug)]
pub struct Renderer {
    pub width: u32,
    pub height: u32,
    pub min_stride: u32,
    pub default_cam: RCamera,
    pub font_cache: Vec<Vec<u8>>,
    pub str_placements: Vec<StringPlacement>,
    pub pipelines: Vec<RPipeline>,
    pub textures: Vec<RTexture>,
    pub objects: Vec<RObject>,
    pub buffers: Vec<RBuffer>,
}

/// Number of uniform strides that the shape buffer of a shape pipeline
/// spans.
pub const SDF_BUFFER_SLOTS: u64 = 100;

/// Bytes per index.
pub const INDEX_BYTES: u64 = 4;

/// Bytes of one joint transform: a 4x4 matrix of 32-bit words.
pub const JOINT_BYTES: u64 = 64;

/// The draw call that a visible object contributes.
pub open spec fn spec_draw_call(o: RObject, object: int) -> RDrawCall {
    if o.index_buffer.is_some() {
        RDrawCall::Indexed {
            object: object as usize,
            index_count: o.index_count,
            instances: o.instances,
        }
    } else {
        RDrawCall::Plain {
            object: object as usize,
            vertex_count: o.v_count as u32,
            instances: o.instances,
        }
    }
}

/// The draw calls of the first `upto` entries of one pipeline's object list:
/// insertion order, invisible objects left out.
pub open spec fn spec_pipeline_draws(objects: Seq<RObject>, indices: Seq<usize>, upto: int) -> Seq<
    RDrawCall,
>
    decreases upto,
{
    if upto <= 0 {
        Seq::empty()
    } else {
        let before = spec_pipeline_draws(objects, indices, upto - 1);
        let id = indices[upto - 1] as int;
        if objects[id].visible {
            before.push(spec_draw_call(objects[id], id))
        } else {
            before
        }
    }
}

impl RTexture {
    /// The image row of a texture triple.
    pub open spec fn spec_base(width: u32, height: u32, screen_format: bool) -> RTexture {
        RTexture {
            width,
            height,
            samples: 1,
            format: if screen_format {
                RTextureFormat::Screen
            } else {
                RTextureFormat::Rgba8
            },
        }
    }

    /// The multisample companion of a texture triple.
    pub open spec fn spec_msaa(width: u32, height: u32) -> RTexture {
        RTexture { width, height, samples: 4, format: RTextureFormat::Screen }
    }

    /// The depth companion of a texture triple.
    pub open spec fn spec_depth(width: u32, height: u32) -> RTexture {
        RTexture { width, height, samples: 4, format: RTextureFormat::Depth }
    }
}

impl RObjectSetup {
    /// Number of vertices that the object's pipeline will read: the animated
    /// vertices for an animated pipeline, the static ones otherwise.
    pub open spec fn spec_vertices(self, has_animations: bool) -> nat {
        if has_animations {
            self.anim_vertex_data@.len()
        } else {
            self.vertex_data@.len()
        }
    }

    /// The words of the vertices that the object's pipeline will read.
    pub open spec fn spec_vertex_payload(self, has_animations: bool) -> Seq<u32> {
        if has_animations {
            spec_anim_vertex_words(self.anim_vertex_data@)
        } else {
            spec_vertex_words(self.vertex_data@)
        }
    }
}

impl Default for RObjectSetup {
    fn default() -> (setup: Self)
        ensures
            setup.pipeline_id == RPipelineId(0),
            setup.vertex_data@.len() == 0,
            setup.indices@.len() == 0,
            setup.instances == 1,
            setup.anim_vertex_data@.len() == 0,
            setup.texture1_id.is_none(),
            setup.texture2_id.is_none(),
            setup.max_joints == 0,
    {
        RObjectSetup {
            pipeline_id: RPipelineId(0),
            vertex_data: Vec::new(),
            instances: 1,
            indices: Vec::new(),
            anim_vertex_data: Vec::new(),
            texture1_id: None,
            texture2_id: None,
            max_joints: 0,
        }
    }
}

impl Renderer {
    /// A texture handle that the texture table can resolve.
    pub open spec fn texture_ok(self, id: RTextureId) -> bool {
        &&& id.consecutive()
        &&& id.zbuffer < self.textures@.len()
    }

    /// An optional texture handle that is absent or resolvable.
    pub open spec fn texture_opt_ok(self, id: Option<RTextureId>) -> bool {
        id.is_some() ==> self.texture_ok(id.unwrap())
    }

    /// An object row whose references all resolve.
    pub open spec fn object_ok(self, o: RObject) -> bool {
        &&& o.pipe_id.0 < self.pipelines@.len()
        &&& o.v_buffer < self.buffers@.len()
        &&& o.v_count <= u32::MAX
        &&& (o.index_buffer.is_some() ==> o.index_buffer.unwrap() < self.buffers@.len())
        &&& o.mvp_buffer < self.buffers@.len()
        &&& o.gen_buffer < self.buffers@.len()
        &&& (o.joints_buffer.is_some() ==> o.joints_buffer.unwrap() < self.buffers@.len())
        &&& (o.joints_buffer.is_some() <==> self.pipelines@[o.pipe_id.0 as int].has_animations)
        &&& self.texture_opt_ok(o.texture1)
        &&& self.texture_opt_ok(o.texture2)
    }

    /// The tables are consistent: every reference from one table into
    /// another resolves, every pipeline lists objects of its own and no more
    /// of them than it declared, and every object is listed by its pipeline.
    pub open spec fn wf(self) -> bool {
        &&& forall|i: int|
            0 <= i < self.objects@.len() ==> self.object_ok(#[trigger] self.objects@[i])
        &&& forall|p: int, k: int|
            0 <= p < self.pipelines@.len() && 0 <= k < self.pipelines@[p].obj_indices@.len() ==> {
                &&& (#[trigger] self.pipelines@[p].obj_indices@[k]) < self.objects@.len()
                &&& self.objects@[self.pipelines@[p].obj_indices@[k] as int].pipe_id.0 == p
            }
        &&& forall|i: int|
            0 <= i < self.objects@.len() ==> self.pipelines@[(#[trigger] self.objects@[i]).pipe_id.0 as int].obj_indices@.contains(
                i as usize,
            )
        &&& forall|p: int|
            0 <= p < self.pipelines@.len() ==> spec_within_limit(#[trigger] self.pipelines@[p])
    }

    /// Pipeline `p` can take one more object without exceeding the limit it
    /// declared.
    pub open spec fn spec_has_room(self, p: int) -> bool {
        self.pipelines@[p].max_obj_count.is_some() ==> self.pipelines@[p].obj_indices@.len()
            < self.pipelines@[p].max_obj_count.unwrap()
    }

    /// The screen size, the uniform stride and the default camera are those
    /// of `before`.
    pub open spec fn spec_same_screen(self, before: Renderer) -> bool {
        &&& self.width == before.width
        &&& self.height == before.height
        &&& self.min_stride == before.min_stride
        &&& self.default_cam == before.default_cam
    }

    /// The font cache and the overlay queue are those of `before`.
    pub open spec fn spec_same_text(self, before: Renderer) -> bool {
        &&& self.font_cache == before.font_cache
        &&& self.str_placements == before.str_placements
    }

    /// Nothing that `before` handed out a handle for has been lost or moved:
    /// no table is shorter, every buffer is the buffer it was, every object
    /// still belongs to its pipeline and still draws from its vertex and
    /// index buffers, and every pipeline still lists, first, the objects it
    /// listed.
    pub open spec fn spec_keeps_handles(self, before: Renderer) -> bool {
        &&& self.pipelines@.len() >= before.pipelines@.len()
        &&& self.textures@.len() >= before.textures@.len()
        &&& self.objects@.len() >= before.objects@.len()
        &&& self.buffers@.len() >= before.buffers@.len()
        &&& forall|b: int|
            0 <= b < before.buffers@.len() ==> #[trigger] self.buffers@[b] == before.buffers@[b]
        &&& forall|i: int|
            0 <= i < before.objects@.len() ==> spec_same_geometry(
                #[trigger] self.objects@[i],
                before.objects@[i],
            )
        &&& forall|p: int|
            0 <= p < before.pipelines@.len() ==> spec_same_pipeline(
                #[trigger] self.pipelines@[p],
                before.pipelines@[p],
            )
    }

    /// The draw calls of the first `upto` pipelines of `ids`: pipelines in
    /// the order listed, and within each its visible objects in insertion
    /// order.
    pub open spec fn spec_frame_draws(self, ids: Seq<RPipelineId>, upto: int) -> Seq<RDrawCall>
        decreases upto,
    {
        if upto <= 0 {
            Seq::empty()
        } else {
            let indices = self.pipelines@[ids[upto - 1].0 as int].obj_indices@;
            self.spec_frame_draws(ids, upto - 1) + spec_pipeline_draws(
                self.objects@,
                indices,
                indices.len() as int,
            )
        }
    }

    /// Empty tables for a screen of the given size. `min_stride` is the
    /// device's minimum uniform buffer size.
    pub fn new(width: u32, height: u32, min_stride: u32) -> (r: Self)
        ensures
            r.wf(),
            r.width == width,
            r.height == height,
            r.min_stride == min_stride,
            r.default_cam == RCamera::spec_default(),
            r.font_cache@.len() == 0,
            r.str_placements@.len() == 0,
            r.pipelines@.len() == 0,
            r.textures@.len() == 0,
            r.objects@.len() == 0,
            r.buffers@.len() == 0,
    {
        Renderer {
            width,
            height,
            min_stride,
            default_cam: RCamera::default(),
            font_cache: Vec::new(),
            str_placements: Vec::new(),
            pipelines: Vec::new(),
            textures: Vec::new(),
            objects: Vec::new(),
            buffers: Vec::new(),
        }
    }

    /// Takes over a new screen size. A size with a zero side is ignored, and
    /// the result says whether the size was taken.
    pub fn resize_screen(&mut self, width: u32, height: u32) -> (resized: bool)
        ensures
            final(self).spec_keeps_handles(*old(self)),
            resized == (width > 0 && height > 0),
            resized ==> final(self).width == width && final(self).height == height,
            !resized ==> final(self).width == old(self).width && final(self).height == old(
                self,
            ).height,
            final(self).min_stride == old(self).min_stride,
            final(self).default_cam == old(self).default_cam,
            final(self).spec_same_text(*old(self)),
            final(self).pipelines == old(self).pipelines,
            final(self).textures == old(self).textures,
            final(self).objects == old(self).objects,
            final(self).buffers == old(self).buffers,
    {
        if width > 0 && height > 0 {
            self.width = width;
            self.height = height;
            true
        } else {
            false
        }
    }

    /// Appends a pipeline with an empty object list and returns its handle,
    /// the position it took in the pipeline table.
    pub fn add_pipeline(&mut self, setup: &RPipelineSetup) -> (id: RPipelineId)
        requires
            old(self).wf(),
        ensures
            final(self).wf(),
            final(self).spec_keeps_handles(*old(self)),
            id.0 == old(self).pipelines@.len(),
            final(self).pipelines@.len() == old(self).pipelines@.len() + 1,
            forall|p: int|
                0 <= p < old(self).pipelines@.len() ==> final(self).pipelines@[p] == old(
                    self,
                ).pipelines@[p],
            final(self).pipelines@[id.0 as int].obj_indices@.len() == 0,
            final(self).pipelines@[id.0 as int].shader == setup.shader.spec_kind(),
            final(self).pipelines@[id.0 as int].has_animations == setup.has_animations,
            final(self).pipelines@[id.0 as int].cull_mode == setup.cull_mode,
            final(self).pipelines@[id.0 as int].poly_mode == setup.poly_mode,
            final(self).pipelines@[id.0 as int].max_obj_count == setup.max_obj_count,
            final(self).textures == old(self).textures,
            final(self).objects == old(self).objects,
            final(self).buffers == old(self).buffers,
            final(self).spec_same_screen(*old(self)),
            final(self).spec_same_text(*old(self)),
    {
        let id: usize = self.pipelines.len();
        let pipe = RPipeline {
            obj_indices: Vec::new(),
            shader: setup.shader.kind(),
            has_animations: setup.has_animations,
            cull_mode: setup.cull_mode,
            poly_mode: setup.poly_mode,
            max_obj_count: setup.max_obj_count,
        };
        self.pipelines.push(pipe);
        RPipelineId(id)
    }

    /// Appends a texture triple and returns its handle. Where an image was
    /// decoded for it, the image's size replaces the size asked for.
    pub fn add_texture(
        &mut self,
        width: u32,
        height: u32,
        image_size: Option<(u32, u32)>,
        use_device_format: bool,
    ) -> (id: RTextureId)
        requires
            old(self).wf(),
        ensures
            final(self).wf(),
            final(self).spec_keeps_handles(*old(self)),
            id.base == old(self).textures@.len(),
            id.consecutive(),
            final(self).texture_ok(id),
            final(self).textures@ == old(self).textures@.push(
                RTexture::spec_base(
                    spec_texture_size(width, height, image_size).0,
                    spec_texture_size(width, height, image_size).1,
                    use_device_format,
                ),
            ).push(
                RTexture::spec_msaa(
                    spec_texture_size(width, height, image_size).0,
                    spec_texture_size(width, height, image_size).1,
                ),
            ).push(
                RTexture::spec_depth(
                    spec_texture_size(width, height, image_size).0,
                    spec_texture_size(width, height, image_size).1,
                ),
            ),
            final(self).pipelines == old(self).pipelines,
            final(self).objects == old(self).objects,
            final(self).buffers == old(self).buffers,
            final(self).spec_same_screen(*old(self)),
            final(self).spec_same_text(*old(self)),
    {
        let base: usize = self.textures.len();
        let (w, h) = match image_size {
            Some((iw, ih)) => (iw, ih),
            None => (width, height),
        };
        let format = if use_device_format {
            RTextureFormat::Screen
        } else {
            RTextureFormat::Rgba8
        };
        self.textures.push(RTexture { width: w, height: h, samples: 1, format });
        let msaa: usize = self.textures.len();
        self.textures.push(RTexture { width: w, height: h, samples: 4, format: RTextureFormat::Screen });
        let zbuffer: usize = self.textures.len();
        self.textures.push(RTexture { width: w, height: h, samples: 4, format: RTextureFormat::Depth });
        RTextureId { base, msaa, zbuffer }
    }

    /// Replaces the three rows of a texture by rows of the new size. The
    /// image keeps its format. Nothing else changes: objects bound to the
    /// texture keep their bind state until `rebind_object` is called for
    /// them.
    pub fn resize_texture(&mut self, texture_id: RTextureId, width: u32, height: u32)
        requires
            old(self).wf(),
            texture_id.base < old(self).textures@.len(),
            texture_id.msaa < old(self).textures@.len(),
            texture_id.zbuffer < old(self).textures@.len(),
        ensures
            final(self).wf(),
            final(self).spec_keeps_handles(*old(self)),
            final(self).textures@ == old(self).textures@.update(
                texture_id.base as int,
                RTexture {
                    width,
                    height,
                    samples: 1,
                    format: old(self).textures@[texture_id.base as int].format,
                },
            ).update(texture_id.msaa as int, RTexture::spec_msaa(width, height)).update(
                texture_id.zbuffer as int,
                RTexture::spec_depth(width, height),
            ),
            final(self).pipelines == old(self).pipelines,
            final(self).objects == old(self).objects,
            final(self).buffers == old(self).buffers,
            final(self).spec_same_screen(*old(self)),
            final(self).spec_same_text(*old(self)),
    {
        let format = self.textures[texture_id.base].format;
        self.textures.set(texture_id.base, RTexture { width, height, samples: 1, format });
        self.textures.set(
            texture_id.msaa,
            RTexture { width, height, samples: 4, format: RTextureFormat::Screen },
        );
        self.textures.set(
            texture_id.zbuffer,
            RTexture { width, height, samples: 4, format: RTextureFormat::Depth },
        );
    }

    /// Appends a render object to its pipeline and returns its handle, the
    /// position it took in the object table, with the writes that fill its
    /// buffers: the vertex words, then the indices where it has any. The
    /// object gets a vertex buffer, an index buffer where it has indices,
    /// and uniform buffers of its own; it starts visible, with one instance.
    /// Its uniform buffers are filled by the first `update_object`.
    ///
    /// To add an object to a pipeline that has reached the limit it
    /// declared, or one whose indices name vertices it does not have, is a
    /// programming error; `can_add_object` tells beforehand.
    pub fn add_object(&mut self, setup: &RObjectSetup) -> (added: (RObjectId, Vec<RBufferWrite>))
        requires
            old(self).wf(),
            setup.pipeline_id.0 < old(self).pipelines@.len(),
            old(self).texture_opt_ok(setup.texture1_id),
            old(self).texture_opt_ok(setup.texture2_id),
            setup.spec_vertices(
                old(self).pipelines@[setup.pipeline_id.0 as int].has_animations,
            ) <= u32::MAX,
            setup.indices@.len() <= u32::MAX,
            spec_indices_fit(
                setup.indices@,
                setup.spec_vertices(old(self).pipelines@[setup.pipeline_id.0 as int].has_animations),
            ),
            old(self).spec_has_room(setup.pipeline_id.0 as int),
            old(self).pipelines@[setup.pipeline_id.0 as int].has_animations ==> setup.max_joints
                * JOINT_BYTES <= u64::MAX,
        ensures
            final(self).wf(),
            final(self).spec_keeps_handles(*old(self)),
            added.0.0 == old(self).objects@.len(),
            final(self).objects@ == old(self).objects@.push(
                old(self).spec_new_object(*setup),
            ),
            final(self).buffers@ == old(self).buffers@ + old(self).spec_new_buffers(*setup),
            final(self).spec_pipelines_after_add(*old(self), setup.pipeline_id.0 as int),
            added.1@.len() == if setup.indices@.len() > 0 {
                2int
            } else {
                1int
            },
            added.1@[0].buffer == old(self).buffers@.len(),
            added.1@[0].words@ == setup.spec_vertex_payload(
                old(self).pipelines@[setup.pipeline_id.0 as int].has_animations,
            ),
            setup.indices@.len() > 0 ==> {
                &&& added.1@[1].buffer == old(self).buffers@.len() + 1
                &&& added.1@[1].words@ == setup.indices@
            },
            final(self).textures == old(self).textures,
            final(self).spec_same_screen(*old(self)),
            final(self).spec_same_text(*old(self)),
    {
        let pid: usize = setup.pipeline_id.0;
        let has_animations = self.pipelines[pid].has_animations;
        let mut writes: Vec<RBufferWrite> = Vec::new();
        let vlen: usize;
        let v_buffer: usize = self.buffers.len();
        if has_animations {
            vlen = setup.anim_vertex_data.len();
            writes.push(
                RBufferWrite { buffer: v_buffer, words: pack_anim_vertices(&setup.anim_vertex_data) },
            );
        } else {
            vlen = setup.vertex_data.len();
            writes.push(RBufferWrite { buffer: v_buffer, words: pack_vertices(&setup.vertex_data) });
        }
        let stride: u64 = vertex_stride(has_animations);
        assert(stride * (vlen as u64) <= 64 * 0xFFFF_FFFF) by (nonlinear_arith)
            requires
                stride <= 64,
                vlen <= 0xFFFF_FFFF,
        ;
        self.buffers.push(RBuffer { size: stride * (vlen as u64), usage: RBufferUse::Vertex });
        let mut index_buffer: Option<usize> = None;
        let ilen: usize = setup.indices.len();
        if ilen > 0 {
            let i_buffer: usize = self.buffers.len();
            self.buffers.push(
                RBuffer { size: INDEX_BYTES * (ilen as u64), usage: RBufferUse::Index },
            );
            writes.push(RBufferWrite { buffer: i_buffer, words: setup.indices.clone() });
            index_buffer = Some(i_buffer);
        }
        let ghost mid = self.buffers@;
        let (mvp_buffer, gen_buffer, joints_buffer) = self.add_bind_group0(
            has_animations,
            setup.max_joints,
        );
        let obj = RObject {
            visible: true,
            pipe_id: setup.pipeline_id,
            v_buffer,
            v_count: vlen,
            max_joints: setup.max_joints,
            index_buffer,
            index_count: ilen as u32,
            instances: 1,
            mvp_buffer,
            gen_buffer,
            joints_buffer,
            texture1: setup.texture1_id,
            texture2: setup.texture2_id,
        };
        proof {
            assert(mid =~= old(self).buffers@ + Self::spec_object_buffers(
                has_animations,
                setup.spec_vertices(has_animations),
                setup.indices@.len(),
            ));
            assert(self.buffers@ =~= old(self).buffers@ + old(self).spec_new_buffers(*setup));
        }
        let id = self.push_object(obj);
        (id, writes)
    }

    /// Appends an object row and lists it with its pipeline.
    pub fn push_object(&mut self, obj: RObject) -> (id: RObjectId)
        requires
            old(self).wf(),
            old(self).object_ok(obj),
            old(self).spec_has_room(obj.pipe_id.0 as int),
        ensures
            final(self).wf(),
            final(self).spec_keeps_handles(*old(self)),
            id.0 == old(self).objects@.len(),
            final(self).objects@ == old(self).objects@.push(obj),
            final(self).spec_pipelines_after_add(*old(self), obj.pipe_id.0 as int),
            final(self).buffers == old(self).buffers,
            final(self).textures == old(self).textures,
            final(self).spec_same_screen(*old(self)),
            final(self).spec_same_text(*old(self)),
    {
        let id: usize = self.objects.len();
        self.objects.push(obj);
        self.pipelines[obj.pipe_id.0].obj_indices.push(id);
        proof {
            let p = obj.pipe_id.0 as int;
            let listed = self.pipelines@[p].obj_indices@;
            assert forall|i: int| 0 <= i < self.objects@.len() implies self.pipelines@[(
            #[trigger] self.objects@[i]).pipe_id.0 as int].obj_indices@.contains(i as usize) by {
                if i == id {
                    assert(listed[listed.len() - 1] == id);
                } else {
                    let q = old(self).objects@[i].pipe_id.0 as int;
                    assert(old(self).object_ok(old(self).objects@[i]));
                    let before = old(self).pipelines@[q].obj_indices@;
                    let at = before.index_of(i as usize);
                    assert(before[at] == i);
                    assert(self.pipelines@[q].obj_indices@[at] == i);
                }
            }
        }
        RObjectId(id)
    }

    /// The pipeline table after an object was added to pipeline `p` of
    /// `before`: the new object's position, which is the length of the
    /// object table of `before`, is appended to that pipeline's list, and
    /// nothing else differs.
    pub open spec fn spec_pipelines_after_add(self, before: Renderer, p: int) -> bool {
        &&& self.pipelines@.len() == before.pipelines@.len()
        &&& forall|q: int|
            0 <= q < before.pipelines@.len() && q != p ==> self.pipelines@[q]
                == before.pipelines@[q]
        &&& self.pipelines@[p].obj_indices@ == before.pipelines@[p].obj_indices@.push(
            before.objects@.len() as usize,
        )
        &&& self.pipelines@[p].shader == before.pipelines@[p].shader
        &&& self.pipelines@[p].has_animations == before.pipelines@[p].has_animations
        &&& self.pipelines@[p].cull_mode == before.pipelines@[p].cull_mode
        &&& self.pipelines@[p].poly_mode == before.pipelines@[p].poly_mode
        &&& self.pipelines@[p].max_obj_count == before.pipelines@[p].max_obj_count
    }

    /// Appends the uniform buffers of one bind group: the matrix block, the
    /// general word buffer, and for an animated pipeline the joint buffer.
    /// Returns their positions in the buffer table.
    pub fn add_bind_group0(&mut self, has_animations: bool, max_joints: usize) -> (slots: (
        usize,
        usize,
        Option<usize>,
    ))
        requires
            has_animations ==> max_joints * JOINT_BYTES <= u64::MAX,
        ensures
            final(self).spec_keeps_handles(*old(self)),
            final(self).buffers@ == old(self).buffers@ + old(self).spec_bind_buffers(
                has_animations,
                max_joints,
            ),
            slots.0 == old(self).buffers@.len(),
            slots.1 == old(self).buffers@.len() + 1,
            slots.2 == if has_animations {
                Some((old(self).buffers@.len() + 2) as usize)
            } else {
                None
            },
            final(self).pipelines == old(self).pipelines,
            final(self).objects == old(self).objects,
            final(self).textures == old(self).textures,
            final(self).spec_same_screen(*old(self)),
            final(self).spec_same_text(*old(self)),
    {
        let size: u64 = self.min_stride as u64;
        let mvp_buffer: usize = self.buffers.len();
        self.buffers.push(RBuffer { size, usage: RBufferUse::Uniform });
        let gen_buffer: usize = self.buffers.len();
        self.buffers.push(RBuffer { size, usage: RBufferUse::Uniform });
        let mut joints_buffer: Option<usize> = None;
        if has_animations {
            joints_buffer = Some(self.buffers.len());
            self.buffers.push(
                RBuffer { size: (max_joints as u64) * JOINT_BYTES, usage: RBufferUse::Uniform },
            );
        }
        proof {
            assert(self.buffers@ =~= old(self).buffers@ + old(self).spec_bind_buffers(
                has_animations,
                max_joints,
            ));
        }
        (mvp_buffer, gen_buffer, joints_buffer)
    }

    /// The buffers that a new object's vertex and index data take.
    pub open spec fn spec_object_buffers(has_animations: bool, vertices: nat, indices: nat) -> Seq<
        RBuffer,
    > {
        let vertex = RBuffer {
            size: (spec_vertex_stride(has_animations) * vertices) as u64,
            usage: RBufferUse::Vertex,
        };
        if indices > 0 {
            seq![vertex, RBuffer { size: (INDEX_BYTES * indices) as u64, usage: RBufferUse::Index }]
        } else {
            seq![vertex]
        }
    }

    /// The uniform buffers of one bind group.
    pub open spec fn spec_bind_buffers(self, has_animations: bool, max_joints: usize) -> Seq<
        RBuffer,
    > {
        let uniform = RBuffer { size: self.min_stride as u64, usage: RBufferUse::Uniform };
        if has_animations {
            seq![
                uniform,
                uniform,
                RBuffer { size: (max_joints * JOINT_BYTES) as u64, usage: RBufferUse::Uniform },
            ]
        } else {
            seq![uniform, uniform]
        }
    }

    /// The row of a new object whose buffers start at position `first` of
    /// the buffer table: the vertex buffer, the index buffer where the
    /// object has indices, then the uniform buffers.
    pub open spec fn spec_object_row(
        first: nat,
        pipe_id: RPipelineId,
        has_animations: bool,
        vertices: nat,
        indices: nat,
        max_joints: usize,
        texture1: Option<RTextureId>,
        texture2: Option<RTextureId>,
    ) -> RObject {
        let bind = first + Self::spec_object_buffers(has_animations, vertices, indices).len();
        RObject {
            visible: true,
            pipe_id,
            v_buffer: first as usize,
            v_count: vertices as usize,
            max_joints,
            index_buffer: if indices > 0 {
                Some((first + 1) as usize)
            } else {
                None
            },
            index_count: indices as u32,
            instances: 1,
            mvp_buffer: bind as usize,
            gen_buffer: (bind + 1) as usize,
            joints_buffer: if has_animations {
                Some((bind + 2) as usize)
            } else {
                None
            },
            texture1,
            texture2,
        }
    }

    /// The row that `add_object` appends for `setup`.
    pub open spec fn spec_new_object(self, setup: RObjectSetup) -> RObject {
        let has_animations = self.pipelines@[setup.pipeline_id.0 as int].has_animations;
        Self::spec_object_row(
            self.buffers@.len(),
            setup.pipeline_id,
            has_animations,
            setup.spec_vertices(has_animations),
            setup.indices@.len(),
            setup.max_joints,
            setup.texture1_id,
            setup.texture2_id,
        )
    }

    /// The buffers that `add_object` appends for `setup`.
    pub open spec fn spec_new_buffers(self, setup: RObjectSetup) -> Seq<RBuffer> {
        let has_animations = self.pipelines@[setup.pipeline_id.0 as int].has_animations;
        Self::spec_object_buffers(
            has_animations,
            setup.spec_vertices(has_animations),
            setup.indices@.len(),
        ) + self.spec_bind_buffers(has_animations, setup.max_joints)
    }
}

/// A pipeline holds no more objects than it declared it would.
pub open spec fn spec_within_limit(pipe: RPipeline) -> bool {
    pipe.max_obj_count.is_some() ==> pipe.obj_indices@.len() <= pipe.max_obj_count.unwrap()
}

/// Every index names one of `vertices` vertices.
pub open spec fn spec_indices_fit(indices: Seq<u32>, vertices: nat) -> bool {
    forall|k: int| 0 <= k < indices.len() ==> (#[trigger] indices[k]) < vertices
}

/// Whether every index names one of `vertices` vertices.
pub fn indices_fit(indices: &Vec<u32>, vertices: usize) -> (fit: bool)
    ensures
        fit == spec_indices_fit(indices@, vertices as nat),
{
    let mut k: usize = 0;
    while k < indices.len()
        invariant
            k <= indices@.len(),
            forall|j: int| 0 <= j < k ==> (#[trigger] indices@[j]) < vertices,
        decreases indices@.len() - k,
    {
        if indices[k] as usize >= vertices {
            return false;
        }
        k += 1;
    }
    true
}

/// Two rows of the same object at different times: the pipeline, the vertex
/// and index buffers, the counts and the joint capacity agree. Visibility,
/// uniform buffers and textures may differ.
pub open spec fn spec_same_geometry(now: RObject, then: RObject) -> bool {
    &&& now.pipe_id == then.pipe_id
    &&& now.v_buffer == then.v_buffer
    &&& now.v_count == then.v_count
    &&& now.index_buffer == then.index_buffer
    &&& now.index_count == then.index_count
    &&& now.instances == then.instances
    &&& now.max_joints == then.max_joints
}

/// Two rows of the same pipeline at different times: the configuration
/// agrees, and the objects listed then are listed now, in the same places.
pub open spec fn spec_same_pipeline(now: RPipeline, then: RPipeline) -> bool {
    &&& now.shader == then.shader
    &&& now.has_animations == then.has_animations
    &&& now.cull_mode == then.cull_mode
    &&& now.poly_mode == then.poly_mode
    &&& now.max_obj_count == then.max_obj_count
    &&& then.obj_indices@.is_prefix_of(now.obj_indices@)
}

/// The object row after an update: visibility taken from the update,
/// everything else as it was.
pub open spec fn spec_touch(o: RObject, visible: bool) -> RObject {
    RObject { visible, ..o }
}

/// The object table after a run of updates, each one an object position and
/// the visibility it sets.
pub open spec fn spec_apply_updates(objects: Seq<RObject>, updates: Seq<(int, bool)>) -> Seq<
    RObject,
>
    decreases updates.len(),
{
    if updates.len() == 0 {
        objects
    } else {
        let before = spec_apply_updates(objects, updates.drop_last());
        let (id, visible) = updates.last();
        before.update(id, spec_touch(before[id], visible))
    }
}

/// True when an update of object `o` uploads joint transforms: the object's
/// pipeline is animated, the object has room for joints, and the update
/// brings some.
pub open spec fn spec_writes_joints(o: RObject, transforms: int) -> bool {
    o.joints_buffer.is_some() && o.max_joints > 0 && transforms > 0
}

impl Renderer {
    /// The camera an update is seen through: its own, or the default camera
    /// where it names none.
    pub fn camera_for<'a>(&'a self, update: &RObjectUpdate<'a>) -> (cam: &'a RCamera)
        ensures
            *cam == match update.camera {
                Some(c) => *c,
                None => self.default_cam,
            },
    {
        match update.camera {
            Some(c) => c,
            None => &self.default_cam,
        }
    }

    /// Half the screen size in whole pixels: the extent of the projection of
    /// a camera that has no target size of its own.
    pub fn half_screen(&self) -> (half: (u32, u32))
        ensures
            half.0 == self.width / 2,
            half.1 == self.height / 2,
    {
        (self.width / 2, self.height / 2)
    }

    /// Applies one update to an object: sets its visibility and returns the
    /// uniform writes that bring the device up to date. The first write is
    /// the matrix block (model, view, projection), the second the general
    /// buffer. A third follows with the packed joint transforms where the
    /// object's pipeline is animated and the update brings transforms;
    /// transforms beyond the object's joint capacity are dropped.
    pub fn update_object(
        &mut self,
        obj: RObjectId,
        update: &RObjectUpdate,
        model: &[u32; 16],
        view: &[u32; 16],
        proj: &[u32; 16],
    ) -> (writes: Vec<RBufferWrite>)
        requires
            old(self).wf(),
            obj.0 < old(self).objects@.len(),
        ensures
            final(self).wf(),
            final(self).spec_keeps_handles(*old(self)),
            final(self).objects@ == old(self).objects@.update(
                obj.0 as int,
                spec_touch(old(self).objects@[obj.0 as int], update.visible),
            ),
            final(self).pipelines == old(self).pipelines,
            final(self).textures == old(self).textures,
            final(self).buffers == old(self).buffers,
            final(self).spec_same_screen(*old(self)),
            final(self).spec_same_text(*old(self)),
            writes@.len() == if spec_writes_joints(
                old(self).objects@[obj.0 as int],
                update.anim_transforms@.len() as int,
            ) {
                3int
            } else {
                2int
            },
            writes@[0].buffer == old(self).objects@[obj.0 as int].mvp_buffer,
            writes@[0].words@ == spec_merge_mvp(model@, view@, proj@),
            writes@[1].buffer == old(self).objects@[obj.0 as int].gen_buffer,
            writes@[1].words@ == update.gen_buf@,
            writes@.len() == 3 ==> {
                &&& Some(writes@[2].buffer) == old(self).objects@[obj.0 as int].joints_buffer
                &&& writes@[2].words@ == spec_joint_words(
                    update.anim_transforms@,
                    spec_joint_count(
                        old(self).objects@[obj.0 as int].max_joints as int,
                        update.anim_transforms@.len() as int,
                    ),
                )
            },
    {
        let mut o = self.objects[obj.0];
        o.visible = update.visible;
        self.objects.set(obj.0, o);
        let mut mvp: Vec<u32> = words_of(model);
        let mut view_words = words_of(view);
        let mut proj_words = words_of(proj);
        mvp.append(&mut view_words);
        mvp.append(&mut proj_words);
        let mut writes: Vec<RBufferWrite> = Vec::new();
        writes.push(RBufferWrite { buffer: o.mvp_buffer, words: mvp });
        writes.push(RBufferWrite { buffer: o.gen_buffer, words: words_of(&update.gen_buf) });
        match o.joints_buffer {
            Some(joints) => {
                if o.max_joints > 0 && update.anim_transforms.len() > 0 {
                    writes.push(
                        RBufferWrite {
                            buffer: joints,
                            words: pack_joints(&update.anim_transforms, o.max_joints),
                        },
                    );
                }
            },
            None => {},
        }
        writes
    }

    /// The draw calls of one frame: the pipelines in the order listed, and
    /// within each pipeline its objects in insertion order, invisible ones
    /// left out.
    pub fn render_impl(&self, pipeline_ids: &[RPipelineId]) -> (draws: Vec<RDrawCall>)
        requires
            self.wf(),
            forall|i: int|
                0 <= i < pipeline_ids@.len() ==> (#[trigger] pipeline_ids@[i]).0
                    < self.pipelines@.len(),
        ensures
            draws@ == self.spec_frame_draws(pipeline_ids@, pipeline_ids@.len() as int),
    {
        let mut draws: Vec<RDrawCall> = Vec::new();
        let mut n: usize = 0;
        while n < pipeline_ids.len()
            invariant
                self.wf(),
                n <= pipeline_ids@.len(),
                forall|i: int|
                    0 <= i < pipeline_ids@.len() ==> (#[trigger] pipeline_ids@[i]).0
                        < self.pipelines@.len(),
                draws@ == self.spec_frame_draws(pipeline_ids@, n as int),
            decreases pipeline_ids@.len() - n,
        {
            let p: usize = pipeline_ids[n].0;
            let pipeline = &self.pipelines[p];
            let ghost before = draws@;
            let mut k: usize = 0;
            while k < pipeline.obj_indices.len()
                invariant
                    self.wf(),
                    p < self.pipelines@.len(),
                    *pipeline == self.pipelines@[p as int],
                    k <= pipeline.obj_indices@.len(),
                    draws@ == before + spec_pipeline_draws(
                        self.objects@,
                        pipeline.obj_indices@,
                        k as int,
                    ),
                decreases pipeline.obj_indices@.len() - k,
            {
                let obj_id: usize = pipeline.obj_indices[k];
                let o = &self.objects[obj_id];
                let ghost so_far = spec_pipeline_draws(
                    self.objects@,
                    pipeline.obj_indices@,
                    k as int,
                );
                if o.visible {
                    assert(self.object_ok(self.objects@[obj_id as int]));
                    let call = match o.index_buffer {
                        Some(_) => RDrawCall::Indexed {
                                            object: obj_id,
                            index_count: o.index_count,
                            instances: o.instances,
                        },
                        None => RDrawCall::Plain {
                                            object: obj_id,
                            vertex_count: o.v_count as u32,
                            instances: o.instances,
                        },
                    };
                    draws.push(call);
                    assert(draws@ =~= before + so_far.push(call));
                }
                k += 1;
            }
            n += 1;
        }
        draws
    }

    /// The draw calls of one frame onto an offscreen texture.
    pub fn render_on_texture(&self, pipeline_ids: &[RPipelineId], target_id: RTextureId) -> (draws:
        Vec<RDrawCall>)
        requires
            self.wf(),
            target_id.base < self.textures@.len(),
            target_id.msaa < self.textures@.len(),
            target_id.zbuffer < self.textures@.len(),
            forall|i: int|
                0 <= i < pipeline_ids@.len() ==> (#[trigger] pipeline_ids@[i]).0
                    < self.pipelines@.len(),
        ensures
            draws@ == self.spec_frame_draws(pipeline_ids@, pipeline_ids@.len() as int),
    {
        self.render_impl(pipeline_ids)
    }

    /// Gives an object fresh uniform buffers, as is needed after a texture
    /// it is bound to was resized. Its vertex and index buffers stay.
    pub fn rebind_object(&mut self, obj: RObjectId)
        requires
            old(self).wf(),
            obj.0 < old(self).objects@.len(),
            old(self).objects@[obj.0 as int].max_joints * JOINT_BYTES <= u64::MAX,
        ensures
            final(self).wf(),
            final(self).spec_keeps_handles(*old(self)),
            final(self).objects@ == old(self).objects@.update(
                obj.0 as int,
                RObject {
                    mvp_buffer: old(self).buffers@.len() as usize,
                    gen_buffer: (old(self).buffers@.len() + 1) as usize,
                    joints_buffer: if old(self).objects@[obj.0 as int].joints_buffer.is_some() {
                        Some((old(self).buffers@.len() + 2) as usize)
                    } else {
                        None
                    },
                    ..old(self).objects@[obj.0 as int]
                },
            ),
            final(self).buffers@ == old(self).buffers@ + old(self).spec_bind_buffers(
                old(self).objects@[obj.0 as int].joints_buffer.is_some(),
                old(self).objects@[obj.0 as int].max_joints,
            ),
            final(self).pipelines == old(self).pipelines,
            final(self).textures == old(self).textures,
            final(self).spec_same_screen(*old(self)),
            final(self).spec_same_text(*old(self)),
    {
        let mut o = self.objects[obj.0];
        assert(old(self).object_ok(old(self).objects@[obj.0 as int]));
        let (mvp_buffer, gen_buffer, joints_buffer) = self.add_bind_group0(
            o.joints_buffer.is_some(),
            o.max_joints,
        );
        o.mvp_buffer = mvp_buffer;
        o.gen_buffer = gen_buffer;
        o.joints_buffer = joints_buffer;
        self.objects.set(obj.0, o);
        proof {
            assert forall|i: int| 0 <= i < self.objects@.len() implies self.object_ok(
                #[trigger] self.objects@[i],
            ) by {
                if i != obj.0 {
                    assert(old(self).object_ok(old(self).objects@[i]));
                }
            }
        }
    }

    /// Adds what a text overlay needs: a texture the size of the screen, a
    /// pipeline that runs the text shader, and in it one rectangle that
    /// shows the texture. Returns the three handles and the writes that fill
    /// the rectangle's buffers.
    pub fn add_overlay_pipe(&mut self, rect_data: Vec<RVertex>, rect_i: Vec<u32>) -> (added: (
        RPipelineId,
        RObjectId,
        RTextureId,
        Vec<RBufferWrite>,
    ))
        requires
            old(self).wf(),
            rect_data@.len() <= u32::MAX,
            rect_i@.len() <= u32::MAX,
            spec_indices_fit(rect_i@, rect_data@.len()),
        ensures
            final(self).wf(),
            final(self).spec_keeps_handles(*old(self)),
            added.0.0 == old(self).pipelines@.len(),
            added.1.0 == old(self).objects@.len(),
            added.2.base == old(self).textures@.len(),
            final(self).texture_ok(added.2),
            final(self).textures@ == old(self).textures@.push(
                RTexture::spec_base(old(self).width, old(self).height, false),
            ).push(RTexture::spec_msaa(old(self).width, old(self).height)).push(
                RTexture::spec_depth(old(self).width, old(self).height),
            ),
            final(self).pipelines@.len() == old(self).pipelines@.len() + 1,
            forall|p: int|
                0 <= p < old(self).pipelines@.len() ==> final(self).pipelines@[p] == old(
                    self,
                ).pipelines@[p],
            final(self).pipelines@[added.0.0 as int].shader == RShaderKind::Text,
            !final(self).pipelines@[added.0.0 as int].has_animations,
            final(self).pipelines@[added.0.0 as int].cull_mode == RCullMode::Off,
            final(self).pipelines@[added.0.0 as int].poly_mode == RPolyMode::Fill,
            final(self).pipelines@[added.0.0 as int].max_obj_count.is_none(),
            final(self).pipelines@[added.0.0 as int].obj_indices@ == seq![added.1.0],
            final(self).objects@ == old(self).objects@.push(
                Self::spec_object_row(
                    old(self).buffers@.len(),
                    added.0,
                    false,
                    rect_data@.len(),
                    rect_i@.len(),
                    0,
                    Some(added.2),
                    None,
                ),
            ),
            final(self).buffers@ == old(self).buffers@ + Self::spec_object_buffers(
                false,
                rect_data@.len(),
                rect_i@.len(),
            ) + old(self).spec_bind_buffers(false, 0),
            added.3@.len() == if rect_i@.len() > 0 {
                2int
            } else {
                1int
            },
            added.3@[0].buffer == old(self).buffers@.len(),
            rect_i@.len() > 0 ==> {
                &&& added.3@[1].buffer == old(self).buffers@.len() + 1
                &&& added.3@[1].words@ == rect_i@
            },
            added.3@[0].words@ == spec_vertex_words(rect_data@),
            final(self).spec_same_screen(*old(self)),
            final(self).spec_same_text(*old(self)),
    {
        let texture_id = self.add_texture(self.width, self.height, None, false);
        let mut setup = RPipelineSetup::default();
        setup.shader = RShader::Text;
        let pipeline_id = self.add_pipeline(&setup);
        let ghost mid = *self;
        let object_setup = RObjectSetup {
            pipeline_id,
            vertex_data: rect_data,
            instances: 1,
            indices: rect_i,
            anim_vertex_data: Vec::new(),
            texture1_id: Some(texture_id),
            texture2_id: None,
            max_joints: 0,
        };
        let (rect, writes) = self.add_object(&object_setup);
        proof {
            assert(self.pipelines@[pipeline_id.0 as int].obj_indices@ =~= seq![rect.0]);
            assert(mid.pipelines@[pipeline_id.0 as int].obj_indices@.len() == 0);
        }
        (pipeline_id, rect, texture_id, writes)
    }

    /// Adds the one object of a shape pipeline: a rectangle that covers the
    /// screen, with a small buffer for the frame data and a large one for
    /// the shapes. Returns its handle and the writes that fill the
    /// rectangle's vertex and index buffers.
    pub fn add_sdf_render_obj(
        &mut self,
        pipe_id: RPipelineId,
        rect_data: &Vec<RVertex>,
        rect_i: &Vec<u32>,
    ) -> (added: (RObjectId, Vec<RBufferWrite>))
        requires
            old(self).wf(),
            pipe_id.0 < old(self).pipelines@.len(),
            !old(self).pipelines@[pipe_id.0 as int].has_animations,
            old(self).spec_has_room(pipe_id.0 as int),
            rect_data@.len() <= u32::MAX,
            rect_i@.len() <= u32::MAX,
            spec_indices_fit(rect_i@, rect_data@.len()),
        ensures
            final(self).wf(),
            final(self).spec_keeps_handles(*old(self)),
            added.0.0 == old(self).objects@.len(),
            final(self).objects@ == old(self).objects@.push(
                old(self).spec_sdf_object(pipe_id, rect_data@.len(), rect_i@.len()),
            ),
            final(self).buffers@ == old(self).buffers@ + old(self).spec_sdf_buffers(
                rect_data@.len(),
                rect_i@.len(),
            ),
            final(self).spec_pipelines_after_add(*old(self), pipe_id.0 as int),
            added.1@.len() == 2,
            added.1@[0].buffer == old(self).buffers@.len(),
            added.1@[0].words@ == spec_vertex_words(rect_data@),
            added.1@[1].buffer == old(self).buffers@.len() + 1,
            added.1@[1].words@ == rect_i@,
            final(self).textures == old(self).textures,
            final(self).spec_same_screen(*old(self)),
            final(self).spec_same_text(*old(self)),
    {
        let vlen: usize = rect_data.len();
        let ilen: usize = rect_i.len();
        let mut writes: Vec<RBufferWrite> = Vec::new();
        let v_buffer: usize = self.buffers.len();
        let stride: u64 = vertex_stride(false);
        assert(stride * (vlen as u64) <= 64 * 0xFFFF_FFFF) by (nonlinear_arith)
            requires
                stride <= 64,
                vlen <= 0xFFFF_FFFF,
        ;
        self.buffers.push(RBuffer { size: stride * (vlen as u64), usage: RBufferUse::Vertex });
        writes.push(RBufferWrite { buffer: v_buffer, words: pack_vertices(rect_data) });
        let i_buffer: usize = self.buffers.len();
        self.buffers.push(RBuffer { size: INDEX_BYTES * (ilen as u64), usage: RBufferUse::Index });
        writes.push(RBufferWrite { buffer: i_buffer, words: rect_i.clone() });
        let sys_buffer: usize = self.buffers.len();
        self.buffers.push(RBuffer { size: self.min_stride as u64, usage: RBufferUse::Uniform });
        let obj_buffer: usize = self.buffers.len();
        self.buffers.push(
            RBuffer {
                size: (self.min_stride as u64) * SDF_BUFFER_SLOTS,
                usage: RBufferUse::Uniform,
            },
        );
        proof {
            assert(self.buffers@ =~= old(self).buffers@ + old(self).spec_sdf_buffers(
                rect_data@.len(),
                rect_i@.len(),
            ));
        }
        let obj = RObject {
            visible: true,
            pipe_id,
            v_buffer,
            v_count: vlen,
            max_joints: 0,
            index_buffer: Some(i_buffer),
            index_count: ilen as u32,
            instances: 1,
            mvp_buffer: sys_buffer,
            gen_buffer: obj_buffer,
            joints_buffer: None,
            texture1: None,
            texture2: None,
        };
        let id = self.push_object(obj);
        (id, writes)
    }

    /// The buffers of a shape pipeline's object: vertices, indices, frame
    /// data, shapes.
    pub open spec fn spec_sdf_buffers(self, vertices: nat, indices: nat) -> Seq<RBuffer> {
        seq![
            RBuffer {
                size: (spec_vertex_stride(false) * vertices) as u64,
                usage: RBufferUse::Vertex,
            },
            RBuffer { size: (INDEX_BYTES * indices) as u64, usage: RBufferUse::Index },
            RBuffer { size: self.min_stride as u64, usage: RBufferUse::Uniform },
            RBuffer { size: (self.min_stride * SDF_BUFFER_SLOTS) as u64, usage: RBufferUse::Uniform },
        ]
    }

    /// The row of a shape pipeline's object. Its frame data takes the place
    /// of the matrix block, its shapes that of the general buffer.
    pub open spec fn spec_sdf_object(self, pipe_id: RPipelineId, vertices: nat, indices: nat) -> RObject {
        let first = self.buffers@.len();
        RObject {
            visible: true,
            pipe_id,
            v_buffer: first as usize,
            v_count: vertices as usize,
            max_joints: 0,
            index_buffer: Some((first + 1) as usize),
            index_count: indices as u32,
            instances: 1,
            mvp_buffer: (first + 2) as usize,
            gen_buffer: (first + 3) as usize,
            joints_buffer: None,
            texture1: None,
            texture2: None,
        }
    }

    /// Adds the pipeline that draws signed-distance-field shapes, together
    /// with its one object. Returns the pipeline's handle and the writes
    /// that fill the object's vertex and index buffers.
    pub fn add_sdf_pipeline(&mut self, rect_data: &Vec<RVertex>, rect_i: &Vec<u32>) -> (added: (
        RPipelineId,
        Vec<RBufferWrite>,
    ))
        requires
            old(self).wf(),
            rect_data@.len() <= u32::MAX,
            rect_i@.len() <= u32::MAX,
            spec_indices_fit(rect_i@, rect_data@.len()),
        ensures
            final(self).wf(),
            final(self).spec_keeps_handles(*old(self)),
            added.0.0 == old(self).pipelines@.len(),
            final(self).pipelines@.len() == old(self).pipelines@.len() + 1,
            forall|p: int|
                0 <= p < old(self).pipelines@.len() ==> final(self).pipelines@[p] == old(
                    self,
                ).pipelines@[p],
            final(self).pipelines@[added.0.0 as int].shader == RShaderKind::Sdf,
            !final(self).pipelines@[added.0.0 as int].has_animations,
            final(self).pipelines@[added.0.0 as int].cull_mode == RCullMode::Off,
            final(self).pipelines@[added.0.0 as int].poly_mode == RPolyMode::Fill,
            final(self).pipelines@[added.0.0 as int].max_obj_count.is_none(),
            final(self).pipelines@[added.0.0 as int].obj_indices@ == seq![
                old(self).objects@.len() as usize,
            ],
            final(self).objects@ == old(self).objects@.push(
                old(self).spec_sdf_object(added.0, rect_data@.len(), rect_i@.len()),
            ),
            final(self).buffers@ == old(self).buffers@ + old(self).spec_sdf_buffers(
                rect_data@.len(),
                rect_i@.len(),
            ),
            added.1@.len() == 2,
            added.1@[0].buffer == old(self).buffers@.len(),
            added.1@[0].words@ == spec_vertex_words(rect_data@),
            added.1@[1].buffer == old(self).buffers@.len() + 1,
            added.1@[1].words@ == rect_i@,
            final(self).textures == old(self).textures,
            final(self).spec_same_screen(*old(self)),
            final(self).spec_same_text(*old(self)),
    {
        let id: usize = self.pipelines.len();
        let pipe = RPipeline {
            obj_indices: Vec::new(),
            shader: RShaderKind::Sdf,
            has_animations: false,
            cull_mode: RCullMode::Off,
            poly_mode: RPolyMode::Fill,
            max_obj_count: None,
        };
        self.pipelines.push(pipe);
        let pipeline_id = RPipelineId(id);
        let ghost mid = *self;
        let (_rect, writes) = self.add_sdf_render_obj(pipeline_id, rect_data, rect_i);
        proof {
            assert(mid.pipelines@[id as int].obj_indices@.len() == 0);
            assert(self.pipelines@[id as int].obj_indices@ =~= seq![
                old(self).objects@.len() as usize,
            ]);
        }
        (pipeline_id, writes)
    }

    /// The writes that hand one frame's shapes to the shader: the frame data
    /// goes to the first uniform buffer of the pipeline's first object, the
    /// shapes' records to its second. The shape count in the frame data is
    /// capped at the most the shader takes.
    pub fn update_sdf_objects(
        &self,
        pipeline_id: RPipelineId,
        screen_size: Vec2,
        m_pos: Vec2,
        shadow_intensity: u32,
        light_pos: Vec2,
        objects: &Vec<RSDFObject>,
    ) -> (writes: Vec<RBufferWrite>)
        requires
            self.wf(),
            pipeline_id.0 < self.pipelines@.len(),
            self.pipelines@[pipeline_id.0 as int].obj_indices@.len() > 0,
        ensures
            writes@.len() == 2,
            writes@[0].buffer == self.objects@[self.pipelines@[pipeline_id.0 as int].obj_indices@[0] as int].mvp_buffer,
            writes@[0].words@ == seq![
                screen_size.x,
                screen_size.y,
                m_pos.x,
                m_pos.y,
                spec_sdf_count(objects@.len() as int) as u32,
                shadow_intensity,
                light_pos.x,
                light_pos.y,
            ],
            writes@[1].buffer == self.objects@[self.pipelines@[pipeline_id.0 as int].obj_indices@[0] as int].gen_buffer,
            writes@[1].words@ == spec_sdf_words(objects@),
    {
        let pipe = &self.pipelines[pipeline_id.0];
        let robj = &self.objects[pipe.obj_indices[0]];
        let sys: SysData = sys_data(screen_size, m_pos, shadow_intensity, light_pos, objects.len());
        let mut writes: Vec<RBufferWrite> = Vec::new();
        writes.push(RBufferWrite { buffer: robj.mvp_buffer, words: words_of(&sys.words()) });
        writes.push(RBufferWrite { buffer: robj.gen_buffer, words: pack_sdf_objects(objects) });
        writes
    }

    /// Whether the pipeline table has a row for the handle.
    pub fn has_pipeline(&self, id: RPipelineId) -> (has: bool)
        ensures
            has == (id.0 < self.pipelines@.len()),
    {
        id.0 < self.pipelines.len()
    }

    /// Whether the object table has a row for the handle.
    pub fn has_object(&self, id: RObjectId) -> (has: bool)
        ensures
            has == (id.0 < self.objects@.len()),
    {
        id.0 < self.objects.len()
    }

    /// Whether the handle is one that the texture table can resolve.
    pub fn has_texture(&self, id: RTextureId) -> (has: bool)
        ensures
            has == self.texture_ok(id),
    {
        id.zbuffer < self.textures.len() && id.base < id.zbuffer && id.msaa == id.base + 1
            && id.zbuffer == id.msaa + 1
    }

    /// Whether `add_object` can take the setup: its pipeline and textures
    /// resolve, the pipeline has room for one more object, every index
    /// names a vertex, and the vertex, index and joint counts are within
    /// what a draw call and a buffer size can express.
    pub fn can_add_object(&self, setup: &RObjectSetup) -> (can: bool)
        ensures
            can == {
                &&& setup.pipeline_id.0 < self.pipelines@.len()
                &&& self.texture_opt_ok(setup.texture1_id)
                &&& self.texture_opt_ok(setup.texture2_id)
                &&& setup.spec_vertices(
                    self.pipelines@[setup.pipeline_id.0 as int].has_animations,
                ) <= u32::MAX
                &&& setup.indices@.len() <= u32::MAX
                &&& spec_indices_fit(
                    setup.indices@,
                    setup.spec_vertices(self.pipelines@[setup.pipeline_id.0 as int].has_animations),
                )
                &&& self.spec_has_room(setup.pipeline_id.0 as int)
                &&& (self.pipelines@[setup.pipeline_id.0 as int].has_animations ==> setup.max_joints
                    * JOINT_BYTES <= u64::MAX)
            },
    {
        if !self.has_pipeline(setup.pipeline_id) {
            return false;
        }
        let has_animations = self.pipelines[setup.pipeline_id.0].has_animations;
        let textures_ok = match setup.texture1_id {
            Some(t) => self.has_texture(t),
            None => true,
        } && match setup.texture2_id {
            Some(t) => self.has_texture(t),
            None => true,
        };
        let vlen: usize = if has_animations {
            setup.anim_vertex_data.len()
        } else {
            setup.vertex_data.len()
        };
        let joints_ok = !has_animations || setup.max_joints as u64 <= u64::MAX / JOINT_BYTES;
        let room = match self.pipelines[setup.pipeline_id.0].max_obj_count {
            Some(limit) => self.pipelines[setup.pipeline_id.0].obj_indices.len() < limit,
            None => true,
        };
        textures_ok && vlen as u64 <= u32::MAX as u64 && setup.indices.len() as u64 <= u32::MAX as u64
            && indices_fit(&setup.indices, vlen) && room && joints_ok
    }

    /// Width and height of a texture's image.
    pub fn texture_extent(&self, texture_id: RTextureId) -> (size: (u32, u32))
        requires
            texture_id.base < self.textures@.len(),
        ensures
            size.0 == self.textures@[texture_id.base as int].width,
            size.1 == self.textures@[texture_id.base as int].height,
    {
        let t = &self.textures[texture_id.base];
        (t.width, t.height)
    }

    /// Takes a font into the cache and returns its position there.
    pub fn load_font(&mut self, data: Vec<u8>) -> (idx: usize)
        ensures
            final(self).spec_keeps_handles(*old(self)),
            idx == old(self).font_cache@.len(),
            final(self).font_cache@ == old(self).font_cache@.push(data),
            final(self).str_placements == old(self).str_placements,
            final(self).pipelines == old(self).pipelines,
            final(self).textures == old(self).textures,
            final(self).objects == old(self).objects,
            final(self).buffers == old(self).buffers,
            final(self).spec_same_screen(*old(self)),
    {
        let idx: usize = self.font_cache.len();
        self.font_cache.push(data);
        idx
    }

    /// The font to draw with: the one at `font_idx`, or the first font where
    /// the cache has none there.
    pub fn font_for_drawing(&self, font_idx: usize) -> (font: &Vec<u8>)
        requires
            self.font_cache@.len() > 0,
        ensures
            *font == self.font_cache@[spec_resolve_font(
                self.font_cache@.len() as usize,
                font_idx,
            ) as int],
    {
        &self.font_cache[resolve_font(self.font_cache.len(), font_idx)]
    }

    /// The font to measure with: the one at `font_idx`, and none where the
    /// cache has none there.
    pub fn font_for_measuring(&self, font_idx: usize) -> (font: Option<&Vec<u8>>)
        ensures
            font.is_some() == (font_idx < self.font_cache@.len()),
            font.is_some() ==> *font.unwrap() == self.font_cache@[font_idx as int],
    {
        if self.font_cache.len() <= font_idx {
            None
        } else {
            Some(&self.font_cache[font_idx])
        }
    }

    /// Puts a string at the end of the overlay queue.
    pub fn queue_overlay_text(&mut self, placement: StringPlacement)
        ensures
            final(self).spec_keeps_handles(*old(self)),
            final(self).str_placements@ == old(self).str_placements@.push(placement),
            final(self).font_cache == old(self).font_cache,
            final(self).pipelines == old(self).pipelines,
            final(self).textures == old(self).textures,
            final(self).objects == old(self).objects,
            final(self).buffers == old(self).buffers,
            final(self).spec_same_screen(*old(self)),
    {
        self.str_placements.push(placement);
    }

    /// Empties the overlay queue.
    pub fn clear_overlay_queue(&mut self)
        ensures
            final(self).spec_keeps_handles(*old(self)),
            final(self).str_placements@.len() == 0,
            final(self).font_cache == old(self).font_cache,
            final(self).pipelines == old(self).pipelines,
            final(self).textures == old(self).textures,
            final(self).objects == old(self).objects,
            final(self).buffers == old(self).buffers,
            final(self).spec_same_screen(*old(self)),
    {
        self.str_placements.clear();
    }

    /// Hands out the overlay queue for drawing onto a texture, first queued
    /// first, together with the position of the font to draw with, and
    /// leaves the queue empty.
    pub fn redraw_texture_with_queue(&mut self, font_idx: usize, texture_id: RTextureId) -> (job: (
        usize,
        Vec<StringPlacement>,
    ))
        requires
            texture_id.base < old(self).textures@.len(),
            old(self).font_cache@.len() > 0,
        ensures
            final(self).spec_keeps_handles(*old(self)),
            job.0 == spec_resolve_font(old(self).font_cache@.len() as usize, font_idx),
            job.0 < old(self).font_cache@.len(),
            job.1@ == old(self).str_placements@,
            final(self).str_placements@.len() == 0,
            final(self).font_cache == old(self).font_cache,
            final(self).pipelines == old(self).pipelines,
            final(self).textures == old(self).textures,
            final(self).objects == old(self).objects,
            final(self).buffers == old(self).buffers,
            final(self).spec_same_screen(*old(self)),
    {
        let font = resolve_font(self.font_cache.len(), font_idx);
        let mut placements: Vec<StringPlacement> = Vec::new();
        placements.append(&mut self.str_placements);
        assert(placements@ =~= old(self).str_placements@);
        (font, placements)
    }

    /// Empties every table. The result says whether the device itself is to
    /// be torn down as well.
    pub fn destroy(&mut self, destroy_renderer: bool) -> (teardown: bool)
        ensures
            teardown == destroy_renderer,
            final(self).wf(),
            final(self).pipelines@.len() == 0,
            final(self).textures@.len() == 0,
            final(self).objects@.len() == 0,
            final(self).buffers@.len() == 0,
            final(self).spec_same_screen(*old(self)),
            final(self).spec_same_text(*old(self)),
    {
        self.textures.clear();
        self.objects.clear();
        self.buffers.clear();
        self.pipelines.clear();
        destroy_renderer
    }
}

/// Handle stability. Whatever updates follow, the object table keeps its
/// length, and every object keeps its pipeline, its vertex, index and
/// uniform buffers, its counts and its textures: a handle resolves to the
/// same buffers after any run of updates, and only visibility can differ.
pub proof fn lemma_updates_keep_handles(objects: Seq<RObject>, updates: Seq<(int, bool)>, h: int)
    requires
        0 <= h < objects.len(),
        forall|k: int| 0 <= k < updates.len() ==> 0 <= (#[trigger] updates[k]).0 < objects.len(),
    ensures
        spec_apply_updates(objects, updates).len() == objects.len(),
        spec_apply_updates(objects, updates)[h] == spec_touch(
            objects[h],
            spec_apply_updates(objects, updates)[h].visible,
        ),
    decreases updates.len(),
{
    if updates.len() > 0 {
        let earlier = updates.drop_last();
        assert forall|k: int| 0 <= k < earlier.len() implies 0 <= (#[trigger] earlier[k]).0
            < objects.len() by {
            assert(earlier[k] == updates[k]);
        }
        lemma_updates_keep_handles(objects, earlier, h);
        assert(0 <= updates[updates.len() - 1].0 < objects.len());
    }
}

/// Visibility after a run of updates is that of the last update that named
/// the object.
pub proof fn lemma_last_update_wins(
    objects: Seq<RObject>,
    updates: Seq<(int, bool)>,
    h: int,
    visible: bool,
)
    requires
        0 <= h < objects.len(),
        forall|k: int| 0 <= k < updates.len() ==> 0 <= (#[trigger] updates[k]).0 < objects.len(),
    ensures
        spec_apply_updates(objects, updates.push((h, visible)))[h].visible == visible,
{
    let all = updates.push((h, visible));
    assert(all.drop_last() =~= updates);
    lemma_updates_keep_handles(objects, updates, h);
}

/// Keeping handles carries over from step to step.
pub proof fn lemma_keeps_handles_twice(first: Renderer, second: Renderer, third: Renderer)
    requires
        second.spec_keeps_handles(first),
        third.spec_keeps_handles(second),
    ensures
        third.spec_keeps_handles(first),
{
    assert forall|i: int| 0 <= i < first.objects@.len() implies spec_same_geometry(
        #[trigger] third.objects@[i],
        first.objects@[i],
    ) by {
        assert(spec_same_geometry(second.objects@[i], first.objects@[i]));
    }
    assert forall|p: int| 0 <= p < first.pipelines@.len() implies spec_same_pipeline(
        #[trigger] third.pipelines@[p],
        first.pipelines@[p],
    ) by {
        assert(spec_same_pipeline(second.pipelines@[p], first.pipelines@[p]));
    }
    assert forall|b: int| 0 <= b < first.buffers@.len() implies #[trigger] third.buffers@[b]
        == first.buffers@[b] by {
        assert(second.buffers@[b] == first.buffers@[b]);
    }
}

/// Handle stability across any history. Through any run of states in which
/// each state keeps the handles of the one before, as every operation but
/// `destroy` ensures, a handle that resolved at the start resolves at the
/// end, to the same pipeline and the same vertex and index buffers, and
/// those buffers are the buffers they were.
pub proof fn lemma_handle_outlives_history(history: Seq<Renderer>, h: int)
    requires
        history.len() > 0,
        forall|k: int|
            0 < k < history.len() ==> (#[trigger] history[k]).spec_keeps_handles(history[k - 1]),
        0 <= h < history[0].objects@.len(),
        history[0].wf(),
    ensures
        history.last().spec_keeps_handles(history[0]),
        h < history.last().objects@.len(),
        spec_same_geometry(history.last().objects@[h], history[0].objects@[h]),
        history.last().buffers@[history[0].objects@[h].v_buffer as int]
            == history[0].buffers@[history[0].objects@[h].v_buffer as int],
    decreases history.len(),
{
    let first = history[0];
    assert(first.object_ok(first.objects@[h]));
    if history.len() == 1 {
        assert(first.spec_keeps_handles(first));
    } else {
        let earlier = history.drop_last();
        assert forall|k: int| 0 < k < earlier.len() implies (#[trigger] earlier[k]).spec_keeps_handles(
            earlier[k - 1],
        ) by {
            assert(earlier[k] == history[k]);
            assert(earlier[k - 1] == history[k - 1]);
        }
        lemma_handle_outlives_history(earlier, h);
        let n = history.len() - 1;
        assert(history[n].spec_keeps_handles(history[n - 1]));
        assert(earlier.last() == history[n - 1]);
        lemma_keeps_handles_twice(first, history[n - 1], history[n]);
    }
}

/// Every draw call of a pipeline's list comes from a visible object on the
/// list.
pub proof fn lemma_pipeline_draws_are_visible(
    objects: Seq<RObject>,
    indices: Seq<usize>,
    upto: int,
    d: RDrawCall,
)
    requires
        0 <= upto <= indices.len(),
        spec_pipeline_draws(objects, indices, upto).contains(d),
    ensures
        exists|k: int|
            0 <= k < upto && objects[(#[trigger] indices[k]) as int].visible && d == spec_draw_call(
                objects[indices[k] as int],
                indices[k] as int,
            ),
    decreases upto,
{
    let draws = spec_pipeline_draws(objects, indices, upto);
    let at = draws.index_of(d);
    assert(draws[at] == d);
    if upto > 0 {
        let before = spec_pipeline_draws(objects, indices, upto - 1);
        let id = indices[upto - 1] as int;
        if objects[id].visible && at == before.len() {
            assert(d == spec_draw_call(objects[id], id));
        } else {
            assert(before[at] == d);
            lemma_pipeline_draws_are_visible(objects, indices, upto - 1, d);
        }
    }
}

/// Every visible object on a pipeline's list has its draw call among the
/// pipeline's draw calls.
pub proof fn lemma_pipeline_draws_every_visible(
    objects: Seq<RObject>,
    indices: Seq<usize>,
    upto: int,
    k: int,
)
    requires
        0 <= k < upto <= indices.len(),
        objects[indices[k] as int].visible,
    ensures
        spec_pipeline_draws(objects, indices, upto).contains(
            spec_draw_call(objects[indices[k] as int], indices[k] as int),
        ),
    decreases upto,
{
    let d = spec_draw_call(objects[indices[k] as int], indices[k] as int);
    let draws = spec_pipeline_draws(objects, indices, upto);
    let before = spec_pipeline_draws(objects, indices, upto - 1);
    if k == upto - 1 {
        assert(draws[before.len() as int] == d);
    } else {
        lemma_pipeline_draws_every_visible(objects, indices, upto - 1, k);
        let at = before.index_of(d);
        assert(before[at] == d);
        assert(draws[at] == d);
    }
}

/// Invisible objects are skipped. Every draw call of a frame draws a visible
/// object, in the pipeline that the object belongs to, and that pipeline is
/// one of those the frame was asked for.
pub proof fn lemma_frame_draws_are_visible(
    r: Renderer,
    pipeline_ids: Seq<RPipelineId>,
    upto: int,
    d: RDrawCall,
)
    requires
        r.wf(),
        0 <= upto <= pipeline_ids.len(),
        forall|i: int|
            0 <= i < pipeline_ids.len() ==> (#[trigger] pipeline_ids[i]).0 < r.pipelines@.len(),
        r.spec_frame_draws(pipeline_ids, upto).contains(d),
    ensures
        exists|i: int, n: int|
            0 <= i < r.objects@.len() && 0 <= n < upto && (#[trigger] r.objects@[i]).visible && d
                == spec_draw_call(r.objects@[i], i) && (#[trigger] pipeline_ids[n])
                == r.objects@[i].pipe_id,
    decreases upto,
{
    let draws = r.spec_frame_draws(pipeline_ids, upto);
    let at = draws.index_of(d);
    assert(draws[at] == d);
    if upto > 0 {
        let p = pipeline_ids[upto - 1].0 as int;
        let indices = r.pipelines@[p].obj_indices@;
        let before = r.spec_frame_draws(pipeline_ids, upto - 1);
        let last = spec_pipeline_draws(r.objects@, indices, indices.len() as int);
        if at < before.len() {
            assert(before[at] == d);
            lemma_frame_draws_are_visible(r, pipeline_ids, upto - 1, d);
        } else {
            assert(last[at - before.len()] == d);
            lemma_pipeline_draws_are_visible(r.objects@, indices, indices.len() as int, d);
            let k = choose|k: int|
                0 <= k < indices.len() && r.objects@[(#[trigger] indices[k]) as int].visible && d
                    == spec_draw_call(r.objects@[indices[k] as int], indices[k] as int);
            let i = indices[k] as int;
            assert(r.objects@[i].pipe_id.0 == p);
            assert(pipeline_ids[upto - 1] == r.objects@[i].pipe_id);
        }
    }
}

/// Visible objects are drawn. A frame that was asked for an object's
/// pipeline holds the draw call of that object if the object is visible.
pub proof fn lemma_frame_draws_every_visible(
    r: Renderer,
    pipeline_ids: Seq<RPipelineId>,
    upto: int,
    n: int,
    i: usize,
)
    requires
        r.wf(),
        0 <= n < upto <= pipeline_ids.len(),
        forall|j: int|
            0 <= j < pipeline_ids.len() ==> (#[trigger] pipeline_ids[j]).0 < r.pipelines@.len(),
        i < r.objects@.len(),
        r.objects@[i as int].visible,
        pipeline_ids[n] == r.objects@[i as int].pipe_id,
    ensures
        r.spec_frame_draws(pipeline_ids, upto).contains(
            spec_draw_call(r.objects@[i as int], i as int),
        ),
    decreases upto,
{
    let d = spec_draw_call(r.objects@[i as int], i as int);
    let draws = r.spec_frame_draws(pipeline_ids, upto);
    let p = pipeline_ids[upto - 1].0 as int;
    let indices = r.pipelines@[p].obj_indices@;
    let before = r.spec_frame_draws(pipeline_ids, upto - 1);
    let last = spec_pipeline_draws(r.objects@, indices, indices.len() as int);
    if n == upto - 1 {
        assert(r.pipelines@[r.objects@[i as int].pipe_id.0 as int].obj_indices@.contains(
            (i as int) as usize,
        ));
        assert(indices.contains(i));
        let k = indices.index_of(i);
        assert(indices[k] == i);
        lemma_pipeline_draws_every_visible(r.objects@, indices, indices.len() as int, k);
        let at = last.index_of(d);
        assert(last[at] == d);
        assert(draws[before.len() + at] == d);
    } else {
        lemma_frame_draws_every_visible(r, pipeline_ids, upto - 1, n, i);
        let at = before.index_of(d);
        assert(before[at] == d);
        assert(draws[at] == d);
    }
}

/// Resizing in place. After a texture is resized the tables are still
/// consistent, so a frame can be built before any object is rebound, and it
/// is the frame that would have been built before: the three rows of the
/// texture have the new size, every other texture row and every other table
/// is untouched.
pub proof fn lemma_resize_keeps_frames(
    before: Renderer,
    after: Renderer,
    id: RTextureId,
    width: u32,
    height: u32,
    pipeline_ids: Seq<RPipelineId>,
    upto: int,
)
    requires
        before.wf(),
        before.texture_ok(id),
        after.textures@ == before.textures@.update(
            id.base as int,
            RTexture {
                width,
                height,
                samples: 1,
                format: before.textures@[id.base as int].format,
            },
        ).update(id.msaa as int, RTexture::spec_msaa(width, height)).update(
            id.zbuffer as int,
            RTexture::spec_depth(width, height),
        ),
        after.pipelines == before.pipelines,
        after.objects == before.objects,
        after.buffers == before.buffers,
    ensures
        after.wf(),
        after.texture_ok(id),
        after.textures@.len() == before.textures@.len(),
        after.textures@[id.base as int].width == width,
        after.textures@[id.base as int].height == height,
        after.textures@[id.base as int].format == before.textures@[id.base as int].format,
        after.textures@[id.msaa as int] == RTexture::spec_msaa(width, height),
        after.textures@[id.zbuffer as int] == RTexture::spec_depth(width, height),
        forall|j: int|
            0 <= j < before.textures@.len() && j != id.base && j != id.msaa && j != id.zbuffer
                ==> after.textures@[j] == before.textures@[j],
        after.spec_frame_draws(pipeline_ids, upto) == before.spec_frame_draws(pipeline_ids, upto),
    decreases upto,
{
    assert forall|i: int| 0 <= i < after.objects@.len() implies after.object_ok(
        #[trigger] after.objects@[i],
    ) by {
        assert(before.object_ok(before.objects@[i]));
    }
    if upto > 0 {
        lemma_resize_keeps_frames(before, after, id, width, height, pipeline_ids, upto - 1);
    }
}

/// Bytes in one row of an image with four bytes per pixel, as a texture
/// upload states them.
pub fn rgba_row_bytes(width: u32) -> (bytes: u32)
    requires
        4 * width <= u32::MAX,
    ensures
        bytes == 4 * width,
{
    4 * width
}

/// The size a new texture gets: that of the decoded image where there is
/// one, else the size asked for.
pub open spec fn spec_texture_size(width: u32, height: u32, image_size: Option<(u32, u32)>) -> (
    u32,
    u32,
) {
    match image_size {
        Some(size) => size,
        None => (width, height),
    }
}

} // verus!
