//! A pipeline that owns its objects. An object's handle is its position in
//! the pipeline's own list, so it means something only together with the
//! pipeline. Such a pipeline reads static vertices and has no joint data.

use vstd::prelude::*;
use crate::pipeline::{spec_vertex_stride, vertex_stride};
use crate::renderer::{
    spec_indices_fit, RBuffer, RBufferUse, RBufferWrite, RDrawCall, INDEX_BYTES,
};
use crate::update::{spec_merge_mvp, RObjectUpdate};
use crate::vertex::{pack_vertices, spec_vertex_words, RVertex};
use crate::words::words_of;

verus! {

/// What is needed to create an object of an owning pipeline. The textures
/// themselves stay with the caller, who says here which of the two there
/// are.
#[derive(Debug)]
pub struct RenderObjectSetup {
    pub vertex_data: Vec<RVertex>,
    pub instances: u32,
    pub indices: Vec<u32>,
    pub has_texture1: bool,
    pub has_texture2: bool,
    pub max_joints: usize,
}

/// One drawable instance of an owning pipeline. The buffer fields are
/// positions in the pipeline's buffer table.
#[derive(Debug, Clone, Copy, PartialEq, Eq, Structural)]
pub struct RenderObject {
    pub visible: bool,
    pub v_buffer: usize,
    pub v_count: usize,
    pub max_joints: usize,
    pub index_buffer: Option<usize>,
    pub index_count: u32,
    pub instances: u32,
    pub mvp_buffer: usize,
    pub gen_buffer: usize,
    pub has_texture1: bool,
    pub has_texture2: bool,
}

/// A pipeline together with the objects it draws and their buffers.
#[derive(Debug)]
pub struct ObjPipeline {
    pub use_depth: bool,
    pub min_stride: u32,
    pub objects: Vec<RenderObject>,
    pub buffers: Vec<RBuffer>,
}

impl Default for RenderObjectSetup {
    fn default() -> (setup: Self)
        ensures
            setup.vertex_data@.len() == 0,
            setup.indices@.len() == 0,
            setup.instances == 1,
            !setup.has_texture1,
            !setup.has_texture2,
            setup.max_joints == 0,
    {
        RenderObjectSetup {
            vertex_data: Vec::new(),
            instances: 1,
            indices: Vec::new(),
            has_texture1: false,
            has_texture2: false,
            max_joints: 0,
        }
    }
}

/// The draw call that the visible object at position `object` contributes.
pub open spec fn spec_owned_draw(o: RenderObject, object: int) -> RDrawCall {
    if o.index_buffer.is_some() {
        RDrawCall::Indexed {
            object: object as usize,
            index_count: o.index_count,
            instances: o.instances,
        }
    } else {
        RDrawCall::Plain {
            object: object as usize,
            vertex_count: o.v_count as u32,
            instances: o.instances,
        }
    }
}

/// The draw calls of the first `upto` objects: insertion order, invisible
/// objects left out.
pub open spec fn spec_owned_draws(objects: Seq<RenderObject>, upto: int) -> Seq<RDrawCall>
    decreases upto,
{
    if upto <= 0 {
        Seq::empty()
    } else {
        let before = spec_owned_draws(objects, upto - 1);
        if objects[upto - 1].visible {
            before.push(spec_owned_draw(objects[upto - 1], upto - 1))
        } else {
            before
        }
    }
}

impl ObjPipeline {
    /// Every object's buffers exist, and its vertex count fits a draw call.
    pub open spec fn wf(self) -> bool {
        forall|i: int|
            0 <= i < self.objects@.len() ==> {
                let o = #[trigger] self.objects@[i];
                &&& o.v_buffer < self.buffers@.len()
                &&& o.v_count <= u32::MAX
                &&& (o.index_buffer.is_some() ==> o.index_buffer.unwrap() < self.buffers@.len())
                &&& o.mvp_buffer < self.buffers@.len()
                &&& o.gen_buffer < self.buffers@.len()
            }
    }

    /// The row of a new object whose buffers start at position `first`: the
    /// vertex buffer, the index buffer where the object has indices, then
    /// the two uniform buffers.
    pub open spec fn spec_object_row(first: nat, setup: RenderObjectSetup) -> RenderObject {
        let vertices = setup.vertex_data@.len();
        let indices = setup.indices@.len();
        let bind = if indices > 0 {
            first + 2
        } else {
            first + 1
        };
        RenderObject {
            visible: true,
            v_buffer: first as usize,
            v_count: vertices as usize,
            max_joints: setup.max_joints,
            index_buffer: if indices > 0 {
                Some((first + 1) as usize)
            } else {
                None
            },
            index_count: indices as u32,
            instances: 1,
            mvp_buffer: bind as usize,
            gen_buffer: (bind + 1) as usize,
            has_texture1: setup.has_texture1,
            has_texture2: setup.has_texture2,
        }
    }

    /// The buffers of a new object.
    pub open spec fn spec_object_buffers(self, vertices: nat, indices: nat) -> Seq<RBuffer> {
        let vertex = RBuffer {
            size: (spec_vertex_stride(false) * vertices) as u64,
            usage: RBufferUse::Vertex,
        };
        let uniform = RBuffer { size: self.min_stride as u64, usage: RBufferUse::Uniform };
        if indices > 0 {
            seq![
                vertex,
                RBuffer { size: (INDEX_BYTES * indices) as u64, usage: RBufferUse::Index },
                uniform,
                uniform,
            ]
        } else {
            seq![vertex, uniform, uniform]
        }
    }

    /// A pipeline without objects.
    pub fn new(min_stride: u32, use_depth: bool) -> (p: Self)
        ensures
            p.wf(),
            p.min_stride == min_stride,
            p.use_depth == use_depth,
            p.objects@.len() == 0,
            p.buffers@.len() == 0,
    {
        ObjPipeline { use_depth, min_stride, objects: Vec::new(), buffers: Vec::new() }
    }

    /// Appends an object and returns its position in the pipeline, with the
    /// writes that fill its vertex and index buffers. The object starts
    /// visible, with one instance.
    pub fn add_object(&mut self, setup: &RenderObjectSetup) -> (added: (usize, Vec<RBufferWrite>))
        requires
            old(self).wf(),
            setup.vertex_data@.len() <= u32::MAX,
            setup.indices@.len() <= u32::MAX,
            spec_indices_fit(setup.indices@, setup.vertex_data@.len()),
        ensures
            final(self).wf(),
            added.0 == old(self).objects@.len(),
            final(self).objects@ == old(self).objects@.push(
                Self::spec_object_row(old(self).buffers@.len(), *setup),
            ),
            final(self).buffers@ == old(self).buffers@ + old(self).spec_object_buffers(
                setup.vertex_data@.len(),
                setup.indices@.len(),
            ),
            added.1@.len() == if setup.indices@.len() > 0 {
                2int
            } else {
                1int
            },
            added.1@[0].buffer == old(self).buffers@.len(),
            added.1@[0].words@ == spec_vertex_words(setup.vertex_data@),
            setup.indices@.len() > 0 ==> {
                &&& added.1@[1].buffer == old(self).buffers@.len() + 1
                &&& added.1@[1].words@ == setup.indices@
            },
            final(self).min_stride == old(self).min_stride,
            final(self).use_depth == old(self).use_depth,
    {
        let mut writes: Vec<RBufferWrite> = Vec::new();
        let vlen: usize = setup.vertex_data.len();
        let stride: u64 = vertex_stride(false);
        assert(stride * (vlen as u64) <= 64 * 0xFFFF_FFFF) by (nonlinear_arith)
            requires
                stride <= 64,
                vlen <= 0xFFFF_FFFF,
        ;
        let v_buffer: usize = self.buffers.len();
        self.buffers.push(RBuffer { size: stride * (vlen as u64), usage: RBufferUse::Vertex });
        writes.push(RBufferWrite { buffer: v_buffer, words: pack_vertices(&setup.vertex_data) });
        let mut index_buffer: Option<usize> = None;
        let ilen: usize = setup.indices.len();
        if ilen > 0 {
            let i_buffer: usize = self.buffers.len();
            self.buffers.push(
                RBuffer { size: INDEX_BYTES * (ilen as u64), usage: RBufferUse::Index },
            );
            writes.push(RBufferWrite { buffer: i_buffer, words: setup.indices.clone() });
            index_buffer = Some(i_buffer);
        }
        let mvp_buffer: usize = self.buffers.len();
        self.buffers.push(RBuffer { size: self.min_stride as u64, usage: RBufferUse::Uniform });
        let gen_buffer: usize = self.buffers.len();
        self.buffers.push(RBuffer { size: self.min_stride as u64, usage: RBufferUse::Uniform });
        proof {
            assert(self.buffers@ =~= old(self).buffers@ + old(self).spec_object_buffers(
                setup.vertex_data@.len(),
                setup.indices@.len(),
            ));
        }
        let idx: usize = self.objects.len();
        self.objects.push(
            RenderObject {
                visible: true,
                v_buffer,
                v_count: vlen,
                max_joints: setup.max_joints,
                index_buffer,
                index_count: ilen as u32,
                instances: 1,
                mvp_buffer,
                gen_buffer,
                has_texture1: setup.has_texture1,
                has_texture2: setup.has_texture2,
            },
        );
        (idx, writes)
    }

    /// Applies one update to an object: sets its visibility and returns the
    /// writes of its matrix block and its general buffer.
    pub fn update_object(
        &mut self,
        idx: usize,
        update: &RObjectUpdate,
        model: &[u32; 16],
        view: &[u32; 16],
        proj: &[u32; 16],
    ) -> (writes: Vec<RBufferWrite>)
        requires
            old(self).wf(),
            idx < old(self).objects@.len(),
        ensures
            final(self).wf(),
            final(self).objects@ == old(self).objects@.update(
                idx as int,
                RenderObject { visible: update.visible, ..old(self).objects@[idx as int] },
            ),
            final(self).buffers == old(self).buffers,
            final(self).min_stride == old(self).min_stride,
            final(self).use_depth == old(self).use_depth,
            writes@.len() == 2,
            writes@[0].buffer == old(self).objects@[idx as int].mvp_buffer,
            writes@[0].words@ == spec_merge_mvp(model@, view@, proj@),
            writes@[1].buffer == old(self).objects@[idx as int].gen_buffer,
            writes@[1].words@ == update.gen_buf@,
    {
        let mut o = self.objects[idx];
        o.visible = update.visible;
        self.objects.set(idx, o);
        let mut mvp: Vec<u32> = words_of(model);
        let mut view_words = words_of(view);
        let mut proj_words = words_of(proj);
        mvp.append(&mut view_words);
        mvp.append(&mut proj_words);
        let mut writes: Vec<RBufferWrite> = Vec::new();
        writes.push(RBufferWrite { buffer: o.mvp_buffer, words: mvp });
        writes.push(RBufferWrite { buffer: o.gen_buffer, words: words_of(&update.gen_buf) });
        writes
    }

    /// The draw calls of the pipeline: its objects in insertion order,
    /// invisible ones left out.
    pub fn render(&self) -> (draws: Vec<RDrawCall>)
        requires
            self.wf(),
        ensures
            draws@ == spec_owned_draws(self.objects@, self.objects@.len() as int),
    {
        let mut draws: Vec<RDrawCall> = Vec::new();
        let mut i: usize = 0;
        while i < self.objects.len()
            invariant
                self.wf(),
                i <= self.objects@.len(),
                draws@ == spec_owned_draws(self.objects@, i as int),
            decreases self.objects@.len() - i,
        {
            let o = &self.objects[i];
            if o.visible {
                let call = match o.index_buffer {
                    Some(_) => RDrawCall::Indexed {
                        object: i,
                        index_count: o.index_count,
                        instances: o.instances,
                    },
                    None => RDrawCall::Plain {
                        object: i,
                        vertex_count: o.v_count as u32,
                        instances: o.instances,
                    },
                };
                draws.push(call);
            }
            i += 1;
        }
        draws
    }

    /// Lets go of every object and buffer.
    pub fn destroy(&mut self)
        ensures
            final(self).wf(),
            final(self).objects@.len() == 0,
            final(self).buffers@.len() == 0,
            final(self).min_stride == old(self).min_stride,
            final(self).use_depth == old(self).use_depth,
    {
        self.objects.clear();
        self.buffers.clear();
    }
}

} // verus!
