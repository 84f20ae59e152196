//! Vertices as the device reads them: eight words for a static vertex,
//! sixteen for an animated one.

use vstd::prelude::*;

verus! {

/// A static vertex: position, texture coordinate, normal.
#[derive(Debug, Clone, Copy, PartialEq)]
pub struct RVertex {
    pub position: [u32; 3],
    pub uv: [u32; 2],
    pub normal: [u32; 3],
}

/// An animated vertex: a static vertex with the four joints that move it and
/// the weight of each.
#[derive(Debug, Clone, Copy, PartialEq)]
pub struct RVertexAnim {
    pub position: [u32; 3],
    pub uv: [u32; 2],
    pub normal: [u32; 3],
    pub joint_ids: [u32; 4],
    pub joint_weights: [u32; 4],
}

impl RVertex {
    /// The eight words of the vertex: position, uv, normal.
    pub open spec fn spec_words(self) -> Seq<u32> {
        self.position@ + self.uv@ + self.normal@
    }

    /// This vertex with joints attached.
    pub fn add_joints(&self, joints: [u32; 4], weights: [u32; 4]) -> (v: RVertexAnim)
        ensures
            v.position == self.position,
            v.uv == self.uv,
            v.normal == self.normal,
            v.joint_ids == joints,
            v.joint_weights == weights,
            v.spec_words() == self.spec_words() + joints@ + weights@,
    {
        RVertexAnim {
            position: self.position,
            uv: self.uv,
            normal: self.normal,
            joint_ids: joints,
            joint_weights: weights,
        }
    }

    /// The eight words of the vertex, in the order the device reads them.
    pub fn words(&self) -> (w: [u32; 8])
        ensures
            w@ == self.spec_words(),
    {
        let w = [
            self.position[0],
            self.position[1],
            self.position[2],
            self.uv[0],
            self.uv[1],
            self.normal[0],
            self.normal[1],
            self.normal[2],
        ];
        assert(w@ =~= self.spec_words());
        w
    }
}

impl RVertexAnim {
    /// The sixteen words of the vertex: position, uv, normal, joint ids,
    /// joint weights.
    pub open spec fn spec_words(self) -> Seq<u32> {
        self.position@ + self.uv@ + self.normal@ + self.joint_ids@ + self.joint_weights@
    }

    /// The sixteen words of the vertex, in the order the device reads them.
    pub fn words(&self) -> (w: [u32; 16])
        ensures
            w@ == self.spec_words(),
    {
        let w = [
            self.position[0],
            self.position[1],
            self.position[2],
            self.uv[0],
            self.uv[1],
            self.normal[0],
            self.normal[1],
            self.normal[2],
            self.joint_ids[0],
            self.joint_ids[1],
            self.joint_ids[2],
            self.joint_ids[3],
            self.joint_weights[0],
            self.joint_weights[1],
            self.joint_weights[2],
            self.joint_weights[3],
        ];
        assert(w@ =~= self.spec_words());
        w
    }
}

/// Static vertices laid end to end, eight words each.
pub open spec fn spec_vertex_words(vertices: Seq<RVertex>) -> Seq<u32> {
    Seq::new((8 * vertices.len()) as nat, |k: int| vertices[k / 8].spec_words()[k % 8])
}

/// Animated vertices laid end to end, sixteen words each.
pub open spec fn spec_anim_vertex_words(vertices: Seq<RVertexAnim>) -> Seq<u32> {
    Seq::new((16 * vertices.len()) as nat, |k: int| vertices[k / 16].spec_words()[k % 16])
}

/// Lays static vertices end to end.
pub fn pack_vertices(vertices: &Vec<RVertex>) -> (words: Vec<u32>)
    ensures
        words@ == spec_vertex_words(vertices@),
{
    let mut words: Vec<u32> = Vec::new();
    let mut i: usize = 0;
    while i < vertices.len()
        invariant
            i <= vertices@.len(),
            words@.len() == 8 * i,
            forall|k: int| 0 <= k < 8 * i ==> words@[k] == vertices@[k / 8].spec_words()[k % 8],
        decreases vertices@.len() - i,
    {
        let w = vertices[i].words();
        let mut j: usize = 0;
        while j < 8
            invariant
                j <= 8,
                i < vertices@.len(),
                w@ == vertices@[i as int].spec_words(),
                words@.len() == 8 * i + j,
                forall|k: int|
                    0 <= k < 8 * i + j ==> words@[k] == vertices@[k / 8].spec_words()[k % 8],
            decreases 8 - j,
        {
            words.push(w[j]);
            j += 1;
        }
        i += 1;
    }
    assert(words@ =~= spec_vertex_words(vertices@));
    words
}

/// Lays animated vertices end to end.
pub fn pack_anim_vertices(vertices: &Vec<RVertexAnim>) -> (words: Vec<u32>)
    ensures
        words@ == spec_anim_vertex_words(vertices@),
{
    let mut words: Vec<u32> = Vec::new();
    let mut i: usize = 0;
    while i < vertices.len()
        invariant
            i <= vertices@.len(),
            words@.len() == 16 * i,
            forall|k: int|
                0 <= k < 16 * i ==> words@[k] == vertices@[k / 16].spec_words()[k % 16],
        decreases vertices@.len() - i,
    {
        let w = vertices[i].words();
        let mut j: usize = 0;
        while j < 16
            invariant
                j <= 16,
                i < vertices@.len(),
                w@ == vertices@[i as int].spec_words(),
                words@.len() == 16 * i + j,
                forall|k: int|
                    0 <= k < 16 * i + j ==> words@[k] == vertices@[k / 16].spec_words()[k % 16],
            decreases 16 - j,
        {
            words.push(w[j]);
            j += 1;
        }
        i += 1;
    }
    assert(words@ =~= spec_anim_vertex_words(vertices@));
    words
}

} // verus!
