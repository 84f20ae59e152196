//! Per-frame object updates: the camera an object is seen through, the
//! fluent builder for one update, and the word layout of what an update
//! uploads.

use vstd::prelude::*;
use crate::words::{RColor, Vec2, Vec3, WORD_HUNDRED, WORD_ONE, WORD_THOUSAND, WORD_ZERO};

verus! {

/// Which projection a camera resolves to.
#[derive(Debug, Clone, Copy, PartialEq, Eq, Structural)]
pub enum RProjection {
    Orthographic,
    Perspective,
    /// No projection at all: the identity matrix.
    Identity,
}

/// Projection parameters. All scalars are words.
#[derive(Debug, Clone, Copy, PartialEq, Eq, Structural)]
pub struct RCamera {
    pub cam_type: u8,
    pub position: Vec3,
    pub look_at: Vec3,
    pub up: Vec3,
    pub fov_y: u32,
    pub near: u32,
    pub far: u32,
    pub target_size: Option<Vec2>,
}

/// A rotation, by axis and angle or by Euler angles. Angles are in degrees.
#[derive(Debug, Clone, Copy, PartialEq, Eq, Structural)]
pub enum RRotation {
    AxisAngle(Vec3, u32),
    Euler(u32, u32, u32),
}

/// One per-frame write to a render object.
#[derive(Debug)]
pub struct RObjectUpdate<'a> {
    pub translate: Vec3,
    pub rotate: RRotation,
    pub scale: Vec3,
    pub visible: bool,
    pub camera: Option<&'a RCamera>,
    pub gen_buf: [u32; 64],
    pub uniforms: Vec<&'a [u8]>,
    pub anim_transforms: Vec<[u32; 16]>,
}

impl RCamera {
    pub const ORTHOGRAPHIC: u8 = 1;

    pub const PERSPECTIVE: u8 = 2;

    /// The camera at `position` looking at the origin with the y axis up.
    pub open spec fn spec_looking_at_origin(
        cam_type: u8,
        depth: u32,
        fov_y: u32,
        near: u32,
        far: u32,
    ) -> RCamera {
        RCamera {
            cam_type,
            position: Vec3 { x: WORD_ZERO, y: WORD_ZERO, z: depth },
            look_at: Vec3 { x: WORD_ZERO, y: WORD_ZERO, z: WORD_ZERO },
            up: Vec3 { x: WORD_ZERO, y: WORD_ONE, z: WORD_ZERO },
            fov_y,
            near,
            far,
            target_size: None,
        }
    }

    /// The camera that stands in wherever an update names none:
    /// orthographic, a hundred units in front of the origin, near plane at
    /// zero, far plane at a thousand, sized by the screen.
    pub open spec fn spec_default() -> RCamera {
        Self::spec_looking_at_origin(1, WORD_HUNDRED, WORD_ZERO, WORD_ZERO, WORD_THOUSAND)
    }

    /// An orthographic camera a hundred units in front of the origin.
    pub fn new_ortho(near: u32, far: u32) -> (cam: Self)
        ensures
            cam == Self::spec_looking_at_origin(1, WORD_HUNDRED, WORD_ZERO, near, far),
    {
        RCamera {
            cam_type: RCamera::ORTHOGRAPHIC,
            position: Vec3 { x: WORD_ZERO, y: WORD_ZERO, z: WORD_HUNDRED },
            look_at: Vec3 { x: WORD_ZERO, y: WORD_ZERO, z: WORD_ZERO },
            up: Vec3 { x: WORD_ZERO, y: WORD_ONE, z: WORD_ZERO },
            fov_y: WORD_ZERO,
            near,
            far,
            target_size: None,
        }
    }

    /// A perspective camera one unit in front of the origin.
    pub fn new_persp(fov_y: u32, near: u32, far: u32) -> (cam: Self)
        ensures
            cam == Self::spec_looking_at_origin(2, WORD_ONE, fov_y, near, far),
    {
        RCamera {
            cam_type: RCamera::PERSPECTIVE,
            position: Vec3 { x: WORD_ZERO, y: WORD_ZERO, z: WORD_ONE },
            look_at: Vec3 { x: WORD_ZERO, y: WORD_ZERO, z: WORD_ZERO },
            up: Vec3 { x: WORD_ZERO, y: WORD_ONE, z: WORD_ZERO },
            fov_y,
            near,
            far,
            target_size: None,
        }
    }

    /// Type 1 is orthographic, type 2 perspective; any other type projects
    /// by the identity.
    pub open spec fn spec_projection(self) -> RProjection {
        if self.cam_type == 1 {
            RProjection::Orthographic
        } else if self.cam_type == 2 {
            RProjection::Perspective
        } else {
            RProjection::Identity
        }
    }

    /// The projection this camera resolves to.
    pub fn projection(&self) -> (p: RProjection)
        ensures
            p == self.spec_projection(),
    {
        if self.cam_type == RCamera::ORTHOGRAPHIC {
            RProjection::Orthographic
        } else if self.cam_type == RCamera::PERSPECTIVE {
            RProjection::Perspective
        } else {
            RProjection::Identity
        }
    }
}

impl Default for RCamera {
    fn default() -> (cam: Self)
        ensures
            cam == RCamera::spec_default(),
    {
        RCamera::new_ortho(WORD_ZERO, WORD_THOUSAND)
    }
}

/// The general buffer that an update starts from: opaque white in the color
/// slot, zero everywhere else.
pub open spec fn spec_default_gen_buf() -> Seq<u32> {
    Seq::new(64, |i: int| if i < 4 { WORD_ONE } else { WORD_ZERO })
}

impl<'a> RObjectUpdate<'a> {
    /// The update that changes nothing: no translation, no rotation, unit
    /// scale, visible, no camera of its own, opaque white.
    pub open spec fn is_default(self) -> bool {
        &&& self.translate == (Vec3 { x: WORD_ZERO, y: WORD_ZERO, z: WORD_ZERO })
        &&& self.rotate == RRotation::AxisAngle(
            Vec3 { x: WORD_ZERO, y: WORD_ZERO, z: WORD_ONE },
            WORD_ZERO,
        )
        &&& self.scale == (Vec3 { x: WORD_ONE, y: WORD_ONE, z: WORD_ONE })
        &&& self.visible
        &&& self.camera.is_none()
        &&& self.gen_buf@ == spec_default_gen_buf()
        &&& self.uniforms@.len() == 0
        &&& self.anim_transforms@.len() == 0
    }

    /// Moves the object to `pos`.
    pub fn with_position(self, pos: Vec3) -> (u: Self)
        ensures
            u == (RObjectUpdate { translate: pos, ..self }),
    {
        let mut u = self;
        u.translate = pos;
        u
    }

    /// Rotates the object about `axis`. Replaces any rotation set before.
    pub fn with_rotation(self, axis: Vec3, angle_deg: u32) -> (u: Self)
        ensures
            u == (RObjectUpdate { rotate: RRotation::AxisAngle(axis, angle_deg), ..self }),
    {
        let mut u = self;
        u.rotate = RRotation::AxisAngle(axis, angle_deg);
        u
    }

    /// Rotates the object by Euler angles. Replaces any rotation set before.
    pub fn with_euler_rotation(self, roll: u32, pitch: u32, yaw: u32) -> (u: Self)
        ensures
            u == (RObjectUpdate { rotate: RRotation::Euler(roll, pitch, yaw), ..self }),
    {
        let mut u = self;
        u.rotate = RRotation::Euler(roll, pitch, yaw);
        u
    }

    /// Scales the object.
    pub fn with_scale(self, scale: Vec3) -> (u: Self)
        ensures
            u == (RObjectUpdate { scale, ..self }),
    {
        let mut u = self;
        u.scale = scale;
        u
    }

    /// Shows the object through `camera` instead of the default camera.
    pub fn with_camera(self, camera: &'a RCamera) -> (u: Self)
        ensures
            u == (RObjectUpdate { camera: Some(camera), ..self }),
    {
        let mut u = self;
        u.camera = Some(camera);
        u
    }

    /// Writes the color into the first four words of the general buffer.
    pub fn with_color(self, color: RColor) -> (u: Self)
        ensures
            u.gen_buf@ == self.gen_buf@.update(0, color.r).update(1, color.g).update(
                2,
                color.b,
            ).update(3, color.a),
            u == (RObjectUpdate { gen_buf: u.gen_buf, ..self }),
    {
        let mut u = self;
        u.gen_buf[0] = color.r;
        u.gen_buf[1] = color.g;
        u.gen_buf[2] = color.b;
        u.gen_buf[3] = color.a;
        u
    }

    /// Writes the size and corner radius of a rounded rectangle into words
    /// four to six of the general buffer.
    pub fn with_round_border(self, rect_size: Vec2, radius: u32) -> (u: Self)
        ensures
            u.gen_buf@ == self.gen_buf@.update(4, rect_size.x).update(5, rect_size.y).update(
                6,
                radius,
            ),
            u == (RObjectUpdate { gen_buf: u.gen_buf, ..self }),
    {
        let mut u = self;
        u.gen_buf[4] = rect_size.x;
        u.gen_buf[5] = rect_size.y;
        u.gen_buf[6] = radius;
        u
    }

    /// Replaces the custom uniform payloads.
    pub fn with_uniforms(self, uniforms: Vec<&'a [u8]>) -> (u: Self)
        ensures
            u == (RObjectUpdate { uniforms, ..self }),
    {
        let mut u = self;
        u.uniforms = uniforms;
        u
    }

    /// Replaces the joint transforms.
    pub fn with_anim(self, transforms: Vec<[u32; 16]>) -> (u: Self)
        ensures
            u == (RObjectUpdate { anim_transforms: transforms, ..self }),
    {
        let mut u = self;
        u.anim_transforms = transforms;
        u
    }
}

impl Default for RObjectUpdate<'_> {
    fn default() -> (u: Self)
        ensures
            u.is_default(),
    {
        let mut gen_buf = [WORD_ZERO;64];
        gen_buf[0] = WORD_ONE;
        gen_buf[1] = WORD_ONE;
        gen_buf[2] = WORD_ONE;
        gen_buf[3] = WORD_ONE;
        assert(gen_buf@ =~= spec_default_gen_buf());
        RObjectUpdate {
            translate: Vec3 { x: WORD_ZERO, y: WORD_ZERO, z: WORD_ZERO },
            rotate: RRotation::AxisAngle(
                Vec3 { x: WORD_ZERO, y: WORD_ZERO, z: WORD_ONE },
                WORD_ZERO,
            ),
            scale: Vec3 { x: WORD_ONE, y: WORD_ONE, z: WORD_ONE },
            visible: true,
            camera: None,
            gen_buf,
            uniforms: Vec::new(),
            anim_transforms: Vec::new(),
        }
    }
}

/// Number of joint transforms that reach the device: as many as were given,
/// but no more than the object has room for.
pub open spec fn spec_joint_count(max_joints: int, given: int) -> int {
    if given < max_joints {
        given
    } else {
        max_joints
    }
}

/// The first `count` transforms laid end to end, sixteen words each.
pub open spec fn spec_joint_words(transforms: Seq<[u32; 16]>, count: int) -> Seq<u32> {
    Seq::new((16 * count) as nat, |k: int| transforms[k / 16]@[k % 16])
}

/// Packs joint transforms end to end into one word buffer. Transforms
/// beyond `max_joints` are dropped.
pub fn pack_joints(transforms: &Vec<[u32; 16]>, max_joints: usize) -> (words: Vec<u32>)
    ensures
        words@ == spec_joint_words(
            transforms@,
            spec_joint_count(max_joints as int, transforms@.len() as int),
        ),
{
    let count: usize = if transforms.len() < max_joints {
        transforms.len()
    } else {
        max_joints
    };
    let mut words: Vec<u32> = Vec::new();
    let mut i: usize = 0;
    while i < count
        invariant
            i <= count <= transforms@.len(),
            words@ == spec_joint_words(transforms@, i as int),
        decreases count - i,
    {
        let a = &transforms[i];
        let mut j: usize = 0;
        while j < 16
            invariant
                j <= 16,
                i < count <= transforms@.len(),
                *a == transforms@[i as int],
                words@.len() == 16 * i + j,
                forall|k: int| 0 <= k < 16 * i + j ==> words@[k] == transforms@[k / 16]@[k % 16],
            decreases 16 - j,
        {
            words.push(a[j]);
            j += 1;
        }
        i += 1;
        assert(words@ =~= spec_joint_words(transforms@, i as int));
    }
    words
}

/// Model, view and projection laid end to end: the matrix block of an
/// object.
pub open spec fn spec_merge_mvp(model: Seq<u32>, view: Seq<u32>, proj: Seq<u32>) -> Seq<u32> {
    model + view + proj
}

/// Lays model, view and projection end to end.
pub fn merge_mvp(model: &[u32; 16], view: &[u32; 16], proj: &[u32; 16]) -> (mvp: [u32; 48])
    ensures
        mvp@ == spec_merge_mvp(model@, view@, proj@),
{
    let mut mvp = [WORD_ZERO;48];
    let mut i: usize = 0;
    while i < 48
        invariant
            i <= 48,
            forall|k: int|
                0 <= k < i ==> mvp@[k] == if k < 16 {
                    model@[k]
                } else if k < 32 {
                    view@[k - 16]
                } else {
                    proj@[k - 32]
                },
        decreases 48 - i,
    {
        if i < 16 {
            mvp[i] = model[i];
        } else if i < 32 {
            mvp[i] = view[i - 16];
        } else {
            mvp[i] = proj[i - 32];
        }
        i += 1;
    }
    assert(mvp@ =~= spec_merge_mvp(model@, view@, proj@));
    mvp
}

} // verus!
