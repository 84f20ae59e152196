//! Descriptors of signed-distance-field shapes, and the sixteen-word record
//! in which a shape is handed to the shader. All scalars are words.

use vstd::prelude::*;
use vstd::std_specs::convert::FromSpecImpl;
use crate::words::{RColor, Vec2, WORD_ONE, WORD_ZERO};

verus! {

/// The word of 10.0, the radius a shape starts with.
pub const WORD_TEN: u32 = 0x4120_0000;

/// Most shapes that one frame hands to the shader.
pub const MAX_SDF_OBJECTS: u32 = 100;

/// Kind of a shape drawn by the shader.
#[derive(Debug, Default, Clone, Copy, PartialEq, Eq, Structural)]
pub enum RSDFObjectType {
    #[default]
    Blank,
    Circle,
    Rectangle,
    Triangle,
    RectAngled,
    Pie,
}

/// Kind of a shape evaluated on the host.
#[derive(Debug, Default, Clone, Copy, PartialEq, Eq, Structural)]
pub enum SDFObjectType {
    #[default]
    Blank,
    Circle,
    Rectangle,
    Triangle,
    RectAngled,
    Line,
    Pie,
}

impl From<RSDFObjectType> for u32 {
    fn from(value: RSDFObjectType) -> (tag: u32) {
        match value {
            RSDFObjectType::Circle => 1,
            RSDFObjectType::Rectangle => 2,
            RSDFObjectType::Triangle => 3,
            RSDFObjectType::RectAngled => 4,
            _ => 0,
        }
    }
}

impl FromSpecImpl<RSDFObjectType> for u32 {
    open spec fn obeys_from_spec() -> bool {
        true
    }

    open spec fn from_spec(value: RSDFObjectType) -> u32 {
        value.spec_tag()
    }
}

impl RSDFObjectType {
    /// The tag by which the shader tells the kinds apart. Kinds the shader
    /// does not draw have tag zero.
    pub open spec fn spec_tag(self) -> u32 {
        match self {
            RSDFObjectType::Circle => 1,
            RSDFObjectType::Rectangle => 2,
            RSDFObjectType::Triangle => 3,
            RSDFObjectType::RectAngled => 4,
            _ => 0,
        }
    }
}

impl From<SDFObjectType> for u32 {
    fn from(value: SDFObjectType) -> (tag: u32) {
        match value {
            SDFObjectType::Circle => 1,
            SDFObjectType::Rectangle => 2,
            SDFObjectType::Triangle => 3,
            SDFObjectType::RectAngled => 4,
            SDFObjectType::Line => 5,
            _ => 0,
        }
    }
}

impl FromSpecImpl<SDFObjectType> for u32 {
    open spec fn obeys_from_spec() -> bool {
        true
    }

    open spec fn from_spec(value: SDFObjectType) -> u32 {
        value.spec_tag()
    }
}

impl SDFObjectType {
    /// The tag of a kind. Kinds without a distance function have tag zero.
    pub open spec fn spec_tag(self) -> u32 {
        match self {
            SDFObjectType::Circle => 1,
            SDFObjectType::Rectangle => 2,
            SDFObjectType::Triangle => 3,
            SDFObjectType::RectAngled => 4,
            SDFObjectType::Line => 5,
            _ => 0,
        }
    }
}

/// A shape drawn by the shader.
#[derive(Debug, Clone, Copy, PartialEq)]
pub struct RSDFObject {
    pub obj_type: RSDFObjectType,
    pub center: Vec2,
    pub radius: u32,
    pub rect_size: Vec2,
    pub corner_radius: u32,
    pub rotation: u32,
    pub color: RColor,
    pub line_thickness: u32,
    pub tri_size: (Vec2, Vec2),
}

/// A shape evaluated on the host.
#[derive(Debug, Clone, Copy, PartialEq)]
pub struct SDFObject {
    pub obj_type: SDFObjectType,
    pub center: Vec2,
    pub radius: u32,
    pub rect_size: Vec2,
    pub corner_radius: u32,
    pub rotation: u32,
    pub line_thickness: u32,
    pub tri_size: (Vec2, Vec2),
}

/// A shape as the shader reads it: sixteen words.
#[derive(Debug, Clone, Copy, PartialEq)]
pub struct RSDFObjectC {
    pub object_type: u32,
    pub radius: u32,
    pub center: [u32; 2],
    pub v2: [u32; 2],
    pub corner_radius: u32,
    pub rotation: u32,
    pub onion: u32,
    pub v3: [u32; 2],
    pub buffer: u32,
    pub color: [u32; 4],
}

/// Frame data shared by all shapes, as the shader reads it.
#[derive(Debug, Clone, Copy, PartialEq, Eq, Structural)]
pub struct SysData {
    pub screen: Vec2,
    pub mouse_pos: Vec2,
    pub obj_count: u32,
    pub shadow_intensity: u32,
    pub light_pos: Vec2,
}

impl RSDFObject {
    /// The shape every constructor starts from: no kind, at the origin,
    /// radius ten, white, no rounding, no outline.
    pub open spec fn spec_default() -> RSDFObject {
        RSDFObject {
            obj_type: RSDFObjectType::Blank,
            center: Vec2 { x: WORD_ZERO, y: WORD_ZERO },
            radius: WORD_TEN,
            rect_size: Vec2 { x: WORD_ZERO, y: WORD_ZERO },
            corner_radius: WORD_ZERO,
            rotation: WORD_ZERO,
            color: RColor { r: WORD_ONE, g: WORD_ONE, b: WORD_ONE, a: WORD_ONE },
            line_thickness: WORD_ZERO,
            tri_size: (Vec2 { x: WORD_ZERO, y: WORD_ZERO }, Vec2 { x: WORD_ZERO, y: WORD_ZERO }),
        }
    }

    /// A circle of radius `r` about `pos`.
    pub fn circle(pos: Vec2, r: u32) -> (o: Self)
        ensures
            o == (RSDFObject {
                obj_type: RSDFObjectType::Circle,
                center: pos,
                radius: r,
                ..Self::spec_default()
            }),
    {
        let mut o = RSDFObject::default();
        o.obj_type = RSDFObjectType::Circle;
        o.center = pos;
        o.radius = r;
        o
    }

    /// A rectangle about `pos` with half-extents `size`: axis-aligned where
    /// no angle is given, else turned by the angle, which is in radians.
    pub fn rect(pos: Vec2, size: Vec2, angle_rad: Option<u32>) -> (o: Self)
        ensures
            o == (RSDFObject {
                obj_type: if angle_rad.is_some() {
                    RSDFObjectType::RectAngled
                } else {
                    RSDFObjectType::Rectangle
                },
                rotation: if angle_rad.is_some() {
                    angle_rad.unwrap()
                } else {
                    WORD_ZERO
                },
                center: pos,
                rect_size: size,
                ..Self::spec_default()
            }),
    {
        let mut o = RSDFObject::default();
        o.obj_type = RSDFObjectType::Rectangle;
        if let Some(a) = angle_rad {
            o.obj_type = RSDFObjectType::RectAngled;
            o.rotation = a;
        }
        o.center = pos;
        o.rect_size = size;
        o
    }

    /// A triangle with one corner at `pos` and the other two at the given
    /// offsets from it.
    pub fn triangle(pos: Vec2, rel_p1: Vec2, rel_p2: Vec2) -> (o: Self)
        ensures
            o == (RSDFObject {
                obj_type: RSDFObjectType::Triangle,
                center: pos,
                tri_size: (rel_p1, rel_p2),
                ..Self::spec_default()
            }),
    {
        let mut o = RSDFObject::default();
        o.obj_type = RSDFObjectType::Triangle;
        o.center = pos;
        o.tri_size = (rel_p1, rel_p2);
        o
    }

    pub fn with_color(self, color: RColor) -> (o: Self)
        ensures
            o == (RSDFObject { color, ..self }),
    {
        let mut o = self;
        o.color = color;
        o
    }

    /// Rounds the corners by `radius`.
    pub fn with_corner(self, radius: u32) -> (o: Self)
        ensures
            o == (RSDFObject { corner_radius: radius, ..self }),
    {
        let mut o = self;
        o.corner_radius = radius;
        o
    }

    /// Turns the filled shape into an outline of the given half-thickness.
    pub fn as_line(self, thickness: u32) -> (o: Self)
        ensures
            o == (RSDFObject { line_thickness: thickness, ..self }),
    {
        let mut o = self;
        o.line_thickness = thickness;
        o
    }
}

impl Default for RSDFObject {
    fn default() -> (o: Self)
        ensures
            o == RSDFObject::spec_default(),
    {
        RSDFObject {
            obj_type: RSDFObjectType::Blank,
            center: Vec2 { x: WORD_ZERO, y: WORD_ZERO },
            radius: WORD_TEN,
            rect_size: Vec2 { x: WORD_ZERO, y: WORD_ZERO },
            corner_radius: WORD_ZERO,
            rotation: WORD_ZERO,
            color: RColor { r: WORD_ONE, g: WORD_ONE, b: WORD_ONE, a: WORD_ONE },
            line_thickness: WORD_ZERO,
            tri_size: (Vec2 { x: WORD_ZERO, y: WORD_ZERO }, Vec2 { x: WORD_ZERO, y: WORD_ZERO }),
        }
    }
}

impl SDFObject {
    /// The shape every constructor starts from: no kind, at the origin,
    /// radius ten, no rounding, no outline.
    pub open spec fn spec_default() -> SDFObject {
        SDFObject {
            obj_type: SDFObjectType::Blank,
            center: Vec2 { x: WORD_ZERO, y: WORD_ZERO },
            radius: WORD_TEN,
            rect_size: Vec2 { x: WORD_ZERO, y: WORD_ZERO },
            corner_radius: WORD_ZERO,
            rotation: WORD_ZERO,
            line_thickness: WORD_ZERO,
            tri_size: (Vec2 { x: WORD_ZERO, y: WORD_ZERO }, Vec2 { x: WORD_ZERO, y: WORD_ZERO }),
        }
    }

    /// A circle of radius `r` about `pos`.
    pub fn circle(pos: Vec2, r: u32) -> (o: Self)
        ensures
            o == (SDFObject {
                obj_type: SDFObjectType::Circle,
                center: pos,
                radius: r,
                ..Self::spec_default()
            }),
    {
        let mut o = SDFObject::default();
        o.obj_type = SDFObjectType::Circle;
        o.center = pos;
        o.radius = r;
        o
    }

    /// A rectangle about `pos` with half-extents `size`: axis-aligned where
    /// no angle is given, else turned by the angle, which is in degrees.
    pub fn rect(pos: Vec2, size: Vec2, angle: Option<u32>) -> (o: Self)
        ensures
            o == (SDFObject {
                obj_type: if angle.is_some() {
                    SDFObjectType::RectAngled
                } else {
                    SDFObjectType::Rectangle
                },
                rotation: if angle.is_some() {
                    angle.unwrap()
                } else {
                    WORD_ZERO
                },
                center: pos,
                rect_size: size,
                ..Self::spec_default()
            }),
    {
        let mut o = SDFObject::default();
        o.obj_type = SDFObjectType::Rectangle;
        if let Some(a) = angle {
            o.obj_type = SDFObjectType::RectAngled;
            o.rotation = a;
        }
        o.center = pos;
        o.rect_size = size;
        o
    }

    /// A triangle with one corner at `pos` and the other two at the given
    /// offsets from it.
    pub fn triangle(pos: Vec2, rel_p1: Vec2, rel_p2: Vec2) -> (o: Self)
        ensures
            o == (SDFObject {
                obj_type: SDFObjectType::Triangle,
                center: pos,
                tri_size: (rel_p1, rel_p2),
                ..Self::spec_default()
            }),
    {
        let mut o = SDFObject::default();
        o.obj_type = SDFObjectType::Triangle;
        o.center = pos;
        o.tri_size = (rel_p1, rel_p2);
        o
    }

    /// The segment from `start` to `end`, drawn with the given half-thickness.
    /// The end points are kept in `center` and `rect_size`.
    pub fn line(start: Vec2, end: Vec2, thickness: u32) -> (o: Self)
        ensures
            o == (SDFObject {
                obj_type: SDFObjectType::Line,
                center: start,
                rect_size: end,
                line_thickness: thickness,
                ..Self::spec_default()
            }),
    {
        let mut o = SDFObject::default();
        o.obj_type = SDFObjectType::Line;
        o.center = start;
        o.rect_size = end;
        o.line_thickness = thickness;
        o
    }

    /// Rounds the corners by `radius`.
    pub fn with_corner(self, radius: u32) -> (o: Self)
        ensures
            o == (SDFObject { corner_radius: radius, ..self }),
    {
        let mut o = self;
        o.corner_radius = radius;
        o
    }

    /// Turns the filled shape into an outline of the given half-thickness.
    pub fn as_line(self, thickness: u32) -> (o: Self)
        ensures
            o == (SDFObject { line_thickness: thickness, ..self }),
    {
        let mut o = self;
        o.line_thickness = thickness;
        o
    }

    /// Moves the end points of a segment.
    pub fn update_line(&mut self, start: Vec2, end: Vec2)
        ensures
            *final(self) == (SDFObject { center: start, rect_size: end, ..*old(self) }),
    {
        self.center = start;
        self.rect_size = end;
    }
}

impl Default for SDFObject {
    fn default() -> (o: Self)
        ensures
            o == SDFObject::spec_default(),
    {
        SDFObject {
            obj_type: SDFObjectType::Blank,
            center: Vec2 { x: WORD_ZERO, y: WORD_ZERO },
            radius: WORD_TEN,
            rect_size: Vec2 { x: WORD_ZERO, y: WORD_ZERO },
            corner_radius: WORD_ZERO,
            rotation: WORD_ZERO,
            line_thickness: WORD_ZERO,
            tri_size: (Vec2 { x: WORD_ZERO, y: WORD_ZERO }, Vec2 { x: WORD_ZERO, y: WORD_ZERO }),
        }
    }
}

impl RSDFObjectC {
    /// The first of the two vectors of a shape's record: the first corner
    /// offset for a triangle, the half-extents for everything else.
    pub open spec fn spec_v2(a: RSDFObject) -> Vec2 {
        if a.obj_type == RSDFObjectType::Triangle {
            a.tri_size.0
        } else {
            a.rect_size
        }
    }

    /// The second vector of a shape's record: the second corner offset for
    /// a triangle, zero for everything else.
    pub open spec fn spec_v3(a: RSDFObject) -> Vec2 {
        if a.obj_type == RSDFObjectType::Triangle {
            a.tri_size.1
        } else {
            Vec2 { x: WORD_ZERO, y: WORD_ZERO }
        }
    }

    /// The sixteen words of a shape, in the order the shader reads them.
    pub open spec fn spec_words(a: RSDFObject) -> Seq<u32> {
        seq![
            a.obj_type.spec_tag(),
            a.radius,
            a.center.x,
            a.center.y,
            Self::spec_v2(a).x,
            Self::spec_v2(a).y,
            a.corner_radius,
            a.rotation,
            a.line_thickness,
            Self::spec_v3(a).x,
            Self::spec_v3(a).y,
            WORD_ZERO,
            a.color.r,
            a.color.g,
            a.color.b,
            a.color.a,
        ]
    }

    /// The words of this record, field after field.
    pub open spec fn spec_flat(self) -> Seq<u32> {
        seq![
            self.object_type,
            self.radius,
            self.center@[0],
            self.center@[1],
            self.v2@[0],
            self.v2@[1],
            self.corner_radius,
            self.rotation,
            self.onion,
            self.v3@[0],
            self.v3@[1],
            self.buffer,
            self.color@[0],
            self.color@[1],
            self.color@[2],
            self.color@[3],
        ]
    }

    /// The record of a shape.
    pub fn from(a: &RSDFObject) -> (c: Self)
        ensures
            c.spec_flat() == Self::spec_words(*a),
    {
        let mut v2 = a.rect_size.as_array();
        let mut v3 = Vec2::zero().as_array();
        if a.obj_type == RSDFObjectType::Triangle {
            v2 = a.tri_size.0.as_array();
            v3 = a.tri_size.1.as_array();
        }
        let c = RSDFObjectC {
            object_type: u32::from(a.obj_type),
            radius: a.radius,
            center: a.center.as_array(),
            v2,
            corner_radius: a.corner_radius,
            rotation: a.rotation,
            onion: a.line_thickness,
            v3,
            buffer: WORD_ZERO,
            color: a.color.as_array(),
        };
        assert(c.spec_flat() =~= Self::spec_words(*a));
        c
    }

    /// The sixteen words of this record, in the order the shader reads them.
    pub fn words(&self) -> (w: [u32; 16])
        ensures
            w@ == self.spec_flat(),
    {
        let w = [
            self.object_type,
            self.radius,
            self.center[0],
            self.center[1],
            self.v2[0],
            self.v2[1],
            self.corner_radius,
            self.rotation,
            self.onion,
            self.v3[0],
            self.v3[1],
            self.buffer,
            self.color[0],
            self.color[1],
            self.color[2],
            self.color[3],
        ];
        assert(w@ =~= self.spec_flat());
        w
    }
}

/// Number of shapes that the shader is told about: all of them, up to the
/// most it can take.
pub open spec fn spec_sdf_count(shapes: int) -> int {
    if shapes < MAX_SDF_OBJECTS {
        shapes
    } else {
        MAX_SDF_OBJECTS as int
    }
}

/// The records of all shapes laid end to end, sixteen words each.
pub open spec fn spec_sdf_words(objects: Seq<RSDFObject>) -> Seq<u32> {
    Seq::new(
        (16 * objects.len()) as nat,
        |k: int| RSDFObjectC::spec_words(objects[k / 16])[k % 16],
    )
}

/// The frame data for a set of shapes. The shape count is capped at the most
/// the shader can take.
pub fn sys_data(
    screen_size: Vec2,
    mouse_pos: Vec2,
    shadow_intensity: u32,
    light_pos: Vec2,
    shapes: usize,
) -> (sys: SysData)
    ensures
        sys == (SysData {
            screen: screen_size,
            mouse_pos,
            obj_count: spec_sdf_count(shapes as int) as u32,
            shadow_intensity,
            light_pos,
        }),
{
    let obj_count: u32 = if shapes < 100 {
        shapes as u32
    } else {
        MAX_SDF_OBJECTS
    };
    SysData { screen: screen_size, mouse_pos, obj_count, shadow_intensity, light_pos }
}

impl SysData {
    /// The eight words of the frame data: screen size, pointer position,
    /// shape count, shadow intensity, light position.
    pub fn words(&self) -> (w: [u32; 8])
        ensures
            w@ == seq![
                self.screen.x,
                self.screen.y,
                self.mouse_pos.x,
                self.mouse_pos.y,
                self.obj_count,
                self.shadow_intensity,
                self.light_pos.x,
                self.light_pos.y,
            ],
    {
        let w = [
            self.screen.x,
            self.screen.y,
            self.mouse_pos.x,
            self.mouse_pos.y,
            self.obj_count,
            self.shadow_intensity,
            self.light_pos.x,
            self.light_pos.y,
        ];
        assert(w@ =~= seq![
            self.screen.x,
            self.screen.y,
            self.mouse_pos.x,
            self.mouse_pos.y,
            self.obj_count,
            self.shadow_intensity,
            self.light_pos.x,
            self.light_pos.y,
        ]);
        w
    }
}

/// Lays the records of all shapes end to end.
pub fn pack_sdf_objects(objects: &Vec<RSDFObject>) -> (words: Vec<u32>)
    ensures
        words@ == spec_sdf_words(objects@),
{
    let mut words: Vec<u32> = Vec::new();
    let mut i: usize = 0;
    while i < objects.len()
        invariant
            i <= objects@.len(),
            words@ == spec_sdf_words(objects@.take(i as int)),
        decreases objects@.len() - i,
    {
        let record = RSDFObjectC::from(&objects[i]).words();
        let mut j: usize = 0;
        while j < 16
            invariant
                j <= 16,
                i < objects@.len(),
                record@ == RSDFObjectC::spec_words(objects@[i as int]),
                words@.len() == 16 * i + j,
                forall|k: int|
                    0 <= k < 16 * i + j ==> words@[k] == RSDFObjectC::spec_words(
                        objects@[k / 16],
                    )[k % 16],
            decreases 16 - j,
        {
            words.push(record[j]);
            j += 1;
        }
        i += 1;
        assert(words@ =~= spec_sdf_words(objects@.take(i as int)));
    }
    assert(objects@.take(objects@.len() as int) =~= objects@);
    words
}

} // verus!
