//! A button: where it is, how it looks, and what a frame's pointer position
//! makes of it.

use vstd::prelude::*;
use crate::handles::{RObjectId, RTextureId};
use crate::update::{RObjectUpdate, RRotation};
use crate::words::{RColor, Vec2, Vec3, WORD_ONE, WORD_ZERO};

verus! {

/// A clickable rectangle with a text texture. Scalars are words.
#[derive(Debug)]
pub struct UiButton {
    pub object_id: RObjectId,
    pub text_tx: RTextureId,
    pub position: Vec3,
    pub size: Vec2,
    pub color: RColor,
    pub hover_color: RColor,
    pub text: String,
    pub radius: u32,
}

impl UiButton {
    /// Moves the button.
    pub fn at(self, pos: Vec3) -> (b: Self)
        ensures
            b == (UiButton { position: pos, ..self }),
    {
        let mut b = self;
        b.position = pos;
        b
    }

    /// Sets the color at rest and the color under the pointer.
    pub fn with_colors(self, color: RColor, hover_color: RColor) -> (b: Self)
        ensures
            b == (UiButton { color, hover_color, ..self }),
    {
        let mut b = self;
        b.color = color;
        b.hover_color = hover_color;
        b
    }

    /// Sets the corner radius.
    pub fn with_radius(self, radius: u32) -> (b: Self)
        ensures
            b == (UiButton { radius, ..self }),
    {
        let mut b = self;
        b.radius = radius;
        b
    }

    /// The color the button shows this frame: its hover color while the
    /// pointer is over it and no other element has taken the pointer, its
    /// resting color otherwise.
    pub open spec fn spec_active_color(self, action_available: bool, hovered: bool) -> RColor {
        if action_available && hovered {
            self.hover_color
        } else {
            self.color
        }
    }

    /// One frame of the button. `hovered` says whether the pointer is over
    /// it. Returns the update that draws the button, and whether the pointer
    /// is still free for the elements behind it: it is taken by the first
    /// element it hovers over.
    pub fn update(&self, action_available: bool, hovered: bool) -> (out: (
        RObjectUpdate<'static>,
        bool,
    ))
        ensures
            out.1 == (action_available && !hovered),
            out.0.translate == self.position,
            out.0.rotate == RRotation::AxisAngle(
                Vec3 { x: WORD_ZERO, y: WORD_ZERO, z: WORD_ONE },
                WORD_ZERO,
            ),
            out.0.scale == (Vec3 { x: WORD_ONE, y: WORD_ONE, z: WORD_ONE }),
            out.0.visible,
            out.0.camera.is_none(),
            out.0.uniforms@.len() == 0,
            out.0.anim_transforms@.len() == 0,
            out.0.gen_buf@[0] == self.spec_active_color(action_available, hovered).r,
            out.0.gen_buf@[1] == self.spec_active_color(action_available, hovered).g,
            out.0.gen_buf@[2] == self.spec_active_color(action_available, hovered).b,
            out.0.gen_buf@[3] == self.spec_active_color(action_available, hovered).a,
            out.0.gen_buf@[4] == self.size.x,
            out.0.gen_buf@[5] == self.size.y,
            out.0.gen_buf@[6] == self.radius,
            forall|i: int| 7 <= i < 64 ==> out.0.gen_buf@[i] == 0,
    {
        let mut aa = action_available;
        let mut active_color = self.color;
        if aa && hovered {
            aa = false;
            active_color = self.hover_color;
        }
        let update = RObjectUpdate::default().with_position(self.position).with_color(
            active_color,
        ).with_round_border(self.size, self.radius);
        (update, aa)
    }
}

} // verus!
