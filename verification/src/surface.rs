//! Choosing the pixel format of a surface from the formats a device offers,
//! and what to do when the surface will not give a frame.

use vstd::prelude::*;

verus! {

/// What matters of a pixel format when one is chosen for a surface.
#[derive(Debug, Clone, Copy, PartialEq, Eq, Structural)]
pub struct RFormatTraits {
    /// It is the 8-bit RGBA format with the sRGB transfer function.
    pub rgba8_srgb: bool,
    /// It is the plain 8-bit RGBA format.
    pub rgba8: bool,
    /// It has the sRGB transfer function.
    pub srgb: bool,
}

/// One of the properties of a pixel format.
#[derive(Debug, Clone, Copy, PartialEq, Eq, Structural)]
pub enum RFormatTrait {
    Rgba8Srgb,
    Rgba8,
    Srgb,
}

impl RFormatTraits {
    /// Whether the format has the property.
    pub open spec fn spec_has(self, t: RFormatTrait) -> bool {
        match t {
            RFormatTrait::Rgba8Srgb => self.rgba8_srgb,
            RFormatTrait::Rgba8 => self.rgba8,
            RFormatTrait::Srgb => self.srgb,
        }
    }

    /// Whether the format has the property.
    pub fn has(&self, t: RFormatTrait) -> (h: bool)
        ensures
            h == self.spec_has(t),
    {
        match t {
            RFormatTrait::Rgba8Srgb => self.rgba8_srgb,
            RFormatTrait::Rgba8 => self.rgba8,
            RFormatTrait::Srgb => self.srgb,
        }
    }
}

/// Position `i` holds the first format with the property.
pub open spec fn is_first_with(formats: Seq<RFormatTraits>, t: RFormatTrait, i: int) -> bool {
    &&& 0 <= i < formats.len()
    &&& formats[i].spec_has(t)
    &&& forall|j: int| 0 <= j < i ==> !(#[trigger] formats[j]).spec_has(t)
}

/// No format has the property.
pub open spec fn none_with(formats: Seq<RFormatTraits>, t: RFormatTrait) -> bool {
    forall|j: int| 0 <= j < formats.len() ==> !(#[trigger] formats[j]).spec_has(t)
}

/// The position to fall back to: that of the first sRGB format, or the very
/// first format where none is sRGB.
pub open spec fn is_srgb_or_first(formats: Seq<RFormatTraits>, i: int) -> bool {
    is_first_with(formats, RFormatTrait::Srgb, i) || (none_with(formats, RFormatTrait::Srgb) && i
        == 0)
}

/// The position a window's surface format is taken from: 8-bit sRGB RGBA
/// where offered, else plain 8-bit RGBA where offered, else the fallback.
pub open spec fn is_window_format(formats: Seq<RFormatTraits>, i: int) -> bool {
    if !none_with(formats, RFormatTrait::Rgba8Srgb) {
        is_first_with(formats, RFormatTrait::Rgba8Srgb, i)
    } else if !none_with(formats, RFormatTrait::Rgba8) {
        is_first_with(formats, RFormatTrait::Rgba8, i)
    } else {
        is_srgb_or_first(formats, i)
    }
}

/// The position of the first format with the property, if any has it.
pub fn first_with(formats: &Vec<RFormatTraits>, t: RFormatTrait) -> (at: Option<usize>)
    ensures
        match at {
            Some(i) => is_first_with(formats@, t, i as int),
            None => none_with(formats@, t),
        },
{
    let mut i: usize = 0;
    while i < formats.len()
        invariant
            i <= formats@.len(),
            forall|j: int| 0 <= j < i ==> !(#[trigger] formats@[j]).spec_has(t),
        decreases formats@.len() - i,
    {
        if formats[i].has(t) {
            return Some(i);
        }
        i += 1;
    }
    None
}

/// The position of the format for the screen: the first sRGB format, or the
/// very first format where none is sRGB.
pub fn screen_format(formats: &Vec<RFormatTraits>) -> (at: usize)
    requires
        formats@.len() > 0,
    ensures
        at < formats@.len(),
        is_srgb_or_first(formats@, at as int),
{
    match first_with(formats, RFormatTrait::Srgb) {
        Some(i) => i,
        None => 0,
    }
}

/// The position of the format for a window's surface.
pub fn window_format(formats: &Vec<RFormatTraits>) -> (at: usize)
    requires
        formats@.len() > 0,
    ensures
        at < formats@.len(),
        is_window_format(formats@, at as int),
{
    match first_with(formats, RFormatTrait::Rgba8Srgb) {
        Some(i) => i,
        None => match first_with(formats, RFormatTrait::Rgba8) {
            Some(i) => i,
            None => screen_format(formats),
        },
    }
}

/// At most one position is the first with a property, so the choice of a
/// format is determined by the formats offered.
pub proof fn lemma_first_is_unique(formats: Seq<RFormatTraits>, t: RFormatTrait, i: int, j: int)
    requires
        is_first_with(formats, t, i),
        is_first_with(formats, t, j),
    ensures
        i == j,
{
    if i < j {
        assert(!formats[i].spec_has(t));
    }
    if j < i {
        assert(!formats[j].spec_has(t));
    }
}

/// Why a surface gave no frame to draw on.
#[derive(Debug, Clone, Copy, PartialEq, Eq, Structural)]
pub enum RSurfaceFault {
    /// The frame did not arrive in time.
    Timeout,
    /// The surface no longer matches its window.
    Outdated,
    /// The surface was lost.
    Lost,
    /// The device is out of memory.
    OutOfMemory,
    /// Anything else.
    Other,
}

/// What to do about a frame that could not be drawn.
#[derive(Debug, Clone, Copy, PartialEq, Eq, Structural)]
pub enum RSurfaceRecovery {
    /// Configure the surface again at the window's size; the next frame
    /// draws. Do not draw this frame again.
    Reconfigure,
    /// Give up and leave the application.
    Exit,
    /// Skip this frame.
    Skip,
}

impl RSurfaceFault {
    /// A lost or outdated surface is configured again, a device without
    /// memory ends the application, and any other fault costs one frame.
    pub open spec fn spec_recovery(self) -> RSurfaceRecovery {
        match self {
            RSurfaceFault::Lost => RSurfaceRecovery::Reconfigure,
            RSurfaceFault::Outdated => RSurfaceRecovery::Reconfigure,
            RSurfaceFault::OutOfMemory => RSurfaceRecovery::Exit,
            _ => RSurfaceRecovery::Skip,
        }
    }

    /// What to do about this fault.
    pub fn recovery(self) -> (r: RSurfaceRecovery)
        ensures
            r == self.spec_recovery(),
    {
        match self {
            RSurfaceFault::Lost => RSurfaceRecovery::Reconfigure,
            RSurfaceFault::Outdated => RSurfaceRecovery::Reconfigure,
            RSurfaceFault::OutOfMemory => RSurfaceRecovery::Exit,
            _ => RSurfaceRecovery::Skip,
        }
    }
}

} // verus!
