//! Pipeline configuration: which shader a pipeline runs, how it culls and
//! fills polygons, and which vertex layout it reads.

use vstd::prelude::*;

verus! {

/// Shader run by a pipeline: one of the built-in programs, or source text
/// supplied by the caller.
#[derive(Debug, Default, Clone, Copy, PartialEq)]
pub enum RShader<'a> {
    #[default]
    Texture,
    Text,
    FlatColor,
    Custom(&'a str),
}

/// Shader selection of the stand-alone object pipeline.
#[derive(Debug, Clone, Copy, Default)]
pub enum ShaderType<'a> {
    #[default]
    Default,
    FlatColor,
    Overlay,
    Custom(&'a str),
}

/// A shader without its source text: which program a pipeline was built
/// with.
#[derive(Debug, Clone, Copy, PartialEq, Eq, Structural)]
pub enum RShaderKind {
    Texture,
    Text,
    FlatColor,
    Custom,
    /// The built-in program that draws signed-distance-field shapes.
    Sdf,
}

/// Which faces are discarded before rasterization.
#[derive(Debug, Default, Clone, Copy, PartialEq, Eq, Structural)]
pub enum RCullMode {
    #[default]
    Off,
    Front,
    Back,
}

/// How polygons are filled.
#[derive(Debug, Default, Clone, Copy, PartialEq, Eq, Structural)]
pub enum RPolyMode {
    #[default]
    Fill,
    Line,
    Point,
}

/// How consecutive vertices are assembled into primitives.
#[derive(Debug, Clone, Copy, PartialEq, Eq, Structural)]
pub enum RTopology {
    TriangleList,
    LineList,
    PointList,
}

/// Everything needed to create a pipeline.
#[derive(Debug)]
pub struct RPipelineSetup<'a> {
    pub shader: RShader<'a>,
    pub cull_mode: RCullMode,
    pub poly_mode: RPolyMode,
    pub vertex_fn: &'a str,
    pub fragment_fn: &'a str,
    pub has_animations: bool,
    /// Most objects the pipeline will ever hold, where the caller declares
    /// a limit.
    pub max_obj_count: Option<usize>,
}

/// Bytes of one static vertex: position, uv and normal, eight words.
pub const STATIC_VERTEX_BYTES: u64 = 32;

/// Bytes of one animated vertex: a static vertex, four joint ids and four
/// joint weights, sixteen words.
pub const ANIM_VERTEX_BYTES: u64 = 64;

impl<'a> RShader<'a> {
    /// Which program this is.
    pub open spec fn spec_kind(self) -> RShaderKind {
        match self {
            RShader::Texture => RShaderKind::Texture,
            RShader::Text => RShaderKind::Text,
            RShader::FlatColor => RShaderKind::FlatColor,
            RShader::Custom(_) => RShaderKind::Custom,
        }
    }

    /// Which program this is.
    pub fn kind(&self) -> (k: RShaderKind)
        ensures
            k == self.spec_kind(),
    {
        match self {
            RShader::Texture => RShaderKind::Texture,
            RShader::Text => RShaderKind::Text,
            RShader::FlatColor => RShaderKind::FlatColor,
            RShader::Custom(_) => RShaderKind::Custom,
        }
    }

    /// The caller's source text, where the shader is not a built-in one.
    pub open spec fn spec_custom_source(self) -> Option<&'a str> {
        match self {
            RShader::Custom(s) => Some(s),
            _ => None,
        }
    }

    /// The caller's source text for a custom shader; `None` for the built-in
    /// programs, whose source the renderer supplies.
    pub fn custom_source(&self) -> (src: Option<&'a str>)
        ensures
            src == self.spec_custom_source(),
    {
        match self {
            RShader::Custom(s) => Some(*s),
            _ => None,
        }
    }
}

impl<'a> ShaderType<'a> {
    /// The caller's source text, where the shader is not a built-in one.
    pub open spec fn spec_custom_source(self) -> Option<&'a str> {
        match self {
            ShaderType::Custom(s) => Some(s),
            _ => None,
        }
    }

    /// The caller's source text for a custom shader; `None` for the built-in
    /// programs.
    pub fn custom_source(&self) -> (src: Option<&'a str>)
        ensures
            src == self.spec_custom_source(),
    {
        match self {
            ShaderType::Custom(s) => Some(*s),
            _ => None,
        }
    }
}

impl RPolyMode {
    /// Lines are drawn as line lists, points as point lists, everything else
    /// as triangle lists.
    pub open spec fn spec_topology(self) -> RTopology {
        match self {
            RPolyMode::Line => RTopology::LineList,
            RPolyMode::Point => RTopology::PointList,
            RPolyMode::Fill => RTopology::TriangleList,
        }
    }

    /// The primitive topology that goes with this fill mode.
    pub fn topology(&self) -> (t: RTopology)
        ensures
            t == self.spec_topology(),
    {
        match self {
            RPolyMode::Line => RTopology::LineList,
            RPolyMode::Point => RTopology::PointList,
            RPolyMode::Fill => RTopology::TriangleList,
        }
    }
}

impl RCullMode {
    /// True when some face is discarded.
    pub open spec fn spec_culls(self) -> bool {
        self != RCullMode::Off
    }

    /// Whether this mode discards any face at all.
    pub fn culls(&self) -> (c: bool)
        ensures
            c == self.spec_culls(),
    {
        match self {
            RCullMode::Off => false,
            _ => true,
        }
    }
}

/// Stride in bytes of the vertex layout that a pipeline reads.
pub open spec fn spec_vertex_stride(has_animations: bool) -> u64 {
    if has_animations {
        ANIM_VERTEX_BYTES
    } else {
        STATIC_VERTEX_BYTES
    }
}

/// Stride in bytes of the vertex layout: animated pipelines read the wide
/// vertex with joint data, all others the static one.
pub fn vertex_stride(has_animations: bool) -> (stride: u64)
    ensures
        stride == spec_vertex_stride(has_animations),
{
    if has_animations {
        ANIM_VERTEX_BYTES
    } else {
        STATIC_VERTEX_BYTES
    }
}

impl<'a> RPipelineSetup<'a> {
    /// The setup every pipeline starts from: textured shader, no culling,
    /// filled polygons, the conventional entry point names, no animation,
    /// no limit on the number of objects.
    pub open spec fn is_default(self) -> bool {
        &&& self.shader == RShader::<'a>::Texture
        &&& self.cull_mode == RCullMode::Off
        &&& self.poly_mode == RPolyMode::Fill
        &&& self.vertex_fn@ == "vertexMain"@
        &&& self.fragment_fn@ == "fragmentMain"@
        &&& !self.has_animations
        &&& self.max_obj_count.is_none()
    }
}

impl Default for RPipelineSetup<'_> {
    fn default() -> (setup: Self)
        ensures
            setup.is_default(),
    {
        RPipelineSetup {
            shader: RShader::Texture,
            cull_mode: RCullMode::Off,
            poly_mode: RPolyMode::Fill,
            vertex_fn: "vertexMain",
            fragment_fn: "fragmentMain",
            has_animations: false,
            max_obj_count: None,
        }
    }
}

} // verus!
