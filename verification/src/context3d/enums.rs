//! The string-valued enumerations of the `flash.display3D` API, and how
//! their ActionScript string constants are parsed.

use vstd::prelude::*;
use crate::text::str_eq;

verus! {

/// A type parsed from an ActionScript string constant; `None` when the string
/// is not one of the accepted values.
pub trait FromWStr: Sized {
    /// The value that the string `s` stands for.
    spec fn spec_from_wstr(s: Seq<char>) -> Option<Self>;

    /// Parses `s`.
    fn from_wstr(s: &str) -> (r: Option<Self>)
        ensures
            r == Self::spec_from_wstr(s@),
    ;
}
/// Context3DBlendFactor: how a source or destination colour is weighted when blending.
#[derive(Clone, Copy, PartialEq, Eq, Structural, Debug)]
pub enum BlendFactor {
    /// `"destinationAlpha"`
    DestinationAlpha,
    /// `"destinationColor"`
    DestinationColor,
    /// `"one"`
    One,
    /// `"oneMinusDestinationAlpha"`
    OneMinusDestinationAlpha,
    /// `"oneMinusDestinationColor"`
    OneMinusDestinationColor,
    /// `"oneMinusSourceAlpha"`
    OneMinusSourceAlpha,
    /// `"oneMinusSourceColor"`
    OneMinusSourceColor,
    /// `"sourceAlpha"`
    SourceAlpha,
    /// `"sourceColor"`
    SourceColor,
    /// `"zero"`
    Zero,
}

impl FromWStr for BlendFactor {
    open spec fn spec_from_wstr(s: Seq<char>) -> Option<Self> {
        if s == "destinationAlpha"@ {
            Some(BlendFactor::DestinationAlpha)
        } else if s == "destinationColor"@ {
            Some(BlendFactor::DestinationColor)
        } else if s == "one"@ {
            Some(BlendFactor::One)
        } else if s == "oneMinusDestinationAlpha"@ {
            Some(BlendFactor::OneMinusDestinationAlpha)
        } else if s == "oneMinusDestinationColor"@ {
            Some(BlendFactor::OneMinusDestinationColor)
        } else if s == "oneMinusSourceAlpha"@ {
            Some(BlendFactor::OneMinusSourceAlpha)
        } else if s == "oneMinusSourceColor"@ {
            Some(BlendFactor::OneMinusSourceColor)
        } else if s == "sourceAlpha"@ {
            Some(BlendFactor::SourceAlpha)
        } else if s == "sourceColor"@ {
            Some(BlendFactor::SourceColor)
        } else if s == "zero"@ {
            Some(BlendFactor::Zero)
        } else {
            None
        }
    }

    fn from_wstr(s: &str) -> (r: Option<Self>) {
        if str_eq(s, "destinationAlpha") {
            Some(BlendFactor::DestinationAlpha)
        } else if str_eq(s, "destinationColor") {
            Some(BlendFactor::DestinationColor)
        } else if str_eq(s, "one") {
            Some(BlendFactor::One)
        } else if str_eq(s, "oneMinusDestinationAlpha") {
            Some(BlendFactor::OneMinusDestinationAlpha)
        } else if str_eq(s, "oneMinusDestinationColor") {
            Some(BlendFactor::OneMinusDestinationColor)
        } else if str_eq(s, "oneMinusSourceAlpha") {
            Some(BlendFactor::OneMinusSourceAlpha)
        } else if str_eq(s, "oneMinusSourceColor") {
            Some(BlendFactor::OneMinusSourceColor)
        } else if str_eq(s, "sourceAlpha") {
            Some(BlendFactor::SourceAlpha)
        } else if str_eq(s, "sourceColor") {
            Some(BlendFactor::SourceColor)
        } else if str_eq(s, "zero") {
            Some(BlendFactor::Zero)
        } else {
            None
        }
    }
}

/// Context3DCompareMode: the comparison used by depth and stencil tests.
#[derive(Clone, Copy, PartialEq, Eq, Structural, Debug)]
pub enum CompareMode {
    /// `"always"`
    Always,
    /// `"equal"`
    Equal,
    /// `"greater"`
    Greater,
    /// `"greaterEqual"`
    GreaterEqual,
    /// `"less"`
    Less,
    /// `"lessEqual"`
    LessEqual,
    /// `"never"`
    Never,
    /// `"notEqual"`
    NotEqual,
}

impl FromWStr for CompareMode {
    open spec fn spec_from_wstr(s: Seq<char>) -> Option<Self> {
        if s == "always"@ {
            Some(CompareMode::Always)
        } else if s == "equal"@ {
            Some(CompareMode::Equal)
        } else if s == "greater"@ {
            Some(CompareMode::Greater)
        } else if s == "greaterEqual"@ {
            Some(CompareMode::GreaterEqual)
        } else if s == "less"@ {
            Some(CompareMode::Less)
        } else if s == "lessEqual"@ {
            Some(CompareMode::LessEqual)
        } else if s == "never"@ {
            Some(CompareMode::Never)
        } else if s == "notEqual"@ {
            Some(CompareMode::NotEqual)
        } else {
            None
        }
    }

    fn from_wstr(s: &str) -> (r: Option<Self>) {
        if str_eq(s, "always") {
            Some(CompareMode::Always)
        } else if str_eq(s, "equal") {
            Some(CompareMode::Equal)
        } else if str_eq(s, "greater") {
            Some(CompareMode::Greater)
        } else if str_eq(s, "greaterEqual") {
            Some(CompareMode::GreaterEqual)
        } else if str_eq(s, "less") {
            Some(CompareMode::Less)
        } else if str_eq(s, "lessEqual") {
            Some(CompareMode::LessEqual)
        } else if str_eq(s, "never") {
            Some(CompareMode::Never)
        } else if str_eq(s, "notEqual") {
            Some(CompareMode::NotEqual)
        } else {
            None
        }
    }
}

/// Context3DMipFilter: how mip levels are sampled.
#[derive(Clone, Copy, PartialEq, Eq, Structural, Debug)]
pub enum MipFilter {
    /// `"miplinear"`
    MipLinear,
    /// `"mipnearest"`
    MipNearest,
    /// `"mipnone"`
    MipNone,
}

impl FromWStr for MipFilter {
    open spec fn spec_from_wstr(s: Seq<char>) -> Option<Self> {
        if s == "miplinear"@ {
            Some(MipFilter::MipLinear)
        } else if s == "mipnearest"@ {
            Some(MipFilter::MipNearest)
        } else if s == "mipnone"@ {
            Some(MipFilter::MipNone)
        } else {
            None
        }
    }

    fn from_wstr(s: &str) -> (r: Option<Self>) {
        if str_eq(s, "miplinear") {
            Some(MipFilter::MipLinear)
        } else if str_eq(s, "mipnearest") {
            Some(MipFilter::MipNearest)
        } else if str_eq(s, "mipnone") {
            Some(MipFilter::MipNone)
        } else {
            None
        }
    }
}

/// Context3DStencilAction: what a stencil test does to the stencil buffer.
#[derive(Clone, Copy, PartialEq, Eq, Structural, Debug)]
pub enum StencilAction {
    /// `"decrementSaturate"`
    DecrementSaturate,
    /// `"decrementWrap"`
    DecrementWrap,
    /// `"incrementSaturate"`
    IncrementSaturate,
    /// `"incrementWrap"`
    IncrementWrap,
    /// `"invert"`
    Invert,
    /// `"keep"`
    Keep,
    /// `"set"`
    SetToReference,
    /// `"zero"`
    Zero,
}

impl FromWStr for StencilAction {
    open spec fn spec_from_wstr(s: Seq<char>) -> Option<Self> {
        if s == "decrementSaturate"@ {
            Some(StencilAction::DecrementSaturate)
        } else if s == "decrementWrap"@ {
            Some(StencilAction::DecrementWrap)
        } else if s == "incrementSaturate"@ {
            Some(StencilAction::IncrementSaturate)
        } else if s == "incrementWrap"@ {
            Some(StencilAction::IncrementWrap)
        } else if s == "invert"@ {
            Some(StencilAction::Invert)
        } else if s == "keep"@ {
            Some(StencilAction::Keep)
        } else if s == "set"@ {
            Some(StencilAction::SetToReference)
        } else if s == "zero"@ {
            Some(StencilAction::Zero)
        } else {
            None
        }
    }

    fn from_wstr(s: &str) -> (r: Option<Self>) {
        if str_eq(s, "decrementSaturate") {
            Some(StencilAction::DecrementSaturate)
        } else if str_eq(s, "decrementWrap") {
            Some(StencilAction::DecrementWrap)
        } else if str_eq(s, "incrementSaturate") {
            Some(StencilAction::IncrementSaturate)
        } else if str_eq(s, "incrementWrap") {
            Some(StencilAction::IncrementWrap)
        } else if str_eq(s, "invert") {
            Some(StencilAction::Invert)
        } else if str_eq(s, "keep") {
            Some(StencilAction::Keep)
        } else if str_eq(s, "set") {
            Some(StencilAction::SetToReference)
        } else if str_eq(s, "zero") {
            Some(StencilAction::Zero)
        } else {
            None
        }
    }
}

/// Context3DTextureFilter: how a texture is filtered when sampled.
#[derive(Clone, Copy, PartialEq, Eq, Structural, Debug)]
pub enum TextureFilter {
    /// `"anisotropic16x"`
    Anisotropic16X,
    /// `"anisotropic2x"`
    Anisotropic2X,
    /// `"anisotropic4x"`
    Anisotropic4X,
    /// `"anisotropic8x"`
    Anisotropic8X,
    /// `"linear"`
    Linear,
    /// `"nearest"`
    Nearest,
}

impl FromWStr for TextureFilter {
    open spec fn spec_from_wstr(s: Seq<char>) -> Option<Self> {
        if s == "anisotropic16x"@ {
            Some(TextureFilter::Anisotropic16X)
        } else if s == "anisotropic2x"@ {
            Some(TextureFilter::Anisotropic2X)
        } else if s == "anisotropic4x"@ {
            Some(TextureFilter::Anisotropic4X)
        } else if s == "anisotropic8x"@ {
            Some(TextureFilter::Anisotropic8X)
        } else if s == "linear"@ {
            Some(TextureFilter::Linear)
        } else if s == "nearest"@ {
            Some(TextureFilter::Nearest)
        } else {
            None
        }
    }

    fn from_wstr(s: &str) -> (r: Option<Self>) {
        if str_eq(s, "anisotropic16x") {
            Some(TextureFilter::Anisotropic16X)
        } else if str_eq(s, "anisotropic2x") {
            Some(TextureFilter::Anisotropic2X)
        } else if str_eq(s, "anisotropic4x") {
            Some(TextureFilter::Anisotropic4X)
        } else if str_eq(s, "anisotropic8x") {
            Some(TextureFilter::Anisotropic8X)
        } else if str_eq(s, "linear") {
            Some(TextureFilter::Linear)
        } else if str_eq(s, "nearest") {
            Some(TextureFilter::Nearest)
        } else {
            None
        }
    }
}

/// Context3DTextureFormat: the pixel format of a texture.
#[derive(Clone, Copy, PartialEq, Eq, Structural, Debug)]
pub enum TextureFormat {
    /// `"bgra"`
    Bgra,
    /// `"bgraPacked4444"`
    BgraPacked,
    /// `"bgrPacked565"`
    BgrPacked,
    /// `"compressed"`
    Compressed,
    /// `"compressedAlpha"`
    CompressedAlpha,
    /// `"rgbaHalfFloat"`
    RgbaHalfFloat,
}

impl FromWStr for TextureFormat {
    open spec fn spec_from_wstr(s: Seq<char>) -> Option<Self> {
        if s == "bgra"@ {
            Some(TextureFormat::Bgra)
        } else if s == "bgraPacked4444"@ {
            Some(TextureFormat::BgraPacked)
        } else if s == "bgrPacked565"@ {
            Some(TextureFormat::BgrPacked)
        } else if s == "compressed"@ {
            Some(TextureFormat::Compressed)
        } else if s == "compressedAlpha"@ {
            Some(TextureFormat::CompressedAlpha)
        } else if s == "rgbaHalfFloat"@ {
            Some(TextureFormat::RgbaHalfFloat)
        } else {
            None
        }
    }

    fn from_wstr(s: &str) -> (r: Option<Self>) {
        if str_eq(s, "bgra") {
            Some(TextureFormat::Bgra)
        } else if str_eq(s, "bgraPacked4444") {
            Some(TextureFormat::BgraPacked)
        } else if str_eq(s, "bgrPacked565") {
            Some(TextureFormat::BgrPacked)
        } else if str_eq(s, "compressed") {
            Some(TextureFormat::Compressed)
        } else if str_eq(s, "compressedAlpha") {
            Some(TextureFormat::CompressedAlpha)
        } else if str_eq(s, "rgbaHalfFloat") {
            Some(TextureFormat::RgbaHalfFloat)
        } else {
            None
        }
    }
}

/// Context3DTriangleFace: which triangle faces an operation applies to.
#[derive(Clone, Copy, PartialEq, Eq, Structural, Debug)]
pub enum TriangleFace {
    /// `"back"`
    Back,
    /// `"front"`
    Front,
    /// `"frontAndBack"`
    FrontAndBack,
    /// `"none"`
    NoFace,
}

impl FromWStr for TriangleFace {
    open spec fn spec_from_wstr(s: Seq<char>) -> Option<Self> {
        if s == "back"@ {
            Some(TriangleFace::Back)
        } else if s == "front"@ {
            Some(TriangleFace::Front)
        } else if s == "frontAndBack"@ {
            Some(TriangleFace::FrontAndBack)
        } else if s == "none"@ {
            Some(TriangleFace::NoFace)
        } else {
            None
        }
    }

    fn from_wstr(s: &str) -> (r: Option<Self>) {
        if str_eq(s, "back") {
            Some(TriangleFace::Back)
        } else if str_eq(s, "front") {
            Some(TriangleFace::Front)
        } else if str_eq(s, "frontAndBack") {
            Some(TriangleFace::FrontAndBack)
        } else if str_eq(s, "none") {
            Some(TriangleFace::NoFace)
        } else {
            None
        }
    }
}

/// Context3DVertexBufferFormat: the layout of one vertex attribute.
#[derive(Clone, Copy, PartialEq, Eq, Structural, Debug)]
pub enum VertexBufferFormat {
    /// `"bytes4"`
    Bytes4,
    /// `"float1"`
    Float1,
    /// `"float2"`
    Float2,
    /// `"float3"`
    Float3,
    /// `"float4"`
    Float4,
}

impl FromWStr for VertexBufferFormat {
    open spec fn spec_from_wstr(s: Seq<char>) -> Option<Self> {
        if s == "bytes4"@ {
            Some(VertexBufferFormat::Bytes4)
        } else if s == "float1"@ {
            Some(VertexBufferFormat::Float1)
        } else if s == "float2"@ {
            Some(VertexBufferFormat::Float2)
        } else if s == "float3"@ {
            Some(VertexBufferFormat::Float3)
        } else if s == "float4"@ {
            Some(VertexBufferFormat::Float4)
        } else {
            None
        }
    }

    fn from_wstr(s: &str) -> (r: Option<Self>) {
        if str_eq(s, "bytes4") {
            Some(VertexBufferFormat::Bytes4)
        } else if str_eq(s, "float1") {
            Some(VertexBufferFormat::Float1)
        } else if str_eq(s, "float2") {
            Some(VertexBufferFormat::Float2)
        } else if str_eq(s, "float3") {
            Some(VertexBufferFormat::Float3)
        } else if str_eq(s, "float4") {
            Some(VertexBufferFormat::Float4)
        } else {
            None
        }
    }
}

/// Context3DWrapMode: how texture coordinates outside [0, 1] are treated.
#[derive(Clone, Copy, PartialEq, Eq, Structural, Debug)]
pub enum WrapMode {
    /// `"clamp"`
    Clamp,
    /// `"clamp_u_repeat_v"`
    ClampURepeatV,
    /// `"repeat"`
    Repeat,
    /// `"repeat_u_clamp_v"`
    RepeatUClampV,
}

impl FromWStr for WrapMode {
    open spec fn spec_from_wstr(s: Seq<char>) -> Option<Self> {
        if s == "clamp"@ {
            Some(WrapMode::Clamp)
        } else if s == "clamp_u_repeat_v"@ {
            Some(WrapMode::ClampURepeatV)
        } else if s == "repeat"@ {
            Some(WrapMode::Repeat)
        } else if s == "repeat_u_clamp_v"@ {
            Some(WrapMode::RepeatUClampV)
        } else {
            None
        }
    }

    fn from_wstr(s: &str) -> (r: Option<Self>) {
        if str_eq(s, "clamp") {
            Some(WrapMode::Clamp)
        } else if str_eq(s, "clamp_u_repeat_v") {
            Some(WrapMode::ClampURepeatV)
        } else if str_eq(s, "repeat") {
            Some(WrapMode::Repeat)
        } else if str_eq(s, "repeat_u_clamp_v") {
            Some(WrapMode::RepeatUClampV)
        } else {
            None
        }
    }
}

/// Context3DProgramType: the shader stage a program or constant belongs to.
#[derive(Clone, Copy, PartialEq, Eq, Structural, Debug)]
pub enum ProgramType {
    /// `"vertex"`
    Vertex,
    /// `"fragment"`
    Fragment,
}

impl FromWStr for ProgramType {
    open spec fn spec_from_wstr(s: Seq<char>) -> Option<Self> {
        if s == "vertex"@ {
            Some(ProgramType::Vertex)
        } else if s == "fragment"@ {
            Some(ProgramType::Fragment)
        } else {
            None
        }
    }

    fn from_wstr(s: &str) -> (r: Option<Self>) {
        if str_eq(s, "vertex") {
            Some(ProgramType::Vertex)
        } else if str_eq(s, "fragment") {
            Some(ProgramType::Fragment)
        } else {
            None
        }
    }
}

/// Context3DProfile: the feature level a context was created with.
#[derive(Clone, Copy, PartialEq, Eq, Structural, Debug)]
pub enum Profile {
    Baseline,
    BaselineConstrained,
    BaselineExtended,
    Standard,
    StandardConstrained,
    StandardExtended,
}

/// The ActionScript string constant of a profile.
pub open spec fn spec_profile_name(p: Profile) -> Seq<char> {
    match p {
        Profile::Baseline => "baseline"@,
        Profile::BaselineConstrained => "baselineConstrained"@,
        Profile::BaselineExtended => "baselineExtended"@,
        Profile::Standard => "standard"@,
        Profile::StandardConstrained => "standardConstrained"@,
        Profile::StandardExtended => "standardExtended"@,
    }
}

/// The ActionScript string constant of each `BlendFactor` value.
pub open spec fn blend_factor_constant(v: BlendFactor) -> Seq<char> {
    match v {
        BlendFactor::DestinationAlpha => "destinationAlpha"@,
        BlendFactor::DestinationColor => "destinationColor"@,
        BlendFactor::One => "one"@,
        BlendFactor::OneMinusDestinationAlpha => "oneMinusDestinationAlpha"@,
        BlendFactor::OneMinusDestinationColor => "oneMinusDestinationColor"@,
        BlendFactor::OneMinusSourceAlpha => "oneMinusSourceAlpha"@,
        BlendFactor::OneMinusSourceColor => "oneMinusSourceColor"@,
        BlendFactor::SourceAlpha => "sourceAlpha"@,
        BlendFactor::SourceColor => "sourceColor"@,
        BlendFactor::Zero => "zero"@,
    }
}

/// Each `BlendFactor` value's ActionScript constant parses to that value, and no
/// other string parses to it.
pub proof fn law_blend_factor_constants(v: BlendFactor, s: Seq<char>)
    ensures
        BlendFactor::spec_from_wstr(blend_factor_constant(v)) == Some(v),
        BlendFactor::spec_from_wstr(s) == Some(v) ==> s == blend_factor_constant(v),
{
    reveal_strlit("destinationAlpha");
    reveal_strlit("destinationColor");
    reveal_strlit("one");
    reveal_strlit("oneMinusDestinationAlpha");
    reveal_strlit("oneMinusDestinationColor");
    reveal_strlit("oneMinusSourceAlpha");
    reveal_strlit("oneMinusSourceColor");
    reveal_strlit("sourceAlpha");
    reveal_strlit("sourceColor");
    reveal_strlit("zero");

    assert("destinationAlpha"@[11] != "destinationColor"@[11]);
    assert("destinationAlpha"@.len() != "one"@.len());
    assert("destinationAlpha"@.len() != "oneMinusDestinationAlpha"@.len());
    assert("destinationAlpha"@.len() != "oneMinusDestinationColor"@.len());
    assert("destinationAlpha"@.len() != "oneMinusSourceAlpha"@.len());
    assert("destinationAlpha"@.len() != "oneMinusSourceColor"@.len());
    assert("destinationAlpha"@.len() != "sourceAlpha"@.len());
    assert("destinationAlpha"@.len() != "sourceColor"@.len());
    assert("destinationAlpha"@.len() != "zero"@.len());
    assert("destinationColor"@.len() != "one"@.len());
    assert("destinationColor"@.len() != "oneMinusDestinationAlpha"@.len());
    assert("destinationColor"@.len() != "oneMinusDestinationColor"@.len());
    assert("destinationColor"@.len() != "oneMinusSourceAlpha"@.len());
    assert("destinationColor"@.len() != "oneMinusSourceColor"@.len());
    assert("destinationColor"@.len() != "sourceAlpha"@.len());
    assert("destinationColor"@.len() != "sourceColor"@.len());
    assert("destinationColor"@.len() != "zero"@.len());
    assert("one"@.len() != "oneMinusDestinationAlpha"@.len());
    assert("one"@.len() != "oneMinusDestinationColor"@.len());
    assert("one"@.len() != "oneMinusSourceAlpha"@.len());
    assert("one"@.len() != "oneMinusSourceColor"@.len());
    assert("one"@.len() != "sourceAlpha"@.len());
    assert("one"@.len() != "sourceColor"@.len());
    assert("one"@.len() != "zero"@.len());
    assert("oneMinusDestinationAlpha"@[19] != "oneMinusDestinationColor"@[19]);
    assert("oneMinusDestinationAlpha"@.len() != "oneMinusSourceAlpha"@.len());
    assert("oneMinusDestinationAlpha"@.len() != "oneMinusSourceColor"@.len());
    assert("oneMinusDestinationAlpha"@.len() != "sourceAlpha"@.len());
    assert("oneMinusDestinationAlpha"@.len() != "sourceColor"@.len());
    assert("oneMinusDestinationAlpha"@.len() != "zero"@.len());
    assert("oneMinusDestinationColor"@.len() != "oneMinusSourceAlpha"@.len());
    assert("oneMinusDestinationColor"@.len() != "oneMinusSourceColor"@.len());
    assert("oneMinusDestinationColor"@.len() != "sourceAlpha"@.len());
    assert("oneMinusDestinationColor"@.len() != "sourceColor"@.len());
    assert("oneMinusDestinationColor"@.len() != "zero"@.len());
    assert("oneMinusSourceAlpha"@[14] != "oneMinusSourceColor"@[14]);
    assert("oneMinusSourceAlpha"@.len() != "sourceAlpha"@.len());
    assert("oneMinusSourceAlpha"@.len() != "sourceColor"@.len());
    assert("oneMinusSourceAlpha"@.len() != "zero"@.len());
    assert("oneMinusSourceColor"@.len() != "sourceAlpha"@.len());
    assert("oneMinusSourceColor"@.len() != "sourceColor"@.len());
    assert("oneMinusSourceColor"@.len() != "zero"@.len());
    assert("sourceAlpha"@[6] != "sourceColor"@[6]);
    assert("sourceAlpha"@.len() != "zero"@.len());
    assert("sourceColor"@.len() != "zero"@.len());
}

/// The ActionScript string constant of each `CompareMode` value.
pub open spec fn compare_mode_constant(v: CompareMode) -> Seq<char> {
    match v {
        CompareMode::Always => "always"@,
        CompareMode::Equal => "equal"@,
        CompareMode::Greater => "greater"@,
        CompareMode::GreaterEqual => "greaterEqual"@,
        CompareMode::Less => "less"@,
        CompareMode::LessEqual => "lessEqual"@,
        CompareMode::Never => "never"@,
        CompareMode::NotEqual => "notEqual"@,
    }
}

/// Each `CompareMode` value's ActionScript constant parses to that value, and no
/// other string parses to it.
pub proof fn law_compare_mode_constants(v: CompareMode, s: Seq<char>)
    ensures
        CompareMode::spec_from_wstr(compare_mode_constant(v)) == Some(v),
        CompareMode::spec_from_wstr(s) == Some(v) ==> s == compare_mode_constant(v),
{
    reveal_strlit("always");
    reveal_strlit("equal");
    reveal_strlit("greater");
    reveal_strlit("greaterEqual");
    reveal_strlit("less");
    reveal_strlit("lessEqual");
    reveal_strlit("never");
    reveal_strlit("notEqual");

    assert("always"@.len() != "equal"@.len());
    assert("always"@.len() != "greater"@.len());
    assert("always"@.len() != "greaterEqual"@.len());
    assert("always"@.len() != "less"@.len());
    assert("always"@.len() != "lessEqual"@.len());
    assert("always"@.len() != "never"@.len());
    assert("always"@.len() != "notEqual"@.len());
    assert("equal"@.len() != "greater"@.len());
    assert("equal"@.len() != "greaterEqual"@.len());
    assert("equal"@.len() != "less"@.len());
    assert("equal"@.len() != "lessEqual"@.len());
    assert("equal"@[0] != "never"@[0]);
    assert("equal"@.len() != "notEqual"@.len());
    assert("greater"@.len() != "greaterEqual"@.len());
    assert("greater"@.len() != "less"@.len());
    assert("greater"@.len() != "lessEqual"@.len());
    assert("greater"@.len() != "never"@.len());
    assert("greater"@.len() != "notEqual"@.len());
    assert("greaterEqual"@.len() != "less"@.len());
    assert("greaterEqual"@.len() != "lessEqual"@.len());
    assert("greaterEqual"@.len() != "never"@.len());
    assert("greaterEqual"@.len() != "notEqual"@.len());
    assert("less"@.len() != "lessEqual"@.len());
    assert("less"@.len() != "never"@.len());
    assert("less"@.len() != "notEqual"@.len());
    assert("lessEqual"@.len() != "never"@.len());
    assert("lessEqual"@.len() != "notEqual"@.len());
    assert("never"@.len() != "notEqual"@.len());
}

/// The ActionScript string constant of each `MipFilter` value.
pub open spec fn mip_filter_constant(v: MipFilter) -> Seq<char> {
    match v {
        MipFilter::MipLinear => "miplinear"@,
        MipFilter::MipNearest => "mipnearest"@,
        MipFilter::MipNone => "mipnone"@,
    }
}

/// Each `MipFilter` value's ActionScript constant parses to that value, and no
/// other string parses to it.
pub proof fn law_mip_filter_constants(v: MipFilter, s: Seq<char>)
    ensures
        MipFilter::spec_from_wstr(mip_filter_constant(v)) == Some(v),
        MipFilter::spec_from_wstr(s) == Some(v) ==> s == mip_filter_constant(v),
{
    reveal_strlit("miplinear");
    reveal_strlit("mipnearest");
    reveal_strlit("mipnone");

    assert("miplinear"@.len() != "mipnearest"@.len());
    assert("miplinear"@.len() != "mipnone"@.len());
    assert("mipnearest"@.len() != "mipnone"@.len());
}

/// The ActionScript string constant of each `StencilAction` value.
pub open spec fn stencil_action_constant(v: StencilAction) -> Seq<char> {
    match v {
        StencilAction::DecrementSaturate => "decrementSaturate"@,
        StencilAction::DecrementWrap => "decrementWrap"@,
        StencilAction::IncrementSaturate => "incrementSaturate"@,
        StencilAction::IncrementWrap => "incrementWrap"@,
        StencilAction::Invert => "invert"@,
        StencilAction::Keep => "keep"@,
        StencilAction::SetToReference => "set"@,
        StencilAction::Zero => "zero"@,
    }
}

/// Each `StencilAction` value's ActionScript constant parses to that value, and no
/// other string parses to it.
pub proof fn law_stencil_action_constants(v: StencilAction, s: Seq<char>)
    ensures
        StencilAction::spec_from_wstr(stencil_action_constant(v)) == Some(v),
        StencilAction::spec_from_wstr(s) == Some(v) ==> s == stencil_action_constant(v),
{
    reveal_strlit("decrementSaturate");
    reveal_strlit("decrementWrap");
    reveal_strlit("incrementSaturate");
    reveal_strlit("incrementWrap");
    reveal_strlit("invert");
    reveal_strlit("keep");
    reveal_strlit("set");
    reveal_strlit("zero");

    assert("decrementSaturate"@.len() != "decrementWrap"@.len());
    assert("decrementSaturate"@[0] != "incrementSaturate"@[0]);
    assert("decrementSaturate"@.len() != "incrementWrap"@.len());
    assert("decrementSaturate"@.len() != "invert"@.len());
    assert("decrementSaturate"@.len() != "keep"@.len());
    assert("decrementSaturate"@.len() != "set"@.len());
    assert("decrementSaturate"@.len() != "zero"@.len());
    assert("decrementWrap"@.len() != "incrementSaturate"@.len());
    assert("decrementWrap"@[0] != "incrementWrap"@[0]);
    assert("decrementWrap"@.len() != "invert"@.len());
    assert("decrementWrap"@.len() != "keep"@.len());
    assert("decrementWrap"@.len() != "set"@.len());
    assert("decrementWrap"@.len() != "zero"@.len());
    assert("incrementSaturate"@.len() != "incrementWrap"@.len());
    assert("incrementSaturate"@.len() != "invert"@.len());
    assert("incrementSaturate"@.len() != "keep"@.len());
    assert("incrementSaturate"@.len() != "set"@.len());
    assert("incrementSaturate"@.len() != "zero"@.len());
    assert("incrementWrap"@.len() != "invert"@.len());
    assert("incrementWrap"@.len() != "keep"@.len());
    assert("incrementWrap"@.len() != "set"@.len());
    assert("incrementWrap"@.len() != "zero"@.len());
    assert("invert"@.len() != "keep"@.len());
    assert("invert"@.len() != "set"@.len());
    assert("invert"@.len() != "zero"@.len());
    assert("keep"@.len() != "set"@.len());
    assert("keep"@[0] != "zero"@[0]);
    assert("set"@.len() != "zero"@.len());
}

/// The ActionScript string constant of each `TextureFilter` value.
pub open spec fn texture_filter_constant(v: TextureFilter) -> Seq<char> {
    match v {
        TextureFilter::Anisotropic16X => "anisotropic16x"@,
        TextureFilter::Anisotropic2X => "anisotropic2x"@,
        TextureFilter::Anisotropic4X => "anisotropic4x"@,
        TextureFilter::Anisotropic8X => "anisotropic8x"@,
        TextureFilter::Linear => "linear"@,
        TextureFilter::Nearest => "nearest"@,
    }
}

/// Each `TextureFilter` value's ActionScript constant parses to that value, and no
/// other string parses to it.
pub proof fn law_texture_filter_constants(v: TextureFilter, s: Seq<char>)
    ensures
        TextureFilter::spec_from_wstr(texture_filter_constant(v)) == Some(v),
        TextureFilter::spec_from_wstr(s) == Some(v) ==> s == texture_filter_constant(v),
{
    reveal_strlit("anisotropic16x");
    reveal_strlit("anisotropic2x");
    reveal_strlit("anisotropic4x");
    reveal_strlit("anisotropic8x");
    reveal_strlit("linear");
    reveal_strlit("nearest");

    assert("anisotropic16x"@.len() != "anisotropic2x"@.len());
    assert("anisotropic16x"@.len() != "anisotropic4x"@.len());
    assert("anisotropic16x"@.len() != "anisotropic8x"@.len());
    assert("anisotropic16x"@.len() != "linear"@.len());
    assert("anisotropic16x"@.len() != "nearest"@.len());
    assert("anisotropic2x"@[11] != "anisotropic4x"@[11]);
    assert("anisotropic2x"@[11] != "anisotropic8x"@[11]);
    assert("anisotropic2x"@.len() != "linear"@.len());
    assert("anisotropic2x"@.len() != "nearest"@.len());
    assert("anisotropic4x"@[11] != "anisotropic8x"@[11]);
    assert("anisotropic4x"@.len() != "linear"@.len());
    assert("anisotropic4x"@.len() != "nearest"@.len());
    assert("anisotropic8x"@.len() != "linear"@.len());
    assert("anisotropic8x"@.len() != "nearest"@.len());
    assert("linear"@.len() != "nearest"@.len());
}

/// The ActionScript string constant of each `TextureFormat` value.
pub open spec fn texture_format_constant(v: TextureFormat) -> Seq<char> {
    match v {
        TextureFormat::Bgra => "bgra"@,
        TextureFormat::BgraPacked => "bgraPacked4444"@,
        TextureFormat::BgrPacked => "bgrPacked565"@,
        TextureFormat::Compressed => "compressed"@,
        TextureFormat::CompressedAlpha => "compressedAlpha"@,
        TextureFormat::RgbaHalfFloat => "rgbaHalfFloat"@,
    }
}

/// Each `TextureFormat` value's ActionScript constant parses to that value, and no
/// other string parses to it.
pub proof fn law_texture_format_constants(v: TextureFormat, s: Seq<char>)
    ensures
        TextureFormat::spec_from_wstr(texture_format_constant(v)) == Some(v),
        TextureFormat::spec_from_wstr(s) == Some(v) ==> s == texture_format_constant(v),
{
    reveal_strlit("bgra");
    reveal_strlit("bgraPacked4444");
    reveal_strlit("bgrPacked565");
    reveal_strlit("compressed");
    reveal_strlit("compressedAlpha");
    reveal_strlit("rgbaHalfFloat");

    assert("bgra"@.len() != "bgraPacked4444"@.len());
    assert("bgra"@.len() != "bgrPacked565"@.len());
    assert("bgra"@.len() != "compressed"@.len());
    assert("bgra"@.len() != "compressedAlpha"@.len());
    assert("bgra"@.len() != "rgbaHalfFloat"@.len());
    assert("bgraPacked4444"@.len() != "bgrPacked565"@.len());
    assert("bgraPacked4444"@.len() != "compressed"@.len());
    assert("bgraPacked4444"@.len() != "compressedAlpha"@.len());
    assert("bgraPacked4444"@.len() != "rgbaHalfFloat"@.len());
    assert("bgrPacked565"@.len() != "compressed"@.len());
    assert("bgrPacked565"@.len() != "compressedAlpha"@.len());
    assert("bgrPacked565"@.len() != "rgbaHalfFloat"@.len());
    assert("compressed"@.len() != "compressedAlpha"@.len());
    assert("compressed"@.len() != "rgbaHalfFloat"@.len());
    assert("compressedAlpha"@.len() != "rgbaHalfFloat"@.len());
}

/// The ActionScript string constant of each `TriangleFace` value.
pub open spec fn triangle_face_constant(v: TriangleFace) -> Seq<char> {
    match v {
        TriangleFace::Back => "back"@,
        TriangleFace::Front => "front"@,
        TriangleFace::FrontAndBack => "frontAndBack"@,
        TriangleFace::NoFace => "none"@,
    }
}

/// Each `TriangleFace` value's ActionScript constant parses to that value, and no
/// other string parses to it.
pub proof fn law_triangle_face_constants(v: TriangleFace, s: Seq<char>)
    ensures
        TriangleFace::spec_from_wstr(triangle_face_constant(v)) == Some(v),
        TriangleFace::spec_from_wstr(s) == Some(v) ==> s == triangle_face_constant(v),
{
    reveal_strlit("back");
    reveal_strlit("front");
    reveal_strlit("frontAndBack");
    reveal_strlit("none");

    assert("back"@.len() != "front"@.len());
    assert("back"@.len() != "frontAndBack"@.len());
    assert("back"@[0] != "none"@[0]);
    assert("front"@.len() != "frontAndBack"@.len());
    assert("front"@.len() != "none"@.len());
    assert("frontAndBack"@.len() != "none"@.len());
}

/// The ActionScript string constant of each `VertexBufferFormat` value.
pub open spec fn vertex_buffer_format_constant(v: VertexBufferFormat) -> Seq<char> {
    match v {
        VertexBufferFormat::Bytes4 => "bytes4"@,
        VertexBufferFormat::Float1 => "float1"@,
        VertexBufferFormat::Float2 => "float2"@,
        VertexBufferFormat::Float3 => "float3"@,
        VertexBufferFormat::Float4 => "float4"@,
    }
}

/// Each `VertexBufferFormat` value's ActionScript constant parses to that value, and no
/// other string parses to it.
pub proof fn law_vertex_buffer_format_constants(v: VertexBufferFormat, s: Seq<char>)
    ensures
        VertexBufferFormat::spec_from_wstr(vertex_buffer_format_constant(v)) == Some(v),
        VertexBufferFormat::spec_from_wstr(s) == Some(v) ==> s == vertex_buffer_format_constant(v),
{
    reveal_strlit("bytes4");
    reveal_strlit("float1");
    reveal_strlit("float2");
    reveal_strlit("float3");
    reveal_strlit("float4");

    assert("bytes4"@[0] != "float1"@[0]);
    assert("bytes4"@[0] != "float2"@[0]);
    assert("bytes4"@[0] != "float3"@[0]);
    assert("bytes4"@[0] != "float4"@[0]);
    assert("float1"@[5] != "float2"@[5]);
    assert("float1"@[5] != "float3"@[5]);
    assert("float1"@[5] != "float4"@[5]);
    assert("float2"@[5] != "float3"@[5]);
    assert("float2"@[5] != "float4"@[5]);
    assert("float3"@[5] != "float4"@[5]);
}

/// The ActionScript string constant of each `WrapMode` value.
pub open spec fn wrap_mode_constant(v: WrapMode) -> Seq<char> {
    match v {
        WrapMode::Clamp => "clamp"@,
        WrapMode::ClampURepeatV => "clamp_u_repeat_v"@,
        WrapMode::Repeat => "repeat"@,
        WrapMode::RepeatUClampV => "repeat_u_clamp_v"@,
    }
}

/// Each `WrapMode` value's ActionScript constant parses to that value, and no
/// other string parses to it.
pub proof fn law_wrap_mode_constants(v: WrapMode, s: Seq<char>)
    ensures
        WrapMode::spec_from_wstr(wrap_mode_constant(v)) == Some(v),
        WrapMode::spec_from_wstr(s) == Some(v) ==> s == wrap_mode_constant(v),
{
    reveal_strlit("clamp");
    reveal_strlit("clamp_u_repeat_v");
    reveal_strlit("repeat");
    reveal_strlit("repeat_u_clamp_v");

    assert("clamp"@.len() != "clamp_u_repeat_v"@.len());
    assert("clamp"@.len() != "repeat"@.len());
    assert("clamp"@.len() != "repeat_u_clamp_v"@.len());
    assert("clamp_u_repeat_v"@.len() != "repeat"@.len());
    assert("clamp_u_repeat_v"@[0] != "repeat_u_clamp_v"@[0]);
    assert("repeat"@.len() != "repeat_u_clamp_v"@.len());
}

/// The ActionScript string constant of each `ProgramType` value.
pub open spec fn program_type_constant(v: ProgramType) -> Seq<char> {
    match v {
        ProgramType::Vertex => "vertex"@,
        ProgramType::Fragment => "fragment"@,
    }
}

/// Each `ProgramType` value's ActionScript constant parses to that value, and no
/// other string parses to it.
pub proof fn law_program_type_constants(v: ProgramType, s: Seq<char>)
    ensures
        ProgramType::spec_from_wstr(program_type_constant(v)) == Some(v),
        ProgramType::spec_from_wstr(s) == Some(v) ==> s == program_type_constant(v),
{
    reveal_strlit("vertex");
    reveal_strlit("fragment");

    assert("vertex"@.len() != "fragment"@.len());
}

} // verus!
