//! The rendering commands and resource requests that `Context3D` sends to the
//! rendering backend, and the not-yet-supported features that it reports.

use vstd::prelude::*;
use crate::value::{IndexBuffer3DRef, Program3DRef, TextureRef, VertexBuffer3DRef};
use super::enums::{
    BlendFactor, CompareMode, StencilAction, TextureFilter, TextureFormat, TriangleFace,
    VertexBufferFormat, WrapMode,
};

verus! {

#[allow(inconsistent_fields)]
/// A command processed by the rendering backend. Each buffer, program or
/// texture is named by the ActionScript object that owns its backend handle.
#[derive(Debug)]
pub enum Command {
    ConfigureBackBuffer {
        width: u32,
        height: u32,
        anti_alias: u32,
        depth_and_stencil: bool,
        wants_best_resolution: bool,
        wants_best_resolution_on_browser_zoom: bool,
    },
    UploadToVertexBuffer {
        buffer: VertexBuffer3DRef,
        data: Vec<u8>,
        start_vertex: usize,
        data32_per_vertex: u8,
    },
    UploadToIndexBuffer { buffer: IndexBuffer3DRef, data: Vec<u8>, start_offset: usize },
    UploadShaders {
        program: Program3DRef,
        vertex_shader_agal: Vec<u8>,
        fragment_shader_agal: Vec<u8>,
    },
    SetVertexBufferAt {
        index: u32,
        buffer: Option<(VertexBuffer3DRef, VertexBufferFormat)>,
        buffer_offset: u32,
    },
    SetShaders { program: Option<Program3DRef> },
    DrawTriangles { index_buffer: IndexBuffer3DRef, first_index: usize, num_triangles: isize },
    SetCulling { face: TriangleFace },
    SetBlendFactors { source_factor: BlendFactor, destination_factor: BlendFactor },
    SetRenderToTexture {
        texture: TextureRef,
        enable_depth_and_stencil: bool,
        anti_alias: u32,
        surface_selector: u32,
    },
    SetRenderToBackBuffer,
    SetTextureAt { sampler: u32, texture: Option<TextureRef>, cube: bool },
    SetColorMask { red: bool, green: bool, blue: bool, alpha: bool },
    SetDepthTest { depth_mask: bool, pass_compare_mode: CompareMode },
    SetSamplerStateAt { sampler: u32, wrap: WrapMode, filter: TextureFilter },
    SetStencilActions {
        triangle_face: TriangleFace,
        compare_mode: CompareMode,
        on_both_pass: StencilAction,
        on_depth_fail: StencilAction,
        on_depth_pass_stencil_fail: StencilAction,
    },
    SetStencilReferenceValue { reference_value: u32, read_mask: u32, write_mask: u32 },
    SetScissorRectangle { rect: Option<TwipsRect> },
    CopyBitmapToTexture {
        source: Vec<u8>,
        source_width: u32,
        source_height: u32,
        dest: TextureRef,
        layer: u32,
    },
}

/// A rectangle in twips (twentieths of a pixel), by its edges.
#[derive(Clone, Copy, PartialEq, Eq, Structural, Debug)]
pub struct TwipsRect {
    pub x_min: i32,
    pub y_min: i32,
    pub x_max: i32,
    pub y_max: i32,
}

/// How a buffer is expected to be used.
#[derive(Clone, Copy, PartialEq, Eq, Structural, Debug)]
pub enum BufferUsage {
    StaticDraw,
    DynamicDraw,
}

/// A request to the backend for a new index buffer.
#[derive(Clone, Copy, PartialEq, Eq, Structural, Debug)]
pub struct IndexBufferRequest {
    pub usage: BufferUsage,
    pub num_indices: u32,
}

/// A request to the backend for a new vertex buffer.
#[derive(Clone, Copy, PartialEq, Eq, Structural, Debug)]
pub struct VertexBufferRequest {
    pub usage: BufferUsage,
    pub num_vertices: u32,
    pub data_32_per_vertex: u8,
}

/// The class of a new two-dimensional texture.
#[derive(Clone, Copy, PartialEq, Eq, Structural, Debug)]
pub enum FlatTextureClass {
    Texture,
    RectangleTexture,
}

/// A request to the backend for a new texture.
#[derive(Clone, Copy, PartialEq, Eq, Structural, Debug)]
pub enum TextureRequest {
    Flat {
        class: FlatTextureClass,
        width: u32,
        height: u32,
        format: TextureFormat,
        optimize_for_render_to_texture: bool,
        streaming_levels: u32,
    },
    Cube {
        size: u32,
        format: TextureFormat,
        optimize_for_render_to_texture: bool,
        streaming_levels: u32,
    },
}

/// A feature that is accepted but not implemented, reported as a stub of the
/// named method of `flash.display3D.Context3D`.
#[derive(Clone, Copy, PartialEq, Eq, Structural, Debug)]
pub enum Stub {
    /// `configureBackBuffer`: `wantsBestResolution`.
    WantsBestResolution,
    /// `configureBackBuffer`: `wantsBestResolutionOnBrowserZoom`.
    WantsBestResolutionOnBrowserZoom,
    /// `setRenderToTexture`: `antiAlias != 0`.
    RenderToTextureAntiAlias,
    /// `setRenderToTexture`: `colorOutputIndex != 0`.
    RenderToTextureColorOutputIndex,
    /// `setSamplerStateAt`: `filter == 'anisotropic'`.
    AnisotropicFilter,
    /// `setSamplerStateAt`: `mipFilter != 'none'`.
    MipFilter,
    /// `createTexture`: with `BgrPacked`.
    BgrPackedTexture,
    /// `createTexture`: with `Compressed`.
    CompressedTexture,
    /// `dispose`.
    Dispose,
}

impl Stub {
    /// The `Context3D` method that the stub is reported for.
    pub open spec fn spec_method(&self) -> Seq<char> {
        match self {
            Stub::WantsBestResolution => "configureBackBuffer"@,
            Stub::WantsBestResolutionOnBrowserZoom => "configureBackBuffer"@,
            Stub::RenderToTextureAntiAlias => "setRenderToTexture"@,
            Stub::RenderToTextureColorOutputIndex => "setRenderToTexture"@,
            Stub::AnisotropicFilter => "setSamplerStateAt"@,
            Stub::MipFilter => "setSamplerStateAt"@,
            Stub::BgrPackedTexture => "createTexture"@,
            Stub::CompressedTexture => "createTexture"@,
            Stub::Dispose => "dispose"@,
        }
    }

    /// The `Context3D` method that the stub is reported for.
    pub fn method(&self) -> (r: String)
        ensures
            r@ == self.spec_method(),
    {
        match self {
            Stub::WantsBestResolution => "configureBackBuffer".to_owned(),
            Stub::WantsBestResolutionOnBrowserZoom => "configureBackBuffer".to_owned(),
            Stub::RenderToTextureAntiAlias => "setRenderToTexture".to_owned(),
            Stub::RenderToTextureColorOutputIndex => "setRenderToTexture".to_owned(),
            Stub::AnisotropicFilter => "setSamplerStateAt".to_owned(),
            Stub::MipFilter => "setSamplerStateAt".to_owned(),
            Stub::BgrPackedTexture => "createTexture".to_owned(),
            Stub::CompressedTexture => "createTexture".to_owned(),
            Stub::Dispose => "dispose".to_owned(),
        }
    }

    /// What of the method is not implemented, where it is not the whole method.
    pub open spec fn spec_detail(&self) -> Option<Seq<char>> {
        match self {
            Stub::WantsBestResolution => Some("wantsBestResolution"@),
            Stub::WantsBestResolutionOnBrowserZoom => Some("wantsBestResolutionOnBrowserZoom"@),
            Stub::RenderToTextureAntiAlias => Some("antiAlias != 0"@),
            Stub::RenderToTextureColorOutputIndex => Some("colorOutputIndex != 0"@),
            Stub::AnisotropicFilter => Some("filter == 'anisotropic'"@),
            Stub::MipFilter => Some("mipFilter != 'none'"@),
            Stub::BgrPackedTexture => Some("with BgrPacked"@),
            Stub::CompressedTexture => Some("with Compressed"@),
            Stub::Dispose => None,
        }
    }

    /// What of the method is not implemented, where it is not the whole method.
    pub fn detail(&self) -> (r: Option<String>)
        ensures
            match r {
                Some(d) => self.spec_detail() == Some(d@),
                None => self.spec_detail() is None,
            },
    {
        match self {
            Stub::WantsBestResolution => Some("wantsBestResolution".to_owned()),
            Stub::WantsBestResolutionOnBrowserZoom => Some("wantsBestResolutionOnBrowserZoom".to_owned()),
            Stub::RenderToTextureAntiAlias => Some("antiAlias != 0".to_owned()),
            Stub::RenderToTextureColorOutputIndex => Some("colorOutputIndex != 0".to_owned()),
            Stub::AnisotropicFilter => Some("filter == 'anisotropic'".to_owned()),
            Stub::MipFilter => Some("mipFilter != 'none'".to_owned()),
            Stub::BgrPackedTexture => Some("with BgrPacked".to_owned()),
            Stub::CompressedTexture => Some("with Compressed".to_owned()),
            Stub::Dispose => None,
        }
    }
}

} // verus!
