//! The argument checks of `Context3D`'s native methods, each with the
//! backend command or request that an accepted call leads to.

use vstd::prelude::*;
use crate::error::AvmError;
use crate::value::{ObjectClass, TextureKind, TextureRef};
use super::command::{
    BufferUsage, Command, FlatTextureClass, IndexBufferRequest, Stub, TextureRequest,
    VertexBufferRequest,
};
use super::enums::{MipFilter, TextureFilter, TextureFormat, WrapMode};

verus! {

/// The smallest back-buffer width or height.
pub const MIN_BACK_BUFFER_SIZE: u32 = 32;

/// The largest back-buffer width or height.
pub const MAX_BACK_BUFFER_SIZE: u32 = 16384;

/// The most 32-bit values a vertex may hold.
pub const MAX_DATA_32_PER_VERTEX: u32 = 64;

/// Movies of a SWF version below this one get the older back-buffer rules.
pub const BACK_BUFFER_RULES_SWF_VERSION: u8 = 30;

/// `createIndexBuffer`: a buffer of no indices raises error #3671; otherwise
/// the backend is asked for a static-draw buffer of `num_indices` indices.
pub fn create_index_buffer(num_indices: u32) -> (r: Result<IndexBufferRequest, AvmError>)
    ensures
        num_indices == 0 ==> r matches Err(AvmError::ZeroSizedBuffer),
        num_indices != 0 ==> r == Ok::<IndexBufferRequest, AvmError>(
            IndexBufferRequest { usage: BufferUsage::StaticDraw, num_indices },
        ),
{
    if num_indices == 0 {
        return Err(AvmError::ZeroSizedBuffer);
    }
    Ok(IndexBufferRequest { usage: BufferUsage::StaticDraw, num_indices })
}

/// `createVertexBuffer`: more than 64 values per vertex raises error #3670,
/// none raises #3671; otherwise the backend is asked for a dynamic-draw buffer.
pub fn create_vertex_buffer(num_vertices: u32, data_32_per_vertex: u32) -> (r: Result<
    VertexBufferRequest,
    AvmError,
>)
    ensures
        data_32_per_vertex > MAX_DATA_32_PER_VERTEX ==> r matches Err(AvmError::BufferTooBig),
        data_32_per_vertex == 0 ==> r matches Err(AvmError::ZeroSizedBuffer),
        0 < data_32_per_vertex <= MAX_DATA_32_PER_VERTEX ==> r == Ok::<
            VertexBufferRequest,
            AvmError,
        >(
            VertexBufferRequest {
                usage: BufferUsage::DynamicDraw,
                num_vertices,
                data_32_per_vertex: data_32_per_vertex as u8,
            },
        ),
{
    if data_32_per_vertex > MAX_DATA_32_PER_VERTEX {
        return Err(AvmError::BufferTooBig);
    } else if data_32_per_vertex == 0 {
        return Err(AvmError::ZeroSizedBuffer);
    }
    Ok(
        VertexBufferRequest {
            usage: BufferUsage::DynamicDraw,
            num_vertices,
            data_32_per_vertex: data_32_per_vertex as u8,
        },
    )
}

/// The arguments of `configureBackBuffer`.
#[derive(Clone, Copy, PartialEq, Eq, Structural, Debug)]
pub struct BackBufferRequest {
    pub width: u32,
    pub height: u32,
    pub anti_alias: u32,
    pub enable_depth_and_stencil: bool,
    pub wants_best_resolution: bool,
    pub wants_best_resolution_on_browser_zoom: bool,
}

/// A size in the allowed back-buffer range.
pub open spec fn back_buffer_size_ok(size: u32) -> bool {
    MIN_BACK_BUFFER_SIZE <= size <= MAX_BACK_BUFFER_SIZE
}

/// An older movie's call with everything zero, which is ignored.
pub open spec fn is_ignored_back_buffer_call(swf_version: u8, req: BackBufferRequest) -> bool {
    swf_version < BACK_BUFFER_RULES_SWF_VERSION && req.width == 0 && req.height == 0
        && req.anti_alias == 0 && !req.enable_depth_and_stencil
}

/// The stubs reported for an accepted back-buffer configuration, in order.
pub open spec fn back_buffer_stubs(req: BackBufferRequest) -> Seq<Stub> {
    (if req.wants_best_resolution {
        seq![Stub::WantsBestResolution]
    } else {
        Seq::empty()
    }) + (if req.wants_best_resolution_on_browser_zoom {
        seq![Stub::WantsBestResolutionOnBrowserZoom]
    } else {
        Seq::empty()
    })
}

/// The command for an accepted back-buffer configuration.
pub open spec fn back_buffer_command(req: BackBufferRequest) -> Command {
    Command::ConfigureBackBuffer {
        width: req.width,
        height: req.height,
        anti_alias: req.anti_alias,
        depth_and_stencil: req.enable_depth_and_stencil,
        wants_best_resolution: req.wants_best_resolution,
        wants_best_resolution_on_browser_zoom: req.wants_best_resolution_on_browser_zoom,
    }
}

/// The stubs for two independent conditions, in order.
pub open spec fn two_stubs(a: bool, x: Stub, b: bool, y: Stub) -> Seq<Stub> {
    (if a {
        seq![x]
    } else {
        Seq::empty()
    }) + (if b {
        seq![y]
    } else {
        Seq::empty()
    })
}

proof fn lemma_two_stubs(a: bool, x: Stub, b: bool, y: Stub)
    requires
        x != y,
    ensures
        two_stubs(a, x, b, y).contains(x) <==> a,
        two_stubs(a, x, b, y).contains(y) <==> b,
        two_stubs(a, x, b, y).len() == (if a {
            1int
        } else {
            0int
        }) + (if b {
            1int
        } else {
            0int
        }),
{
    let s = two_stubs(a, x, b, y);
    if a {
        assert(s[0] == x);
    }
    if b {
        assert(s[s.len() - 1] == y);
    }
    if !a && !b {
        assert(s =~= Seq::<Stub>::empty());
    }
}

/// An accepted back-buffer configuration is sent with every requested field
/// unchanged.
pub proof fn law_back_buffer_command_passes_request_through(req: BackBufferRequest)
    ensures
        match back_buffer_command(req) {
            Command::ConfigureBackBuffer {
                width,
                height,
                anti_alias,
                depth_and_stencil,
                wants_best_resolution,
                wants_best_resolution_on_browser_zoom,
            } => width == req.width && height == req.height && anti_alias == req.anti_alias
                && depth_and_stencil == req.enable_depth_and_stencil && wants_best_resolution
                == req.wants_best_resolution && wants_best_resolution_on_browser_zoom
                == req.wants_best_resolution_on_browser_zoom,
            _ => false,
        },
{
}

/// A stub is reported for each resolution flag that is set, once, and for no
/// other reason.
pub proof fn law_back_buffer_stubs_follow_flags(req: BackBufferRequest)
    ensures
        back_buffer_stubs(req).contains(Stub::WantsBestResolution) <==> req.wants_best_resolution,
        back_buffer_stubs(req).contains(Stub::WantsBestResolutionOnBrowserZoom)
            <==> req.wants_best_resolution_on_browser_zoom,
        back_buffer_stubs(req).len() == (if req.wants_best_resolution {
            1int
        } else {
            0int
        }) + (if req.wants_best_resolution_on_browser_zoom {
            1int
        } else {
            0int
        }),
{
    lemma_two_stubs(
        req.wants_best_resolution,
        Stub::WantsBestResolution,
        req.wants_best_resolution_on_browser_zoom,
        Stub::WantsBestResolutionOnBrowserZoom,
    );
    assert(back_buffer_stubs(req) == two_stubs(
        req.wants_best_resolution,
        Stub::WantsBestResolution,
        req.wants_best_resolution_on_browser_zoom,
        Stub::WantsBestResolutionOnBrowserZoom,
    ));
}

/// `configureBackBuffer` for a movie of the given SWF version. An older movie
/// (below version 30) may call it with all zero and no depth buffer, which
/// does nothing (`Ok(None)`). Otherwise width and height must each lie in
/// 32..=16384: an older movie gets error #3669 for either, a newer one #3780
/// for the width and #3781 for the height, width first. An accepted call
/// gives the configuration command and the stubs for the two resolution flags.
pub fn configure_back_buffer(swf_version: u8, req: BackBufferRequest) -> (r: Result<
    Option<(Command, Vec<Stub>)>,
    AvmError,
>)
    ensures
        is_ignored_back_buffer_call(swf_version, req) ==> r matches Ok(None),
        !is_ignored_back_buffer_call(swf_version, req) ==> {
            let old_swf = swf_version < BACK_BUFFER_RULES_SWF_VERSION;
            if !back_buffer_size_ok(req.width) {
                if old_swf {
                    r matches Err(AvmError::BadInputSize)
                } else {
                    r matches Err(AvmError::BackBufferWidthOutOfRange)
                }
            } else if !back_buffer_size_ok(req.height) {
                if old_swf {
                    r matches Err(AvmError::BadInputSize)
                } else {
                    r matches Err(AvmError::BackBufferHeightOutOfRange)
                }
            } else {
                r matches Ok(Some((c, stubs))) && c == back_buffer_command(req) && stubs@
                    == back_buffer_stubs(req)
            }
        },
        (MIN_BACK_BUFFER_SIZE <= req.width <= MAX_BACK_BUFFER_SIZE && MIN_BACK_BUFFER_SIZE
            <= req.height <= MAX_BACK_BUFFER_SIZE) ==> r matches Ok(Some(_)),
        (r matches Ok(None)) <==> (swf_version < 30 && req.width == 0 && req.height == 0
            && req.anti_alias == 0 && !req.enable_depth_and_stencil),
        match r {
            Ok(Some((c, stubs))) => match c {
                Command::ConfigureBackBuffer {
                    width,
                    height,
                    anti_alias,
                    depth_and_stencil,
                    wants_best_resolution,
                    wants_best_resolution_on_browser_zoom,
                } => {
                    &&& width == req.width
                    &&& height == req.height
                    &&& anti_alias == req.anti_alias
                    &&& depth_and_stencil == req.enable_depth_and_stencil
                    &&& wants_best_resolution == req.wants_best_resolution
                    &&& wants_best_resolution_on_browser_zoom
                        == req.wants_best_resolution_on_browser_zoom
                    &&& MIN_BACK_BUFFER_SIZE <= width <= MAX_BACK_BUFFER_SIZE
                    &&& MIN_BACK_BUFFER_SIZE <= height <= MAX_BACK_BUFFER_SIZE
                    &&& stubs@.contains(Stub::WantsBestResolution) <==> req.wants_best_resolution
                    &&& stubs@.contains(Stub::WantsBestResolutionOnBrowserZoom)
                        <==> req.wants_best_resolution_on_browser_zoom
                    &&& stubs@.len() == (if req.wants_best_resolution {
                        1int
                    } else {
                        0int
                    }) + (if req.wants_best_resolution_on_browser_zoom {
                        1int
                    } else {
                        0int
                    })
                },
                _ => false,
            },
            _ => true,
        },
{
    proof {
        law_back_buffer_command_passes_request_through(req);
        law_back_buffer_stubs_follow_flags(req);
    }
    let old_swf = swf_version < BACK_BUFFER_RULES_SWF_VERSION;
    if old_swf && req.width == 0 && req.height == 0 && req.anti_alias == 0
        && !req.enable_depth_and_stencil {
        return Ok(None);
    }
    if req.width < MIN_BACK_BUFFER_SIZE || req.width > MAX_BACK_BUFFER_SIZE {
        return Err(
            if old_swf {
                AvmError::BadInputSize
            } else {
                AvmError::BackBufferWidthOutOfRange
            },
        );
    }
    if req.height < MIN_BACK_BUFFER_SIZE || req.height > MAX_BACK_BUFFER_SIZE {
        return Err(
            if old_swf {
                AvmError::BadInputSize
            } else {
                AvmError::BackBufferHeightOutOfRange
            },
        );
    }
    let mut stubs: Vec<Stub> = Vec::new();
    if req.wants_best_resolution {
        stubs.push(Stub::WantsBestResolution);
    }
    if req.wants_best_resolution_on_browser_zoom {
        stubs.push(Stub::WantsBestResolutionOnBrowserZoom);
    }
    proof {
        assert(stubs@ =~= back_buffer_stubs(req));
    }
    let command = Command::ConfigureBackBuffer {
        width: req.width,
        height: req.height,
        anti_alias: req.anti_alias,
        depth_and_stencil: req.enable_depth_and_stencil,
        wants_best_resolution: req.wants_best_resolution,
        wants_best_resolution_on_browser_zoom: req.wants_best_resolution_on_browser_zoom,
    };
    Ok(Some((command, stubs)))
}

/// How many values `setProgramConstantsFromVector` takes from a vector of
/// `len` values: all of them for `num_registers == -1`, else four per
/// register, which the vector must hold; `None` when it raises #3669.
pub open spec fn vector_constants_taken(len: int, num_registers: i32) -> Option<int> {
    if num_registers == -1 {
        Some(len)
    } else if num_registers < 0 || len < 4 * num_registers {
        None
    } else {
        Some(4 * num_registers)
    }
}

/// With -1 every value is taken; with `n >= 0` registers the vector must hold
/// at least `4n` values (exactly `4n` is enough) and the first `4n` are
/// taken; any other negative count is refused.
pub proof fn law_vector_constants_taken(len: int, num_registers: i32)
    requires
        len >= 0,
    ensures
        num_registers == -1 ==> vector_constants_taken(len, num_registers) == Some(len),
        num_registers >= 0 ==> (vector_constants_taken(len, num_registers) is None <==> len < 4
            * num_registers),
        (num_registers >= 0 && len >= 4 * num_registers) ==> vector_constants_taken(
            len,
            num_registers,
        ) == Some(4 * num_registers as int),
        num_registers < -1 ==> vector_constants_taken(len, num_registers) is None,
{
}

/// `setProgramConstantsFromVector`: the values copied into the constant
/// registers, or error #3669 when the vector holds fewer than four values per
/// requested register (or the register count is negative, other than -1).
pub fn vector_constants<T: Copy>(vector: &[T], num_registers: i32) -> (r: Result<Vec<T>, AvmError>)
    ensures
        match vector_constants_taken(vector@.len() as int, num_registers) {
            Some(k) => r matches Ok(v) && v@ == vector@.take(k),
            None => r matches Err(AvmError::BadInputSize),
        },
        num_registers == -1 ==> (r matches Ok(v) && v@ == vector@),
        num_registers >= 0 ==> (r is Err <==> vector@.len() < 4 * num_registers),
        (num_registers >= 0 && vector@.len() >= 4 * num_registers) ==> (r matches Ok(v) && v@.len()
            == 4 * num_registers && forall|i: int| 0 <= i < 4 * num_registers ==> v@[i] == vector@[i]),
        num_registers < -1 ==> r matches Err(AvmError::BadInputSize),
{
    proof {
        law_vector_constants_taken(vector@.len() as int, num_registers);
    }
    let to_take: usize = if num_registers != -1 {
        if num_registers < 0 {
            return Err(AvmError::BadInputSize);
        }
        let required: u64 = (num_registers as u64) * 4;
        if (vector.len() as u64) < required {
            return Err(AvmError::BadInputSize);
        }
        required as usize
    } else {
        vector.len()
    };
    let mut out: Vec<T> = Vec::new();
    let mut i: usize = 0;
    while i < to_take
        invariant
            to_take <= vector@.len(),
            i <= to_take,
            out@ == vector@.take(i as int),
        decreases to_take - i,
    {
        out.push(vector[i]);
        i = i + 1;
        proof {
            assert(out@ =~= vector@.take(i as int));
        }
    }
    Ok(out)
}

/// The 32-bit word stored in four bytes, in big- or little-endian order.
pub open spec fn word_from_bytes(b0: u8, b1: u8, b2: u8, b3: u8, big_endian: bool) -> int {
    if big_endian {
        b0 * 0x0100_0000 + b1 * 0x1_0000 + b2 * 0x100 + b3
    } else {
        b3 * 0x0100_0000 + b2 * 0x1_0000 + b1 * 0x100 + b0
    }
}

/// The 32-bit word stored at `pos` of `data`.
pub open spec fn word_at(data: Seq<u8>, pos: int, big_endian: bool) -> int {
    word_from_bytes(data[pos], data[pos + 1], data[pos + 2], data[pos + 3], big_endian)
}

/// `setProgramConstantsFromByteArray` accepts its arguments: a non-negative
/// register count, an offset inside the array, and 16 bytes per register
/// from the offset on.
pub open spec fn byte_array_constants_ok(len: int, byte_offset: u32, num_registers: i32) -> bool {
    num_registers >= 0 && byte_offset < len && len - byte_offset >= 16 * num_registers
}

fn read_word(data: &[u8], pos: usize, big_endian: bool) -> (w: u32)
    requires
        pos + 4 <= data@.len(),
    ensures
        w == word_at(data@, pos as int, big_endian),
{
    let b0 = data[pos] as u32;
    let b1 = data[pos + 1] as u32;
    let b2 = data[pos + 2] as u32;
    let b3 = data[pos + 3] as u32;
    if big_endian {
        b0 * 0x0100_0000 + b1 * 0x1_0000 + b2 * 0x100 + b3
    } else {
        b3 * 0x0100_0000 + b2 * 0x1_0000 + b1 * 0x100 + b0
    }
}

/// `setProgramConstantsFromByteArray`: the bit patterns of the 32-bit floats
/// copied into the constant registers, four per register, read from
/// `byte_offset` on in the array's byte order. A negative register count, an
/// offset at or past the end (even for no registers) or too few bytes raise
/// error #3669.
pub fn byte_array_constants(data: &[u8], byte_offset: u32, num_registers: i32, big_endian: bool) -> (r: Result<Vec<u32>, AvmError>)
    ensures
        byte_array_constants_ok(data@.len() as int, byte_offset, num_registers) ==> (r matches Ok(
            words,
        ) && words@.len() == 4 * num_registers && forall|i: int|
            0 <= i < words@.len() ==> #[trigger] words@[i] == word_at(
                data@,
                byte_offset + 4 * i,
                big_endian,
            )),
        !byte_array_constants_ok(data@.len() as int, byte_offset, num_registers) ==> r matches Err(
            AvmError::BadInputSize,
        ),
        (r is Ok) <==> (num_registers >= 0 && byte_offset < data@.len() && data@.len()
            - byte_offset >= 16 * num_registers),
        match r {
            Ok(words) => {
                &&& words@.len() == 4 * num_registers
                &&& forall|i: int|
                    0 <= i < words@.len() ==> {
                        let p = byte_offset + 4 * i;
                        &&& big_endian ==> #[trigger] words@[i] == data@[p] * 0x0100_0000 + data@[p
                            + 1] * 0x1_0000 + data@[p + 2] * 0x100 + data@[p + 3]
                        &&& !big_endian ==> words@[i] == data@[p + 3] * 0x0100_0000 + data@[p
                            + 2] * 0x1_0000 + data@[p + 1] * 0x100 + data@[p]
                    }
            },
            Err(e) => e == AvmError::BadInputSize,
        },
{
    if num_registers < 0 {
        return Err(AvmError::BadInputSize);
    }
    let required_bytes: u64 = (num_registers as u64) * 16;
    let data_len = data.len();
    if (byte_offset as u64) >= (data_len as u64) || ((data_len as u64) - (byte_offset as u64))
        < required_bytes {
        return Err(AvmError::BadInputSize);
    }
    let offset = byte_offset as usize;
    let num_floats = (num_registers as usize) * 4;
    let mut words: Vec<u32> = Vec::new();
    let mut i: usize = 0;
    while i < num_floats
        invariant
            num_floats == 4 * num_registers,
            data_len == data@.len(),
            offset == byte_offset,
            offset + 4 * num_floats <= data@.len(),
            i <= num_floats,
            words@.len() == i,
            forall|k: int| 0 <= k < i ==> #[trigger] words@[k] == word_at(data@, offset + 4 * k, big_endian),
        decreases num_floats - i,
    {
        let w = read_word(data, offset + i * 4, big_endian);
        words.push(w);
        i = i + 1;
    }
    Ok(words)
}

/// The kind of a texture object (its class is a texture class).
pub open spec fn texture_kind(t: TextureRef) -> TextureKind {
    match t.0.class {
        ObjectClass::Texture(k) => k,
        _ => TextureKind::Texture,
    }
}

/// The stubs reported for `setRenderToTexture`, in order.
pub open spec fn render_to_texture_stubs(anti_alias: u32, color_output_index: u32) -> Seq<Stub> {
    (if anti_alias != 0 {
        seq![Stub::RenderToTextureAntiAlias]
    } else {
        Seq::empty()
    }) + (if color_output_index != 0 {
        seq![Stub::RenderToTextureColorOutputIndex]
    } else {
        Seq::empty()
    })
}

/// `setRenderToTexture`: a cube texture takes surface selectors 0 to 5
/// (else error #3772), a rectangle texture only 0 (else #3773), any other
/// texture only 0 (else #3771). An accepted call gives the command and the
/// stubs for a non-zero anti-alias level and colour output index.
pub fn set_render_to_texture(
    texture: TextureRef,
    enable_depth_and_stencil: bool,
    anti_alias: u32,
    surface_selector: u32,
    color_output_index: u32,
) -> (r: Result<(Command, Vec<Stub>), AvmError>)
    requires
        texture.0.class matches ObjectClass::Texture(_),
    ensures
        match texture_kind(texture) {
            TextureKind::CubeTexture => surface_selector > 5 ==> r matches Err(
                AvmError::CubeTextureSurfaceSelector,
            ),
            TextureKind::RectangleTexture => surface_selector != 0 ==> r matches Err(
                AvmError::RectangleTextureSurfaceSelector,
            ),
            _ => surface_selector != 0 ==> r matches Err(AvmError::TextureSurfaceSelector),
        },
        (if texture_kind(texture) == TextureKind::CubeTexture {
            surface_selector <= 5
        } else {
            surface_selector == 0
        }) ==> (r matches Ok((c, stubs)) && c == (Command::SetRenderToTexture {
            texture,
            enable_depth_and_stencil,
            anti_alias,
            surface_selector,
        }) && stubs@ == render_to_texture_stubs(anti_alias, color_output_index)),
        (r is Ok) <==> if texture.0.class == ObjectClass::Texture(TextureKind::CubeTexture) {
            surface_selector <= 5
        } else {
            surface_selector == 0
        },
        match r {
            Ok((c, stubs)) => {
                &&& match c {
                    Command::SetRenderToTexture {
                        texture: t,
                        enable_depth_and_stencil: e,
                        anti_alias: a,
                        surface_selector: s,
                    } => t == texture && e == enable_depth_and_stencil && a == anti_alias && s
                        == surface_selector,
                    _ => false,
                }
                &&& stubs@.contains(Stub::RenderToTextureAntiAlias) <==> anti_alias != 0
                &&& stubs@.contains(Stub::RenderToTextureColorOutputIndex) <==> color_output_index
                    != 0
            },
            Err(e) => {
                &&& texture.0.class == ObjectClass::Texture(TextureKind::CubeTexture) ==> e
                    == AvmError::CubeTextureSurfaceSelector
                &&& texture.0.class == ObjectClass::Texture(TextureKind::RectangleTexture) ==> e
                    == AvmError::RectangleTextureSurfaceSelector
                &&& (texture.0.class == ObjectClass::Texture(TextureKind::Texture) || texture.0.class
                    == ObjectClass::Texture(TextureKind::VideoTexture)) ==> e
                    == AvmError::TextureSurfaceSelector
            },
        },
{
    proof {
        lemma_two_stubs(
            anti_alias != 0,
            Stub::RenderToTextureAntiAlias,
            color_output_index != 0,
            Stub::RenderToTextureColorOutputIndex,
        );
        assert(render_to_texture_stubs(anti_alias, color_output_index) == two_stubs(
            anti_alias != 0,
            Stub::RenderToTextureAntiAlias,
            color_output_index != 0,
            Stub::RenderToTextureColorOutputIndex,
        ));
    }
    let kind = match texture.0.class {
        ObjectClass::Texture(k) => k,
        _ => TextureKind::Texture,
    };
    match kind {
        TextureKind::CubeTexture => {
            if surface_selector > 5 {
                return Err(AvmError::CubeTextureSurfaceSelector);
            }
        },
        TextureKind::RectangleTexture => {
            if surface_selector != 0 {
                return Err(AvmError::RectangleTextureSurfaceSelector);
            }
        },
        _ => {
            if surface_selector != 0 {
                return Err(AvmError::TextureSurfaceSelector);
            }
        },
    }
    let mut stubs: Vec<Stub> = Vec::new();
    if anti_alias != 0 {
        stubs.push(Stub::RenderToTextureAntiAlias);
    }
    if color_output_index != 0 {
        stubs.push(Stub::RenderToTextureColorOutputIndex);
    }
    proof {
        assert(stubs@ =~= render_to_texture_stubs(anti_alias, color_output_index));
    }
    Ok(
        (
            Command::SetRenderToTexture {
                texture,
                enable_depth_and_stencil,
                anti_alias,
                surface_selector,
            },
            stubs,
        ),
    )
}

/// One of the four anisotropic filters.
pub open spec fn is_anisotropic(filter: TextureFilter) -> bool {
    filter == TextureFilter::Anisotropic2X || filter == TextureFilter::Anisotropic4X || filter
        == TextureFilter::Anisotropic8X || filter == TextureFilter::Anisotropic16X
}

/// The stubs reported for `setSamplerStateAt`, in order.
pub open spec fn sampler_state_stubs(filter: TextureFilter, mip_filter: MipFilter) -> Seq<Stub> {
    (if is_anisotropic(filter) {
        seq![Stub::AnisotropicFilter]
    } else {
        Seq::empty()
    }) + (if mip_filter != MipFilter::MipNone {
        seq![Stub::MipFilter]
    } else {
        Seq::empty()
    })
}

/// `setSamplerStateAt`: the command (the sampler index taken as unsigned),
/// with stubs for anisotropic filtering and for mip filtering, which is not
/// passed on.
pub fn set_sampler_state_at(
    sampler: i32,
    wrap: WrapMode,
    filter: TextureFilter,
    mip_filter: MipFilter,
) -> (r: (Command, Vec<Stub>))
    ensures
        r.0 == (Command::SetSamplerStateAt { sampler: sampler as u32, wrap, filter }),
        r.1@ == sampler_state_stubs(filter, mip_filter),
        r.1@.contains(Stub::AnisotropicFilter) <==> (filter == TextureFilter::Anisotropic2X || filter
            == TextureFilter::Anisotropic4X || filter == TextureFilter::Anisotropic8X || filter
            == TextureFilter::Anisotropic16X),
        r.1@.contains(Stub::MipFilter) <==> mip_filter != MipFilter::MipNone,
        r.1@.len() <= 2,
{
    proof {
        lemma_two_stubs(
            is_anisotropic(filter),
            Stub::AnisotropicFilter,
            mip_filter != MipFilter::MipNone,
            Stub::MipFilter,
        );
        assert(sampler_state_stubs(filter, mip_filter) == two_stubs(
            is_anisotropic(filter),
            Stub::AnisotropicFilter,
            mip_filter != MipFilter::MipNone,
            Stub::MipFilter,
        ));
    }
    let mut stubs: Vec<Stub> = Vec::new();
    let anisotropic = match filter {
        TextureFilter::Anisotropic2X | TextureFilter::Anisotropic4X
        | TextureFilter::Anisotropic8X | TextureFilter::Anisotropic16X => true,
        _ => false,
    };
    if anisotropic {
        stubs.push(Stub::AnisotropicFilter);
    }
    let mipmapped = match mip_filter {
        MipFilter::MipNone => false,
        _ => true,
    };
    if mipmapped {
        stubs.push(Stub::MipFilter);
    }
    proof {
        assert(stubs@ =~= sampler_state_stubs(filter, mip_filter));
    }
    (Command::SetSamplerStateAt { sampler: sampler as u32, wrap, filter }, stubs)
}

/// The stub reported when a texture of this format is created.
pub open spec fn spec_texture_stub(format: TextureFormat) -> Option<Stub> {
    match format {
        TextureFormat::BgrPacked => Some(Stub::BgrPackedTexture),
        TextureFormat::Compressed => Some(Stub::CompressedTexture),
        _ => None,
    }
}

/// The stub reported when a texture of this format is created.
pub fn check_texture_stub(format: TextureFormat) -> (r: Option<Stub>)
    ensures
        r == spec_texture_stub(format),
        (r == Some(Stub::BgrPackedTexture)) <==> format == TextureFormat::BgrPacked,
        (r == Some(Stub::CompressedTexture)) <==> format == TextureFormat::Compressed,
        r is None <==> (format != TextureFormat::BgrPacked && format != TextureFormat::Compressed),
{
    match format {
        TextureFormat::BgrPacked => Some(Stub::BgrPackedTexture),
        TextureFormat::Compressed => Some(Stub::CompressedTexture),
        _ => None,
    }
}

/// `createTexture`: the request (sizes and streaming levels taken as
/// unsigned) and the stub for the format.
pub fn create_texture(
    width: i32,
    height: i32,
    format: TextureFormat,
    optimize_for_render_to_texture: bool,
    streaming_levels: i32,
) -> (r: (TextureRequest, Option<Stub>))
    ensures
        r.0 == (TextureRequest::Flat {
            class: FlatTextureClass::Texture,
            width: width as u32,
            height: height as u32,
            format,
            optimize_for_render_to_texture,
            streaming_levels: streaming_levels as u32,
        }),
        r.1 == spec_texture_stub(format),
{
    (
        TextureRequest::Flat {
            class: FlatTextureClass::Texture,
            width: width as u32,
            height: height as u32,
            format,
            optimize_for_render_to_texture,
            streaming_levels: streaming_levels as u32,
        },
        check_texture_stub(format),
    )
}

/// `createRectangleTexture`: the request (sizes taken as unsigned, no
/// streaming levels) and the stub for the format.
pub fn create_rectangle_texture(
    width: i32,
    height: i32,
    format: TextureFormat,
    optimize_for_render_to_texture: bool,
) -> (r: (TextureRequest, Option<Stub>))
    ensures
        r.0 == (TextureRequest::Flat {
            class: FlatTextureClass::RectangleTexture,
            width: width as u32,
            height: height as u32,
            format,
            optimize_for_render_to_texture,
            streaming_levels: 0,
        }),
        r.1 == spec_texture_stub(format),
{
    (
        TextureRequest::Flat {
            class: FlatTextureClass::RectangleTexture,
            width: width as u32,
            height: height as u32,
            format,
            optimize_for_render_to_texture,
            streaming_levels: 0,
        },
        check_texture_stub(format),
    )
}

/// `createCubeTexture`: the request (size and streaming levels taken as
/// unsigned) and the stub for the format.
pub fn create_cube_texture(
    size: i32,
    format: TextureFormat,
    optimize_for_render_to_texture: bool,
    streaming_levels: i32,
) -> (r: (TextureRequest, Option<Stub>))
    ensures
        r.0 == (TextureRequest::Cube {
            size: size as u32,
            format,
            optimize_for_render_to_texture,
            streaming_levels: streaming_levels as u32,
        }),
        r.1 == spec_texture_stub(format),
{
    (
        TextureRequest::Cube {
            size: size as u32,
            format,
            optimize_for_render_to_texture,
            streaming_levels: streaming_levels as u32,
        },
        check_texture_stub(format),
    )
}

} // verus!
