//! The remaining native methods of `Context3D` and the object's helpers that
//! pass data to the backend: each gives the command it sends.

use vstd::prelude::*;
use crate::error::AvmError;
use crate::parameters::{ArgStep, Coercion, is_enum_error, invalid_enum_error};
use crate::value::{
    IndexBuffer3DRef, ObjectClass, Program3DRef, TextureKind, TextureRef, Value,
    VertexBuffer3DRef,
};
use super::command::{Command, TwipsRect};
use super::enums::{
    BlendFactor, CompareMode, FromWStr, Profile, StencilAction, TriangleFace, VertexBufferFormat,
    spec_profile_name,
};

verus! {

/// `getProfile`: the profile's string constant.
pub fn get_profile(profile: Profile) -> (r: String)
    ensures
        r@ == spec_profile_name(profile),
{
    match profile {
        Profile::Baseline => "baseline".to_owned(),
        Profile::BaselineConstrained => "baselineConstrained".to_owned(),
        Profile::BaselineExtended => "baselineExtended".to_owned(),
        Profile::Standard => "standard".to_owned(),
        Profile::StandardConstrained => "standardConstrained".to_owned(),
        Profile::StandardExtended => "standardExtended".to_owned(),
    }
}

/// The parameter name that a bad vertex stream format is reported under.
pub open spec fn vertex_stream_format_name() -> Seq<char> {
    "vertexStreamFormat"@
}

/// `setVertexBufferAt`, first step. The format is only looked at when a
/// buffer is given: it is converted to a string (anything but a string needs
/// a coercion first, after which this is called again with the string) and
/// parsed; a string that is not a format raises error #2008 for
/// `vertexStreamFormat`.
pub fn vertex_buffer_binding(buffer: Option<VertexBuffer3DRef>, format: Value) -> (r: ArgStep<
    Option<(VertexBuffer3DRef, VertexBufferFormat)>,
>)
    ensures
        match buffer {
            None => r matches ArgStep::Ready(None),
            Some(b) => match format {
                Value::String(s) => match VertexBufferFormat::spec_from_wstr(s@) {
                    Some(f) => r == ArgStep::Ready(Some((b, f))),
                    None => r matches ArgStep::Failed(e) && is_enum_error(
                        e,
                        vertex_stream_format_name(),
                    ),
                },
                _ => r == ArgStep::<Option<(VertexBuffer3DRef, VertexBufferFormat)>>::Coerce(
                    Coercion::ToString,
                    format,
                ),
            },
        },
{
    match buffer {
        None => ArgStep::Ready(None),
        Some(b) => match format {
            Value::String(s) => match VertexBufferFormat::from_wstr(s.as_str()) {
                Some(f) => ArgStep::Ready(Some((b, f))),
                None => ArgStep::Failed(invalid_enum_error("vertexStreamFormat")),
            },
            other => ArgStep::Coerce(Coercion::ToString, other),
        },
    }
}

/// `setVertexBufferAt`, once the binding is known: the command.
pub fn set_vertex_buffer_at(
    index: u32,
    binding: Option<(VertexBuffer3DRef, VertexBufferFormat)>,
    buffer_offset: u32,
) -> (r: Command)
    ensures
        r == (Command::SetVertexBufferAt { index, buffer: binding, buffer_offset }),
{
    Command::SetVertexBufferAt { index, buffer: binding, buffer_offset }
}

/// The number of triangles drawn: `num_triangles` read as signed, where -1
/// means all the whole triangles of the index buffer (its index count divided
/// by three, as a 32-bit signed count).
pub open spec fn triangles_to_draw(num_triangles: u32, index_count: usize) -> i32 {
    if num_triangles as i32 == -1 {
        (index_count / 3) as i32
    } else {
        num_triangles as i32
    }
}

proof fn lemma_minus_one_is_all_ones(x: u32)
    ensures
        (x as i32 == -1) <==> x == 0xffff_ffff,
        x <= 0x7fff_ffff ==> x as i32 == x,
        x > 0x7fff_ffff ==> x as i32 == x - 0x1_0000_0000,
{
    assert((x as i32 == -1) <==> x == 0xffff_ffff) by (bit_vector);
    assert(x <= 0x7fff_ffff ==> x as i32 == x) by (bit_vector);
    assert(x > 0x7fff_ffff ==> x as i32 == x - 0x1_0000_0000) by (bit_vector);
}

/// `numTriangles` of -1 draws every whole triangle of the index buffer: the
/// count `t` satisfies `3t <= index_count < 3t + 3`, so a buffer of `3k`
/// indices draws `k` triangles.
pub proof fn law_minus_one_draws_every_whole_triangle(index_count: usize)
    requires
        index_count / 3 <= 0x7fff_ffff,
    ensures
        3 * triangles_to_draw(0xffff_ffff, index_count) <= index_count < 3 * triangles_to_draw(
            0xffff_ffff,
            index_count,
        ) + 3,
        index_count % 3 == 0 ==> 3 * triangles_to_draw(0xffff_ffff, index_count) == index_count,
        triangles_to_draw(0xffff_ffff, index_count) == index_count / 3,
{
    lemma_minus_one_is_all_ones(0xffff_ffff);
    let q: int = index_count as int / 3;
    assert(0 <= q <= 0x7fff_ffff);
    assert((q as i32) as int == q);
}

/// Any other `numTriangles` is drawn as given, read as a signed 32-bit count.
pub proof fn law_other_counts_are_drawn_as_given(num_triangles: u32, index_count: usize)
    requires
        num_triangles != 0xffff_ffff,
    ensures
        num_triangles <= 0x7fff_ffff ==> triangles_to_draw(num_triangles, index_count) == num_triangles,
        num_triangles > 0x7fff_ffff ==> triangles_to_draw(num_triangles, index_count)
            == num_triangles - 0x1_0000_0000,
{
    lemma_minus_one_is_all_ones(num_triangles);
}

/// `drawTriangles`: the draw command for an index buffer holding
/// `index_count` indices.
pub fn draw_triangles(
    index_buffer: IndexBuffer3DRef,
    index_count: usize,
    first_index: u32,
    num_triangles: u32,
) -> (r: Command)
    ensures
        r == (Command::DrawTriangles {
            index_buffer,
            first_index: first_index as usize,
            num_triangles: triangles_to_draw(num_triangles, index_count) as isize,
        }),
        match r {
            Command::DrawTriangles { index_buffer: b, first_index: f, num_triangles: n } => {
                &&& b == index_buffer
                &&& f == first_index
                &&& (num_triangles == 0xffff_ffff && index_count / 3 <= 0x7fff_ffff) ==> n
                    == index_count / 3
                &&& (num_triangles == 0xffff_ffff && index_count / 3 <= 0x7fff_ffff) ==> 3 * n
                    <= index_count < 3 * n + 3
                &&& num_triangles <= 0x7fff_ffff ==> n == num_triangles
                &&& (0x7fff_ffff < num_triangles < 0xffff_ffff) ==> n == num_triangles
                    - 0x1_0000_0000
            },
            _ => false,
        },
{
    proof {
        lemma_minus_one_is_all_ones(num_triangles);
        if index_count / 3 <= 0x7fff_ffff {
            law_minus_one_draws_every_whole_triangle(index_count);
        }
        if num_triangles != 0xffff_ffff {
            law_other_counts_are_drawn_as_given(num_triangles, index_count);
        }
    }
    let mut count: i32 = num_triangles as i32;
    if count == -1 {
        count = (index_count / 3) as i32;
    }
    Command::DrawTriangles {
        index_buffer,
        first_index: first_index as usize,
        num_triangles: count as isize,
    }
}

/// The texture is a cube texture.
pub open spec fn is_cube(t: TextureRef) -> bool {
    t.0.class == ObjectClass::Texture(TextureKind::CubeTexture)
}

/// Only a cube texture is bound as a cube map; a 2D, rectangle or video
/// texture is not.
pub proof fn law_only_cube_textures_bind_as_cube()
    ensures
        forall|t: TextureRef| #[trigger] is_cube(t) <==> t.0.class == ObjectClass::Texture(TextureKind::CubeTexture),
        forall|t: TextureRef|
            t.0.class == ObjectClass::Texture(TextureKind::Texture) || t.0.class == ObjectClass::Texture(
                TextureKind::RectangleTexture,
            ) || t.0.class == ObjectClass::Texture(TextureKind::VideoTexture) ==> !#[trigger] is_cube(t),
{
}

/// `setTextureAt`: the command (the sampler index taken as unsigned), with
/// whether the texture is a cube texture.
pub fn set_texture_at(sampler: i32, texture: Option<TextureRef>) -> (r: Command)
    ensures
        r == (Command::SetTextureAt {
            sampler: sampler as u32,
            texture,
            cube: match texture {
                Some(t) => is_cube(t),
                None => false,
            },
        }),
        match r {
            Command::SetTextureAt { sampler: s, texture: t, cube } => {
                &&& s == sampler as u32
                &&& t == texture
                &&& cube <==> (texture matches Some(x) && x.0.class == ObjectClass::Texture(
                    TextureKind::CubeTexture,
                ))
                &&& (texture matches Some(x) && (x.0.class == ObjectClass::Texture(TextureKind::Texture)
                    || x.0.class == ObjectClass::Texture(TextureKind::RectangleTexture)
                    || x.0.class == ObjectClass::Texture(TextureKind::VideoTexture))) ==> !cube
            },
            _ => false,
        },
{
    proof {
        law_only_cube_textures_bind_as_cube();
    }
    let cube = match texture {
        Some(t) => match t.0.class {
            ObjectClass::Texture(TextureKind::CubeTexture) => true,
            _ => false,
        },
        None => false,
    };
    Command::SetTextureAt { sampler: sampler as u32, texture, cube }
}

/// `setProgram`: the shaders of the program, or none.
pub fn set_program(program: Option<Program3DRef>) -> (r: Command)
    ensures
        r == (Command::SetShaders { program }),
{
    Command::SetShaders { program }
}

/// `setCulling`.
pub fn set_culling(face: TriangleFace) -> (r: Command)
    ensures
        r == (Command::SetCulling { face }),
{
    Command::SetCulling { face }
}

/// `setBlendFactors`.
pub fn set_blend_factors(source_factor: BlendFactor, destination_factor: BlendFactor) -> (r:
    Command)
    ensures
        r == (Command::SetBlendFactors { source_factor, destination_factor }),
{
    Command::SetBlendFactors { source_factor, destination_factor }
}

/// `setColorMask`.
pub fn set_color_mask(red: bool, green: bool, blue: bool, alpha: bool) -> (r: Command)
    ensures
        r == (Command::SetColorMask { red, green, blue, alpha }),
{
    Command::SetColorMask { red, green, blue, alpha }
}

/// `setDepthTest`.
pub fn set_depth_test(depth_mask: bool, pass_compare_mode: CompareMode) -> (r: Command)
    ensures
        r == (Command::SetDepthTest { depth_mask, pass_compare_mode }),
{
    Command::SetDepthTest { depth_mask, pass_compare_mode }
}

/// `setStencilActions`.
pub fn set_stencil_actions(
    triangle_face: TriangleFace,
    compare_mode: CompareMode,
    on_both_pass: StencilAction,
    on_depth_fail: StencilAction,
    on_depth_pass_stencil_fail: StencilAction,
) -> (r: Command)
    ensures
        r == (Command::SetStencilActions {
            triangle_face,
            compare_mode,
            on_both_pass,
            on_depth_fail,
            on_depth_pass_stencil_fail,
        }),
{
    Command::SetStencilActions {
        triangle_face,
        compare_mode,
        on_both_pass,
        on_depth_fail,
        on_depth_pass_stencil_fail,
    }
}

/// `setStencilReferenceValue`: the values are passed on unchanged.
pub fn set_stencil_reference_value(reference_value: u32, read_mask: u32, write_mask: u32) -> (r:
    Command)
    ensures
        r == (Command::SetStencilReferenceValue { reference_value, read_mask, write_mask }),
{
    Command::SetStencilReferenceValue { reference_value, read_mask, write_mask }
}

/// `setScissorRectangle`, once the rectangle's edges are known in twips:
/// the command; `None` turns scissoring off.
pub fn set_scissor_rectangle(rect: Option<TwipsRect>) -> (r: Command)
    ensures
        r == (Command::SetScissorRectangle { rect }),
{
    Command::SetScissorRectangle { rect }
}

/// `setRenderToBackBuffer`.
pub fn set_render_to_back_buffer() -> (r: Command)
    ensures
        r == Command::SetRenderToBackBuffer,
{
    Command::SetRenderToBackBuffer
}

} // verus!
