use ruffle_native::context3d::checks::{
    byte_array_constants, configure_back_buffer, create_cube_texture, create_index_buffer,
    create_rectangle_texture, create_texture, create_vertex_buffer, set_render_to_texture,
    set_sampler_state_at, vector_constants, BackBufferRequest,
};
use ruffle_native::context3d::command::{
    BufferUsage, Command, FlatTextureClass, IndexBufferRequest, Stub, TextureRequest, TwipsRect,
    VertexBufferRequest,
};
use ruffle_native::context3d::enums::{
    CompareMode, FromWStr, MipFilter, Profile, ProgramType, StencilAction, TextureFilter,
    TextureFormat, TriangleFace, VertexBufferFormat, WrapMode,
};
use ruffle_native::context3d::enums::BlendFactor;
use ruffle_native::context3d::methods::{
    draw_triangles, get_profile, set_blend_factors, set_color_mask, set_culling, set_depth_test,
    set_program, set_render_to_back_buffer, set_scissor_rectangle, set_stencil_actions,
    set_stencil_reference_value,
    set_texture_at, set_vertex_buffer_at, vertex_buffer_binding,
};
use ruffle_native::context3d::object::Context3DObject;
use ruffle_native::error::AvmError;
use ruffle_native::parameters::{ArgStep, Coercion};
use ruffle_native::value::{
    IndexBuffer3DRef, ObjectClass, ObjectRef, Program3DRef, TextureKind, TextureRef, Value,
    VertexBuffer3DRef,
};

fn texture(kind: TextureKind) -> TextureRef {
    TextureRef(ObjectRef { id: 1, class: ObjectClass::Texture(kind) })
}

fn vbuf() -> VertexBuffer3DRef {
    VertexBuffer3DRef(ObjectRef { id: 2, class: ObjectClass::VertexBuffer3D })
}

fn ibuf() -> IndexBuffer3DRef {
    IndexBuffer3DRef(ObjectRef { id: 3, class: ObjectClass::IndexBuffer3D })
}

fn back_buffer(width: u32, height: u32) -> BackBufferRequest {
    BackBufferRequest {
        width,
        height,
        anti_alias: 0,
        enable_depth_and_stencil: true,
        wants_best_resolution: false,
        wants_best_resolution_on_browser_zoom: false,
    }
}

#[test]
fn index_buffer_sizes() {
    assert!(matches!(create_index_buffer(0), Err(AvmError::ZeroSizedBuffer)));
    assert_eq!(
        create_index_buffer(6).unwrap(),
        IndexBufferRequest { usage: BufferUsage::StaticDraw, num_indices: 6 }
    );
}

#[test]
fn vertex_buffer_sizes() {
    assert!(matches!(create_vertex_buffer(4, 65), Err(AvmError::BufferTooBig)));
    assert!(matches!(create_vertex_buffer(4, 0), Err(AvmError::ZeroSizedBuffer)));
    assert_eq!(
        create_vertex_buffer(4, 64).unwrap(),
        VertexBufferRequest { usage: BufferUsage::DynamicDraw, num_vertices: 4, data_32_per_vertex: 64 }
    );
}

#[test]
fn back_buffer_old_movie_zero_call_is_ignored() {
    let req = BackBufferRequest {
        width: 0,
        height: 0,
        anti_alias: 0,
        enable_depth_and_stencil: false,
        wants_best_resolution: false,
        wants_best_resolution_on_browser_zoom: false,
    };
    assert!(matches!(configure_back_buffer(29, req), Ok(None)));
    assert!(matches!(configure_back_buffer(30, req), Err(AvmError::BackBufferWidthOutOfRange)));
}

#[test]
fn back_buffer_size_errors() {
    assert!(matches!(configure_back_buffer(29, back_buffer(31, 100)), Err(AvmError::BadInputSize)));
    assert!(matches!(configure_back_buffer(29, back_buffer(100, 16385)), Err(AvmError::BadInputSize)));
    assert!(matches!(configure_back_buffer(30, back_buffer(16385, 100)), Err(AvmError::BackBufferWidthOutOfRange)));
    assert!(matches!(configure_back_buffer(30, back_buffer(100, 31)), Err(AvmError::BackBufferHeightOutOfRange)));
    assert!(matches!(configure_back_buffer(30, back_buffer(0, 0)), Err(AvmError::BackBufferWidthOutOfRange)));
}

#[test]
fn back_buffer_accepted() {
    let mut req = back_buffer(32, 16384);
    req.wants_best_resolution = true;
    req.wants_best_resolution_on_browser_zoom = true;
    let (command, stubs) = configure_back_buffer(40, req).unwrap().unwrap();
    assert!(matches!(
        command,
        Command::ConfigureBackBuffer { width: 32, height: 16384, anti_alias: 0, depth_and_stencil: true, wants_best_resolution: true, wants_best_resolution_on_browser_zoom: true }
    ));
    assert_eq!(stubs, vec![Stub::WantsBestResolution, Stub::WantsBestResolutionOnBrowserZoom]);
}

#[test]
fn vector_constants_take() {
    let v: Vec<f32> = (0..10).map(|i| i as f32).collect();
    assert_eq!(vector_constants(&v, -1).unwrap(), v);
    assert_eq!(vector_constants(&v, 2).unwrap(), v[..8].to_vec());
    assert_eq!(vector_constants(&v, 0).unwrap(), Vec::<f32>::new());
    assert!(matches!(vector_constants(&v, 3), Err(AvmError::BadInputSize)));
    assert!(matches!(vector_constants(&v, -2), Err(AvmError::BadInputSize)));
}

#[test]
fn byte_array_constants_read_words() {
    let mut data = Vec::new();
    data.extend_from_slice(&[0xAA, 0xBB]);
    for f in [1.0f32, 2.0, 3.0, 4.0] {
        data.extend_from_slice(&f.to_be_bytes());
    }
    let words = byte_array_constants(&data, 2, 1, true).unwrap();
    let floats: Vec<f32> = words.iter().map(|w| f32::from_bits(*w)).collect();
    assert_eq!(floats, vec![1.0, 2.0, 3.0, 4.0]);

    let le: Vec<u8> = [5.0f32, 6.0, 7.0, 8.0].iter().flat_map(|f| f.to_le_bytes()).collect();
    let words = byte_array_constants(&le, 0, 1, false).unwrap();
    assert_eq!(words.iter().map(|w| f32::from_bits(*w)).collect::<Vec<_>>(), vec![5.0, 6.0, 7.0, 8.0]);
}

#[test]
fn law_byte_order_words() {
    let data = [1u8, 2, 3, 4];
    let big = byte_array_constants(&data, 0, 0, true).unwrap();
    assert!(big.is_empty());
    let data16 = [1u8, 2, 3, 4, 0, 0, 0, 0, 0, 0, 0, 0, 0, 0, 0, 0];
    assert_eq!(byte_array_constants(&data16, 0, 1, true).unwrap()[0], 0x0102_0304);
    assert_eq!(byte_array_constants(&data16, 0, 1, false).unwrap()[0], 0x0403_0201);
}

#[test]
fn byte_array_constants_errors() {
    let data = vec![0u8; 32];
    assert!(matches!(byte_array_constants(&data, 0, -1, true), Err(AvmError::BadInputSize)));
    assert!(matches!(byte_array_constants(&data, 32, 0, true), Err(AvmError::BadInputSize)));
    assert!(matches!(byte_array_constants(&data, 17, 1, true), Err(AvmError::BadInputSize)));
    assert!(matches!(byte_array_constants(&data, 0, 3, true), Err(AvmError::BadInputSize)));
    assert!(matches!(byte_array_constants(&[], 0, 0, true), Err(AvmError::BadInputSize)));
    assert_eq!(byte_array_constants(&data, 16, 1, true).unwrap().len(), 4);
    assert_eq!(byte_array_constants(&data, 0, 2, true).unwrap().len(), 8);
}

#[test]
fn render_to_texture_surface_selectors() {
    assert!(set_render_to_texture(texture(TextureKind::CubeTexture), false, 0, 5, 0).is_ok());
    assert!(matches!(
        set_render_to_texture(texture(TextureKind::CubeTexture), false, 0, 6, 0),
        Err(AvmError::CubeTextureSurfaceSelector)
    ));
    assert!(matches!(
        set_render_to_texture(texture(TextureKind::RectangleTexture), false, 0, 1, 0),
        Err(AvmError::RectangleTextureSurfaceSelector)
    ));
    assert!(matches!(
        set_render_to_texture(texture(TextureKind::Texture), false, 0, 1, 0),
        Err(AvmError::TextureSurfaceSelector)
    ));
    assert!(matches!(
        set_render_to_texture(texture(TextureKind::VideoTexture), false, 0, 2, 0),
        Err(AvmError::TextureSurfaceSelector)
    ));
    let (command, stubs) = set_render_to_texture(texture(TextureKind::Texture), true, 4, 0, 1).unwrap();
    assert!(matches!(
        command,
        Command::SetRenderToTexture { enable_depth_and_stencil: true, anti_alias: 4, surface_selector: 0, .. }
    ));
    assert_eq!(stubs, vec![Stub::RenderToTextureAntiAlias, Stub::RenderToTextureColorOutputIndex]);
}

#[test]
fn sampler_state_stubs() {
    let (command, stubs) = set_sampler_state_at(-1, WrapMode::Repeat, TextureFilter::Anisotropic8X, MipFilter::MipLinear);
    assert!(matches!(
        command,
        Command::SetSamplerStateAt { sampler: u32::MAX, wrap: WrapMode::Repeat, filter: TextureFilter::Anisotropic8X }
    ));
    assert_eq!(stubs, vec![Stub::AnisotropicFilter, Stub::MipFilter]);
    let (_, stubs) = set_sampler_state_at(0, WrapMode::Clamp, TextureFilter::Linear, MipFilter::MipNone);
    assert!(stubs.is_empty());
}

#[test]
fn texture_requests() {
    let (req, stub) = create_texture(-1, 64, TextureFormat::BgrPacked, true, 2);
    assert_eq!(
        req,
        TextureRequest::Flat {
            class: FlatTextureClass::Texture,
            width: u32::MAX,
            height: 64,
            format: TextureFormat::BgrPacked,
            optimize_for_render_to_texture: true,
            streaming_levels: 2,
        }
    );
    assert_eq!(stub, Some(Stub::BgrPackedTexture));
    let (req, stub) = create_rectangle_texture(8, 4, TextureFormat::Bgra, false);
    assert!(matches!(req, TextureRequest::Flat { class: FlatTextureClass::RectangleTexture, width: 8, height: 4, streaming_levels: 0, .. }));
    assert_eq!(stub, None);
    let (req, stub) = create_cube_texture(16, TextureFormat::Compressed, false, 0);
    assert!(matches!(req, TextureRequest::Cube { size: 16, format: TextureFormat::Compressed, .. }));
    assert_eq!(stub, Some(Stub::CompressedTexture));
}

#[test]
fn vertex_buffer_format_only_checked_with_buffer() {
    assert!(matches!(vertex_buffer_binding(None, Value::String("nonsense".into())), ArgStep::Ready(None)));
    assert!(matches!(
        vertex_buffer_binding(Some(vbuf()), Value::String("float3".into())),
        ArgStep::Ready(Some((_, VertexBufferFormat::Float3)))
    ));
    match vertex_buffer_binding(Some(vbuf()), Value::String("float5".into())) {
        ArgStep::Failed(AvmError::InvalidEnumValue(n)) => assert_eq!(n, "vertexStreamFormat"),
        other => panic!("unexpected {:?}", other),
    }
    assert!(matches!(
        vertex_buffer_binding(Some(vbuf()), Value::Null),
        ArgStep::Coerce(Coercion::ToString, Value::Null)
    ));
    let command = set_vertex_buffer_at(2, Some((vbuf(), VertexBufferFormat::Bytes4)), 3);
    assert!(matches!(
        command,
        Command::SetVertexBufferAt { index: 2, buffer: Some((_, VertexBufferFormat::Bytes4)), buffer_offset: 3 }
    ));
}

#[test]
fn draw_triangles_counts() {
    assert!(matches!(
        draw_triangles(ibuf(), 10, 0, u32::MAX),
        Command::DrawTriangles { first_index: 0, num_triangles: 3, .. }
    ));
    assert!(matches!(
        draw_triangles(ibuf(), 10, 3, 2),
        Command::DrawTriangles { first_index: 3, num_triangles: 2, .. }
    ));
    assert!(matches!(
        draw_triangles(ibuf(), 10, 0, u32::MAX - 1),
        Command::DrawTriangles { num_triangles: -2, .. }
    ));
}

#[test]
fn texture_at_cube_flag() {
    assert!(matches!(
        set_texture_at(1, Some(texture(TextureKind::CubeTexture))),
        Command::SetTextureAt { sampler: 1, texture: Some(_), cube: true }
    ));
    assert!(matches!(
        set_texture_at(0, Some(texture(TextureKind::Texture))),
        Command::SetTextureAt { cube: false, .. }
    ));
    assert!(matches!(set_texture_at(-2, None), Command::SetTextureAt { sampler: 4294967294, texture: None, cube: false }));
}

#[test]
fn profiles() {
    assert_eq!(get_profile(Profile::Baseline), "baseline");
    assert_eq!(get_profile(Profile::BaselineConstrained), "baselineConstrained");
    assert_eq!(get_profile(Profile::BaselineExtended), "baselineExtended");
    assert_eq!(get_profile(Profile::Standard), "standard");
    assert_eq!(get_profile(Profile::StandardConstrained), "standardConstrained");
    assert_eq!(get_profile(Profile::StandardExtended), "standardExtended");
}

#[test]
fn enum_strings() {
    assert_eq!(ProgramType::from_wstr("vertex"), Some(ProgramType::Vertex));
    assert_eq!(ProgramType::from_wstr("fragment"), Some(ProgramType::Fragment));
    assert_eq!(ProgramType::from_wstr("Vertex"), None);
    assert_eq!(CompareMode::from_wstr("greaterEqual"), Some(CompareMode::GreaterEqual));
    assert_eq!(StencilAction::from_wstr("set"), Some(StencilAction::SetToReference));
    assert_eq!(TriangleFace::from_wstr("frontAndBack"), Some(TriangleFace::FrontAndBack));
    assert_eq!(WrapMode::from_wstr("clamp_u_repeat_v"), Some(WrapMode::ClampURepeatV));
    assert_eq!(TextureFormat::from_wstr("bgraPacked4444"), Some(TextureFormat::BgraPacked));
    assert_eq!(TextureFormat::from_wstr("bgrPacked565"), Some(TextureFormat::BgrPacked));
    assert_eq!(TextureFilter::from_wstr("anisotropic16x"), Some(TextureFilter::Anisotropic16X));
    assert_eq!(MipFilter::from_wstr("mipnone"), Some(MipFilter::MipNone));
    assert_eq!(VertexBufferFormat::from_wstr(""), None);
}

#[test]
fn uploads_and_copies() {
    let object = Context3DObject::from_context((), ObjectRef { id: 1, class: ObjectClass::Plain });
    let data = [1u8, 2, 3];
    match object.upload_vertex_buffer_data(vbuf(), &data, 5, 2) {
        Command::UploadToVertexBuffer { data: d, start_vertex: 5, data32_per_vertex: 2, .. } => assert_eq!(d, data.to_vec()),
        other => panic!("unexpected {:?}", other),
    }
    match object.upload_index_buffer_data(ibuf(), &data, 7) {
        Command::UploadToIndexBuffer { data: d, start_offset: 7, .. } => assert_eq!(d, data.to_vec()),
        other => panic!("unexpected {:?}", other),
    }
    assert!(matches!(
        object.copy_bitmapdata_to_texture(vec![0; 16], 2, 2, texture(TextureKind::Texture), 4, 4, 1),
        Command::CopyBitmapToTexture { source_width: 2, source_height: 2, layer: 1, .. }
    ));
    assert!(matches!(
        object.copy_pixels_to_texture(vec![0; 64], texture(TextureKind::CubeTexture), 4, 4, 3),
        Command::CopyBitmapToTexture { source_width: 4, source_height: 4, layer: 3, .. }
    ));
    let program = Program3DRef(ObjectRef { id: 6, class: ObjectClass::Program3D });
    match object.upload_shaders(program, vec![1], vec![2, 3]) {
        Command::UploadShaders { program: p, vertex_shader_agal, fragment_shader_agal } => {
            assert_eq!(p, program);
            assert_eq!(vertex_shader_agal, vec![1]);
            assert_eq!(fragment_shader_agal, vec![2, 3]);
        }
        other => panic!("unexpected {:?}", other),
    }
}

#[test]
fn law_context_is_restored_after_use() {
    let stage = ObjectRef { id: 77, class: ObjectClass::Plain };
    let mut object = Context3DObject::from_context(10u32, stage);
    let seen = object.with_context_3d(|c: &mut u32| {
        let doubled = *c * 2;
        *c += 1;
        doubled
    });
    assert_eq!(seen, 20);
    let seen = object.with_context_3d(|c: &mut u32| *c);
    assert_eq!(seen, 11);
    assert_eq!(object.stage3d(), stage);
}

#[test]
fn state_commands() {
    assert!(matches!(set_culling(TriangleFace::Back), Command::SetCulling { face: TriangleFace::Back }));
    assert!(matches!(
        set_blend_factors(BlendFactor::SourceAlpha, BlendFactor::OneMinusSourceAlpha),
        Command::SetBlendFactors { source_factor: BlendFactor::SourceAlpha, destination_factor: BlendFactor::OneMinusSourceAlpha }
    ));
    assert!(matches!(
        set_color_mask(true, false, true, false),
        Command::SetColorMask { red: true, green: false, blue: true, alpha: false }
    ));
    assert!(matches!(
        set_depth_test(false, CompareMode::Less),
        Command::SetDepthTest { depth_mask: false, pass_compare_mode: CompareMode::Less }
    ));
    assert!(matches!(
        set_stencil_actions(TriangleFace::Front, CompareMode::Equal, StencilAction::Keep, StencilAction::Invert, StencilAction::IncrementWrap),
        Command::SetStencilActions {
            triangle_face: TriangleFace::Front,
            compare_mode: CompareMode::Equal,
            on_both_pass: StencilAction::Keep,
            on_depth_fail: StencilAction::Invert,
            on_depth_pass_stencil_fail: StencilAction::IncrementWrap,
        }
    ));
    assert!(matches!(
        set_stencil_reference_value(300, 0xff, 0x1ff),
        Command::SetStencilReferenceValue { reference_value: 300, read_mask: 0xff, write_mask: 0x1ff }
    ));
    assert!(matches!(set_render_to_back_buffer(), Command::SetRenderToBackBuffer));
    assert!(matches!(set_program(None), Command::SetShaders { program: None }));
}

#[test]
fn stub_descriptions() {
    assert_eq!(Stub::WantsBestResolution.method(), "configureBackBuffer");
    assert_eq!(Stub::WantsBestResolution.detail().as_deref(), Some("wantsBestResolution"));
    assert_eq!(Stub::AnisotropicFilter.detail().as_deref(), Some("filter == 'anisotropic'"));
    assert_eq!(Stub::MipFilter.method(), "setSamplerStateAt");
    assert_eq!(Stub::CompressedTexture.detail().as_deref(), Some("with Compressed"));
    assert_eq!(Stub::Dispose.method(), "dispose");
    assert_eq!(Stub::Dispose.detail(), None);
}

#[test]
fn scissor_rectangle_command() {
    let rect = TwipsRect { x_min: 20, y_min: 40, x_max: 220, y_max: 440 };
    assert!(matches!(set_scissor_rectangle(Some(rect)), Command::SetScissorRectangle { rect: Some(r) } if r == rect));
    assert!(matches!(set_scissor_rectangle(None), Command::SetScissorRectangle { rect: None }));
}
