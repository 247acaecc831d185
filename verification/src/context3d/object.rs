//! The state of a `Context3D` object: the rendering context it owns, lent
//! out for the duration of each backend call, and the `Stage3D` it belongs to;
//! and the commands by which it passes data to the backend.

use vstd::prelude::*;
use crate::value::{IndexBuffer3DRef, ObjectRef, Program3DRef, TextureRef, VertexBuffer3DRef};
use super::command::Command;

verus! {

/// The data of a `Context3D` object, for a rendering context of type `C`.
pub struct Context3DData<C> {
    render_context: Option<C>,
    stage3d: ObjectRef,
}

/// A `Context3D` object holding a rendering context of type `C`.
pub struct Context3DObject<C>(Context3DData<C>);

impl<C> Context3DObject<C> {
    /// The object holds its rendering context (it is not lent out or missing).
    pub closed spec fn has_context(&self) -> bool {
        self.0.render_context is Some
    }

    /// The rendering context held.
    pub closed spec fn context(&self) -> C {
        self.0.render_context->0
    }

    /// The `Stage3D` the context belongs to.
    pub closed spec fn spec_stage3d(&self) -> ObjectRef {
        self.0.stage3d
    }

    /// A new `Context3D` holding `context`, for the given `Stage3D`.
    pub fn from_context(context: C, stage3d: ObjectRef) -> (r: Self)
        ensures
            r.has_context(),
            r.context() == context,
            r.spec_stage3d() == stage3d,
    {
        Context3DObject(Context3DData { render_context: Some(context), stage3d })
    }

    /// The `Stage3D` the context belongs to.
    pub fn stage3d(&self) -> (r: ObjectRef)
        ensures
            r == self.spec_stage3d(),
    {
        self.0.stage3d
    }

    /// Lends the rendering context to `f`, once; the object then holds that
    /// same context, in the state `f` left it in, for later calls.
    pub fn with_context_3d<R, F: FnOnce(&mut C) -> R>(&mut self, f: F) -> (r: R)
        requires
            old(self).has_context(),
            forall|m: &mut C| *m == old(self).context() ==> call_requires(f, (m,)),
        ensures
            final(self).has_context(),
            exists|m: &mut C|
                *m == old(self).context() && *final(m) == final(self).context() && call_ensures(
                    f,
                    (m,),
                    r,
                ),
            final(self).spec_stage3d() == old(self).spec_stage3d(),
    {
        let mut context = self.0.render_context.take().unwrap();
        let result = f(&mut context);
        self.0.render_context = Some(context);
        result
    }

    /// Uploads vertex data into a vertex buffer from `start_vertex` on.
    pub fn upload_vertex_buffer_data(
        &self,
        buffer: VertexBuffer3DRef,
        data: &[u8],
        start_vertex: usize,
        data32_per_vertex: u8,
    ) -> (r: Command)
        ensures
            r matches Command::UploadToVertexBuffer { buffer: b, data: d, start_vertex: s, data32_per_vertex: n }
                && b == buffer && d@ == data@ && s == start_vertex && n == data32_per_vertex,
    {
        Command::UploadToVertexBuffer {
            buffer,
            data: vstd::slice::slice_to_vec(data),
            start_vertex,
            data32_per_vertex,
        }
    }

    /// Uploads index data into an index buffer from `start_offset` on.
    pub fn upload_index_buffer_data(&self, buffer: IndexBuffer3DRef, data: &[u8], start_offset: usize) -> (r:
        Command)
        ensures
            r matches Command::UploadToIndexBuffer { buffer: b, data: d, start_offset: s } && b == buffer
                && d@ == data@ && s == start_offset,
    {
        Command::UploadToIndexBuffer { buffer, data: vstd::slice::slice_to_vec(data), start_offset }
    }

    /// Uploads the AGAL bytecode of a program's two shaders.
    pub fn upload_shaders(
        &self,
        program: Program3DRef,
        vertex_shader_agal: Vec<u8>,
        fragment_shader_agal: Vec<u8>,
    ) -> (r: Command)
        ensures
            r == (Command::UploadShaders { program, vertex_shader_agal, fragment_shader_agal }),
    {
        Command::UploadShaders { program, vertex_shader_agal, fragment_shader_agal }
    }

    /// Copies a bitmap's RGBA pixels into a texture layer. The source may not be
    /// wider or taller than the destination.
    pub fn copy_bitmapdata_to_texture(
        &self,
        source_pixels: Vec<u8>,
        source_width: u32,
        source_height: u32,
        dest: TextureRef,
        dest_width: u32,
        dest_height: u32,
        layer: u32,
    ) -> (r: Command)
        requires
            source_width <= dest_width,
            source_height <= dest_height,
        ensures
            r == (Command::CopyBitmapToTexture {
                source: source_pixels,
                source_width,
                source_height,
                dest,
                layer,
            }),
    {
        Command::CopyBitmapToTexture {
            source: source_pixels,
            source_width,
            source_height,
            dest,
            layer,
        }
    }

    /// Copies raw pixels, as large as the destination, into a texture layer.
    pub fn copy_pixels_to_texture(
        &self,
        source: Vec<u8>,
        dest: TextureRef,
        dest_width: u32,
        dest_height: u32,
        layer: u32,
    ) -> (r: Command)
        ensures
            r == (Command::CopyBitmapToTexture {
                source,
                source_width: dest_width,
                source_height: dest_height,
                dest,
                layer,
            }),
    {
        Command::CopyBitmapToTexture {
            source,
            source_width: dest_width,
            source_height: dest_height,
            dest,
            layer,
        }
    }
}

} // verus!
