//! A model of the AVM2 values that native methods receive and return, and of
//! the ActionScript errors that argument checks raise.

use vstd::prelude::*;

verus! {

/// The kind of texture that a texture object was created as.
#[derive(Clone, Copy, PartialEq, Eq, Structural, Debug)]
pub enum TextureKind {
    /// `flash.display3D.textures.Texture`
    Texture,
    /// `flash.display3D.textures.RectangleTexture`
    RectangleTexture,
    /// `flash.display3D.textures.CubeTexture`
    CubeTexture,
    /// `flash.display3D.textures.VideoTexture`
    VideoTexture,
}

/// What an object is, as far as the native-method glue distinguishes objects.
#[derive(Clone, Copy, PartialEq, Eq, Structural, Debug)]
pub enum ObjectClass {
    /// Any object the glue does not look into.
    Plain,
    /// A function object.
    Function,
    /// A `Context3D`.
    Context3D,
    /// A `Program3D`.
    Program3D,
    /// An `IndexBuffer3D`.
    IndexBuffer3D,
    /// A `VertexBuffer3D`.
    VertexBuffer3D,
    /// A texture of the given kind.
    Texture(TextureKind),
}

/// A reference to a garbage-collected AVM2 object: its identity and its class.
#[derive(Clone, Copy, PartialEq, Eq, Structural, Debug)]
pub struct ObjectRef {
    pub id: u64,
    pub class: ObjectClass,
}

/// A `Context3D` object, as a typed native argument.
#[derive(Clone, Copy, PartialEq, Eq, Structural, Debug)]
pub struct Context3DRef(pub ObjectRef);

/// A `Program3D` object, as a typed native argument or return value.
#[derive(Clone, Copy, PartialEq, Eq, Structural, Debug)]
pub struct Program3DRef(pub ObjectRef);

/// An `IndexBuffer3D` object, as a typed native argument or return value.
#[derive(Clone, Copy, PartialEq, Eq, Structural, Debug)]
pub struct IndexBuffer3DRef(pub ObjectRef);

/// A `VertexBuffer3D` object, as a typed native argument or return value.
#[derive(Clone, Copy, PartialEq, Eq, Structural, Debug)]
pub struct VertexBuffer3DRef(pub ObjectRef);

/// A texture object of any kind, as a typed native argument or return value.
#[derive(Clone, Copy, PartialEq, Eq, Structural, Debug)]
pub struct TextureRef(pub ObjectRef);

/// An AVM2 value. A `Number` is held by its IEEE-754 bit pattern.
#[derive(Debug)]
pub enum Value {
    Undefined,
    Null,
    Bool(bool),
    Number(u64),
    Integer(i32),
    String(String),
    Object(ObjectRef),
}

/// The bit pattern of a Number with its sign bit cleared.
pub open spec fn number_magnitude(bits: u64) -> u64 {
    bits & 0x7fff_ffff_ffff_ffffu64
}

/// ECMAScript `ToBoolean` of a Number: false for `+0`, `-0` and `NaN`.
pub open spec fn number_is_truthy(bits: u64) -> bool {
    number_magnitude(bits) != 0 && number_magnitude(bits) <= 0x7ff0_0000_0000_0000u64
}

/// ECMAScript `ToBoolean` of a value.
pub open spec fn spec_coerce_to_boolean(v: Value) -> bool {
    match v {
        Value::Undefined => false,
        Value::Null => false,
        Value::Bool(b) => b,
        Value::Number(bits) => number_is_truthy(bits),
        Value::Integer(i) => i != 0,
        Value::String(s) => s@.len() != 0,
        Value::Object(_) => true,
    }
}

impl Value {
    /// A copy of this value.
    pub fn duplicate(&self) -> (r: Value)
        ensures
            r == *self,
    {
        match self {
            Value::Undefined => Value::Undefined,
            Value::Null => Value::Null,
            Value::Bool(b) => Value::Bool(*b),
            Value::Number(n) => Value::Number(*n),
            Value::Integer(i) => Value::Integer(*i),
            Value::String(s) => Value::String(s.clone()),
            Value::Object(o) => Value::Object(*o),
        }
    }

    /// ECMAScript `ToBoolean`, as `Value::coerce_to_boolean` computes it.
    pub fn coerce_to_boolean(&self) -> (r: bool)
        ensures
            r == spec_coerce_to_boolean(*self),
    {
        match self {
            Value::Undefined => false,
            Value::Null => false,
            Value::Bool(b) => *b,
            Value::Number(bits) => {
                let magnitude: u64 = *bits & 0x7fff_ffff_ffff_ffffu64;
                magnitude != 0 && magnitude <= 0x7ff0_0000_0000_0000u64
            },
            Value::Integer(i) => *i != 0,
            Value::String(s) => !s.as_str().is_empty(),
            Value::Object(_) => true,
        }
    }
}

} // verus!
