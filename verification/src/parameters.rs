//! Reading the parameters of AS-defined, Rust-implemented methods, and the
//! conversions between AVM2 values and typed Rust values that the generated
//! native-method wrappers perform.

use vstd::prelude::*;
use crate::error::AvmError;
use crate::context3d::enums::{
    BlendFactor, CompareMode, FromWStr, MipFilter, ProgramType, StencilAction, TextureFilter,
    TextureFormat, TriangleFace, VertexBufferFormat, WrapMode,
};
use crate::value::{
    Context3DRef, IndexBuffer3DRef, ObjectClass, ObjectRef, Program3DRef, TextureRef, Value,
    VertexBuffer3DRef, spec_coerce_to_boolean,
};

verus! {

/// An error of the form "Parameter `name` must be non-null" (#2007).
pub open spec fn is_null_error(e: AvmError, name: Seq<char>) -> bool {
    e matches AvmError::NullArgument(n) && n@ == name
}

/// An error of the form "Parameter `name` must be one of the accepted values" (#2008).
pub open spec fn is_enum_error(e: AvmError, name: Seq<char>) -> bool {
    e matches AvmError::InvalidEnumValue(n) && n@ == name
}

/// Raises error #2007 for the parameter `name`.
pub fn null_argument_error(name: &str) -> (e: AvmError)
    ensures
        is_null_error(e, name@),
{
    AvmError::NullArgument(name.to_owned())
}

/// Raises error #2008 for the parameter `name`.
pub fn invalid_enum_error(name: &str) -> (e: AvmError)
    ensures
        is_enum_error(e, name@),
{
    AvmError::InvalidEnumValue(name.to_owned())
}

/// Extensions over the parameters passed into AS-defined, Rust-implemented
/// methods. The AS signature is expected to be correct, so a value of the
/// wrong type is a broken precondition, not an error.
pub trait ParametersExt {
    /// How many parameters there are.
    spec fn param_count(&self) -> nat;

    /// The parameter at `index`.
    spec fn param(&self, index: int) -> Value;

    /// Gets the value at the given index.
    fn get_value(&self, index: usize) -> (r: Value)
        requires
            index < self.param_count(),
        ensures
            r == self.param(index as int),
    ;

    /// Gets the value at the given index, if it exists.
    fn get_optional(&self, index: usize) -> (r: Option<Value>)
        ensures
            r == if index < self.param_count() {
                Some(self.param(index as int))
            } else {
                None
            },
    ;

    /// Gets the value at the given index as an Object; null gives `None`.
    fn try_get_object(&self, index: usize) -> (r: Option<ObjectRef>)
        requires
            index < self.param_count(),
            self.param(index as int) matches Value::Null || self.param(index as int) matches Value::Object(_),
        ensures
            match self.param(index as int) {
                Value::Object(o) => r == Some(o),
                _ => r is None,
            },
    {
        match self.get_value(index) {
            Value::Object(o) => Some(o),
            _ => None,
        }
    }

    /// Gets the value at the given index as an Object; null raises error
    /// #2007 for the parameter `name`.
    fn get_object(&self, index: usize, name: &str) -> (r: Result<ObjectRef, AvmError>)
        requires
            index < self.param_count(),
            self.param(index as int) matches Value::Null || self.param(index as int) matches Value::Object(_),
        ensures
            match self.param(index as int) {
                Value::Object(o) => r == Ok::<ObjectRef, AvmError>(o),
                _ => r matches Err(e) && is_null_error(e, name@),
            },
    {
        match self.try_get_object(index) {
            Some(o) => Ok(o),
            None => Err(null_argument_error(name)),
        }
    }

    /// Gets the value at the given index as a function object; null gives `None`.
    fn try_get_function(&self, index: usize) -> (r: Option<ObjectRef>)
        requires
            index < self.param_count(),
            self.param(index as int) matches Value::Null || (self.param(index as int) matches Value::Object(o)
                && o.class == ObjectClass::Function),
        ensures
            match self.param(index as int) {
                Value::Object(o) => r == Some(o),
                _ => r is None,
            },
    {
        match self.get_value(index) {
            Value::Object(o) => Some(o),
            _ => None,
        }
    }

    /// Gets the value at the given index as a function object; null raises
    /// error #2007 for the parameter `name`.
    fn get_function(&self, index: usize, name: &str) -> (r: Result<ObjectRef, AvmError>)
        requires
            index < self.param_count(),
            self.param(index as int) matches Value::Null || (self.param(index as int) matches Value::Object(o)
                && o.class == ObjectClass::Function),
        ensures
            match self.param(index as int) {
                Value::Object(o) => r == Ok::<ObjectRef, AvmError>(o),
                _ => r matches Err(e) && is_null_error(e, name@),
            },
    {
        match self.try_get_function(index) {
            Some(o) => Ok(o),
            None => Err(null_argument_error(name)),
        }
    }

    /// Gets the Boolean-typed value at the given index.
    fn get_bool(&self, index: usize) -> (r: bool)
        requires
            index < self.param_count(),
            self.param(index as int) matches Value::Bool(_),
        ensures
            self.param(index as int) == Value::Bool(r),
    {
        match self.get_value(index) {
            Value::Bool(b) => b,
            _ => false,
        }
    }

    /// Gets the String-typed value at the given index; null gives `None`.
    fn try_get_string(&self, index: usize) -> (r: Option<String>)
        requires
            index < self.param_count(),
            self.param(index as int) matches Value::Null || self.param(index as int) matches Value::String(_),
        ensures
            match self.param(index as int) {
                Value::String(s) => r == Some(s),
                _ => r is None,
            },
    {
        match self.get_value(index) {
            Value::String(s) => Some(s),
            _ => None,
        }
    }

    /// Like `try_get_string`, but gives `"null"` for null.
    fn get_string(&self, index: usize) -> (r: String)
        requires
            index < self.param_count(),
            self.param(index as int) matches Value::Null || self.param(index as int) matches Value::String(_),
        ensures
            match self.param(index as int) {
                Value::String(s) => r == s,
                _ => r@ == "null"@,
            },
    {
        match self.try_get_string(index) {
            Some(s) => s,
            None => "null".to_owned(),
        }
    }

    /// Like `try_get_string`, but raises error #2007 for the parameter `name`
    /// for null.
    fn get_string_non_null(&self, index: usize, name: &str) -> (r: Result<String, AvmError>)
        requires
            index < self.param_count(),
            self.param(index as int) matches Value::Null || self.param(index as int) matches Value::String(_),
        ensures
            match self.param(index as int) {
                Value::String(s) => r == Ok::<String, AvmError>(s),
                _ => r matches Err(e) && is_null_error(e, name@),
            },
    {
        match self.try_get_string(index) {
            Some(s) => Ok(s),
            None => Err(null_argument_error(name)),
        }
    }
}

impl ParametersExt for [Value] {
    open spec fn param_count(&self) -> nat {
        self@.len()
    }

    open spec fn param(&self, index: int) -> Value {
        self@[index]
    }

    fn get_value(&self, index: usize) -> (r: Value) {
        self[index].duplicate()
    }

    fn get_optional(&self, index: usize) -> (r: Option<Value>) {
        if index < self.len() {
            Some(self[index].duplicate())
        } else {
            None
        }
    }
}

/// A coercion that can run ActionScript (`valueOf`, `toString`) and so is
/// performed by the caller, which then repeats the extraction on its result.
#[derive(Clone, Copy, PartialEq, Eq, Structural, Debug)]
pub enum Coercion {
    /// `Value::coerce_to_i32`.
    ToInt32,
    /// `Value::coerce_to_u32`.
    ToUint32,
    /// `Value::coerce_to_string`.
    ToString,
}

/// The outcome of extracting a typed argument from a value.
#[derive(Debug)]
pub enum ArgStep<T> {
    /// The argument.
    Ready(T),
    /// The argument is refused with this error.
    Failed(AvmError),
    /// The value must first be coerced; extraction is repeated on the coerced value.
    Coerce(Coercion, Value),
}

/// Extracts a typed Rust value from an AVM2 value, performing AS3 coercion.
pub trait NativeArg: Sized {
    /// The values that the AS signature lets reach this type.
    spec fn accepts(value: Value) -> bool;

    /// `r` is the outcome of extracting the parameter `name` from `value`.
    spec fn is_arg_step(value: Value, name: Seq<char>, r: ArgStep<Self>) -> bool;

    /// Extracts the parameter `name` from `value`.
    fn from_native_arg(value: Value, name: &str) -> (r: ArgStep<Self>)
        requires
            Self::accepts(value),
        ensures
            Self::is_arg_step(value, name@, r),
    ;
}

/// Converts a Rust return value back into an AVM2 value.
pub trait NativeReturn: Sized {
    /// The value (or the error) that is returned to ActionScript.
    spec fn spec_into_return_value(self) -> Result<Value, AvmError>;

    /// Converts `self` into the value returned to ActionScript.
    fn into_return_value(self) -> (r: Result<Value, AvmError>)
        ensures
            r == self.spec_into_return_value(),
    ;
}

impl NativeArg for Value {
    open spec fn accepts(value: Value) -> bool {
        true
    }

    open spec fn is_arg_step(value: Value, name: Seq<char>, r: ArgStep<Self>) -> bool {
        r == ArgStep::Ready(value)
    }

    fn from_native_arg(value: Value, name: &str) -> (r: ArgStep<Self>) {
        ArgStep::Ready(value)
    }
}

impl NativeArg for i32 {
    open spec fn accepts(value: Value) -> bool {
        true
    }

    /// ECMAScript `ToInt32`: an int is itself, a Boolean is 0 or 1, null and
    /// undefined are 0; a Number, a string or an object needs the coercion.
    open spec fn is_arg_step(value: Value, name: Seq<char>, r: ArgStep<Self>) -> bool {
        match value {
            Value::Integer(i) => r == ArgStep::Ready(i),
            Value::Bool(b) => r == ArgStep::Ready(if b { 1i32 } else { 0i32 }),
            Value::Null => r == ArgStep::Ready(0i32),
            Value::Undefined => r == ArgStep::Ready(0i32),
            _ => r == ArgStep::<i32>::Coerce(Coercion::ToInt32, value),
        }
    }

    fn from_native_arg(value: Value, name: &str) -> (r: ArgStep<Self>) {
        match value {
            Value::Integer(i) => ArgStep::Ready(i),
            Value::Bool(b) => ArgStep::Ready(if b { 1i32 } else { 0i32 }),
            Value::Null => ArgStep::Ready(0i32),
            Value::Undefined => ArgStep::Ready(0i32),
            other => ArgStep::Coerce(Coercion::ToInt32, other),
        }
    }
}

impl NativeArg for u32 {
    open spec fn accepts(value: Value) -> bool {
        true
    }

    /// ECMAScript `ToUint32`: an int is its 32 bits read as unsigned, a
    /// Boolean is 0 or 1, null and undefined are 0; a Number, a string or an
    /// object needs the coercion.
    open spec fn is_arg_step(value: Value, name: Seq<char>, r: ArgStep<Self>) -> bool {
        match value {
            Value::Integer(i) => r == ArgStep::Ready(i as u32),
            Value::Bool(b) => r == ArgStep::Ready(if b { 1u32 } else { 0u32 }),
            Value::Null => r == ArgStep::Ready(0u32),
            Value::Undefined => r == ArgStep::Ready(0u32),
            _ => r == ArgStep::<u32>::Coerce(Coercion::ToUint32, value),
        }
    }

    fn from_native_arg(value: Value, name: &str) -> (r: ArgStep<Self>) {
        match value {
            Value::Integer(i) => ArgStep::Ready(i as u32),
            Value::Bool(b) => ArgStep::Ready(if b { 1u32 } else { 0u32 }),
            Value::Null => ArgStep::Ready(0u32),
            Value::Undefined => ArgStep::Ready(0u32),
            other => ArgStep::Coerce(Coercion::ToUint32, other),
        }
    }
}

impl NativeArg for bool {
    open spec fn accepts(value: Value) -> bool {
        true
    }

    open spec fn is_arg_step(value: Value, name: Seq<char>, r: ArgStep<Self>) -> bool {
        r == ArgStep::Ready(spec_coerce_to_boolean(value))
    }

    fn from_native_arg(value: Value, name: &str) -> (r: ArgStep<Self>) {
        ArgStep::Ready(value.coerce_to_boolean())
    }
}

/// Extraction of a string argument: null is refused, a string is taken as
/// it is, anything else is coerced to a string.
pub open spec fn is_string_step(value: Value, name: Seq<char>, r: ArgStep<String>) -> bool {
    match value {
        Value::Null => r matches ArgStep::Failed(e) && is_null_error(e, name),
        Value::String(s) => r == ArgStep::Ready(s),
        _ => r == ArgStep::<String>::Coerce(Coercion::ToString, value),
    }
}

impl NativeArg for String {
    open spec fn accepts(value: Value) -> bool {
        true
    }

    open spec fn is_arg_step(value: Value, name: Seq<char>, r: ArgStep<Self>) -> bool {
        is_string_step(value, name, r)
    }

    fn from_native_arg(value: Value, name: &str) -> (r: ArgStep<Self>) {
        match value {
            Value::Null => ArgStep::Failed(null_argument_error(name)),
            Value::String(s) => ArgStep::Ready(s),
            other => ArgStep::Coerce(Coercion::ToString, other),
        }
    }
}

impl NativeArg for ObjectRef {
    open spec fn accepts(value: Value) -> bool {
        true
    }

    open spec fn is_arg_step(value: Value, name: Seq<char>, r: ArgStep<Self>) -> bool {
        match value {
            Value::Object(o) => r == ArgStep::Ready(o),
            _ => r matches ArgStep::Failed(e) && is_null_error(e, name),
        }
    }

    fn from_native_arg(value: Value, name: &str) -> (r: ArgStep<Self>) {
        match value {
            Value::Object(o) => ArgStep::Ready(o),
            _ => ArgStep::Failed(null_argument_error(name)),
        }
    }
}

impl<T: NativeArg> NativeArg for Option<T> {
    open spec fn accepts(value: Value) -> bool {
        value matches Value::Null || value matches Value::Undefined || T::accepts(value)
    }

    open spec fn is_arg_step(value: Value, name: Seq<char>, r: ArgStep<Self>) -> bool {
        match value {
            Value::Null => r matches ArgStep::Ready(None),
            Value::Undefined => r matches ArgStep::Ready(None),
            _ => match r {
                ArgStep::Ready(Some(x)) => T::is_arg_step(value, name, ArgStep::Ready(x)),
                ArgStep::Ready(None) => false,
                ArgStep::Failed(e) => T::is_arg_step(value, name, ArgStep::Failed(e)),
                ArgStep::Coerce(c, w) => T::is_arg_step(value, name, ArgStep::Coerce(c, w)),
            },
        }
    }

    fn from_native_arg(value: Value, name: &str) -> (r: ArgStep<Self>) {
        match value {
            Value::Null => ArgStep::Ready(None),
            Value::Undefined => ArgStep::Ready(None),
            other => match T::from_native_arg(other, name) {
                ArgStep::Ready(x) => ArgStep::Ready(Some(x)),
                ArgStep::Failed(e) => ArgStep::Failed(e),
                ArgStep::Coerce(c, w) => ArgStep::Coerce(c, w),
            },
        }
    }
}

/// Extraction of a string-enumeration argument: the string argument, parsed;
/// a string that is not an accepted value raises error #2008.
pub open spec fn is_string_enum_step<T: FromWStr>(value: Value, name: Seq<char>, r: ArgStep<T>) -> bool {
    match value {
        Value::Null => r matches ArgStep::Failed(e) && is_null_error(e, name),
        Value::String(s) => match T::spec_from_wstr(s@) {
            Some(x) => r == ArgStep::Ready(x),
            None => r matches ArgStep::Failed(e) && is_enum_error(e, name),
        },
        _ => r == ArgStep::<T>::Coerce(Coercion::ToString, value),
    }
}

/// Extracts a string-enumeration argument.
pub fn parse_string_enum<T: FromWStr>(value: Value, name: &str) -> (r: ArgStep<T>)
    ensures
        is_string_enum_step(value, name@, r),
{
    match String::from_native_arg(value, name) {
        ArgStep::Ready(s) => match T::from_wstr(s.as_str()) {
            Some(x) => ArgStep::Ready(x),
            None => ArgStep::Failed(invalid_enum_error(name)),
        },
        ArgStep::Failed(e) => ArgStep::Failed(e),
        ArgStep::Coerce(c, w) => ArgStep::Coerce(c, w),
    }
}

impl NativeArg for BlendFactor {
    open spec fn accepts(value: Value) -> bool {
        true
    }

    open spec fn is_arg_step(value: Value, name: Seq<char>, r: ArgStep<Self>) -> bool {
        is_string_enum_step(value, name, r)
    }

    fn from_native_arg(value: Value, name: &str) -> (r: ArgStep<Self>) {
        parse_string_enum(value, name)
    }
}

impl NativeArg for CompareMode {
    open spec fn accepts(value: Value) -> bool {
        true
    }

    open spec fn is_arg_step(value: Value, name: Seq<char>, r: ArgStep<Self>) -> bool {
        is_string_enum_step(value, name, r)
    }

    fn from_native_arg(value: Value, name: &str) -> (r: ArgStep<Self>) {
        parse_string_enum(value, name)
    }
}

impl NativeArg for MipFilter {
    open spec fn accepts(value: Value) -> bool {
        true
    }

    open spec fn is_arg_step(value: Value, name: Seq<char>, r: ArgStep<Self>) -> bool {
        is_string_enum_step(value, name, r)
    }

    fn from_native_arg(value: Value, name: &str) -> (r: ArgStep<Self>) {
        parse_string_enum(value, name)
    }
}

impl NativeArg for StencilAction {
    open spec fn accepts(value: Value) -> bool {
        true
    }

    open spec fn is_arg_step(value: Value, name: Seq<char>, r: ArgStep<Self>) -> bool {
        is_string_enum_step(value, name, r)
    }

    fn from_native_arg(value: Value, name: &str) -> (r: ArgStep<Self>) {
        parse_string_enum(value, name)
    }
}

impl NativeArg for TextureFilter {
    open spec fn accepts(value: Value) -> bool {
        true
    }

    open spec fn is_arg_step(value: Value, name: Seq<char>, r: ArgStep<Self>) -> bool {
        is_string_enum_step(value, name, r)
    }

    fn from_native_arg(value: Value, name: &str) -> (r: ArgStep<Self>) {
        parse_string_enum(value, name)
    }
}

impl NativeArg for TextureFormat {
    open spec fn accepts(value: Value) -> bool {
        true
    }

    open spec fn is_arg_step(value: Value, name: Seq<char>, r: ArgStep<Self>) -> bool {
        is_string_enum_step(value, name, r)
    }

    fn from_native_arg(value: Value, name: &str) -> (r: ArgStep<Self>) {
        parse_string_enum(value, name)
    }
}

impl NativeArg for TriangleFace {
    open spec fn accepts(value: Value) -> bool {
        true
    }

    open spec fn is_arg_step(value: Value, name: Seq<char>, r: ArgStep<Self>) -> bool {
        is_string_enum_step(value, name, r)
    }

    fn from_native_arg(value: Value, name: &str) -> (r: ArgStep<Self>) {
        parse_string_enum(value, name)
    }
}

impl NativeArg for VertexBufferFormat {
    open spec fn accepts(value: Value) -> bool {
        true
    }

    open spec fn is_arg_step(value: Value, name: Seq<char>, r: ArgStep<Self>) -> bool {
        is_string_enum_step(value, name, r)
    }

    fn from_native_arg(value: Value, name: &str) -> (r: ArgStep<Self>) {
        parse_string_enum(value, name)
    }
}

impl NativeArg for WrapMode {
    open spec fn accepts(value: Value) -> bool {
        true
    }

    open spec fn is_arg_step(value: Value, name: Seq<char>, r: ArgStep<Self>) -> bool {
        is_string_enum_step(value, name, r)
    }

    fn from_native_arg(value: Value, name: &str) -> (r: ArgStep<Self>) {
        parse_string_enum(value, name)
    }
}

impl NativeArg for ProgramType {
    open spec fn accepts(value: Value) -> bool {
        true
    }

    open spec fn is_arg_step(value: Value, name: Seq<char>, r: ArgStep<Self>) -> bool {
        is_string_enum_step(value, name, r)
    }

    fn from_native_arg(value: Value, name: &str) -> (r: ArgStep<Self>) {
        parse_string_enum(value, name)
    }
}

impl NativeArg for Context3DRef {
    open spec fn accepts(value: Value) -> bool {
        value matches Value::Object(o) && o.class == ObjectClass::Context3D
    }

    open spec fn is_arg_step(value: Value, name: Seq<char>, r: ArgStep<Self>) -> bool {
        match value {
            Value::Object(o) => r == ArgStep::Ready(Context3DRef(o)),
            _ => false,
        }
    }

    fn from_native_arg(value: Value, name: &str) -> (r: ArgStep<Self>) {
        match value {
            Value::Object(o) => ArgStep::Ready(Context3DRef(o)),
            _ => ArgStep::Failed(null_argument_error(name)),
        }
    }
}

impl NativeArg for Program3DRef {
    open spec fn accepts(value: Value) -> bool {
        value matches Value::Object(o) && o.class == ObjectClass::Program3D
    }

    open spec fn is_arg_step(value: Value, name: Seq<char>, r: ArgStep<Self>) -> bool {
        match value {
            Value::Object(o) => r == ArgStep::Ready(Program3DRef(o)),
            _ => false,
        }
    }

    fn from_native_arg(value: Value, name: &str) -> (r: ArgStep<Self>) {
        match value {
            Value::Object(o) => ArgStep::Ready(Program3DRef(o)),
            _ => ArgStep::Failed(null_argument_error(name)),
        }
    }
}

impl NativeArg for IndexBuffer3DRef {
    open spec fn accepts(value: Value) -> bool {
        value matches Value::Object(o) && o.class == ObjectClass::IndexBuffer3D
    }

    open spec fn is_arg_step(value: Value, name: Seq<char>, r: ArgStep<Self>) -> bool {
        match value {
            Value::Object(o) => r == ArgStep::Ready(IndexBuffer3DRef(o)),
            _ => false,
        }
    }

    fn from_native_arg(value: Value, name: &str) -> (r: ArgStep<Self>) {
        match value {
            Value::Object(o) => ArgStep::Ready(IndexBuffer3DRef(o)),
            _ => ArgStep::Failed(null_argument_error(name)),
        }
    }
}

impl NativeArg for VertexBuffer3DRef {
    open spec fn accepts(value: Value) -> bool {
        value matches Value::Object(o) && o.class == ObjectClass::VertexBuffer3D
    }

    open spec fn is_arg_step(value: Value, name: Seq<char>, r: ArgStep<Self>) -> bool {
        match value {
            Value::Object(o) => r == ArgStep::Ready(VertexBuffer3DRef(o)),
            _ => false,
        }
    }

    fn from_native_arg(value: Value, name: &str) -> (r: ArgStep<Self>) {
        match value {
            Value::Object(o) => ArgStep::Ready(VertexBuffer3DRef(o)),
            _ => ArgStep::Failed(null_argument_error(name)),
        }
    }
}

impl NativeArg for TextureRef {
    open spec fn accepts(value: Value) -> bool {
        value matches Value::Object(o) && o.class matches ObjectClass::Texture(_)
    }

    open spec fn is_arg_step(value: Value, name: Seq<char>, r: ArgStep<Self>) -> bool {
        match value {
            Value::Object(o) => r == ArgStep::Ready(TextureRef(o)),
            _ => false,
        }
    }

    fn from_native_arg(value: Value, name: &str) -> (r: ArgStep<Self>) {
        match value {
            Value::Object(o) => ArgStep::Ready(TextureRef(o)),
            _ => ArgStep::Failed(null_argument_error(name)),
        }
    }
}

impl NativeReturn for Program3DRef {
    open spec fn spec_into_return_value(self) -> Result<Value, AvmError> {
        Ok(Value::Object(self.0))
    }

    fn into_return_value(self) -> (r: Result<Value, AvmError>) {
        Ok(Value::Object(self.0))
    }
}

impl NativeReturn for IndexBuffer3DRef {
    open spec fn spec_into_return_value(self) -> Result<Value, AvmError> {
        Ok(Value::Object(self.0))
    }

    fn into_return_value(self) -> (r: Result<Value, AvmError>) {
        Ok(Value::Object(self.0))
    }
}

impl NativeReturn for VertexBuffer3DRef {
    open spec fn spec_into_return_value(self) -> Result<Value, AvmError> {
        Ok(Value::Object(self.0))
    }

    fn into_return_value(self) -> (r: Result<Value, AvmError>) {
        Ok(Value::Object(self.0))
    }
}

impl NativeReturn for TextureRef {
    open spec fn spec_into_return_value(self) -> Result<Value, AvmError> {
        Ok(Value::Object(self.0))
    }

    fn into_return_value(self) -> (r: Result<Value, AvmError>) {
        Ok(Value::Object(self.0))
    }
}

impl NativeReturn for Value {
    open spec fn spec_into_return_value(self) -> Result<Value, AvmError> {
        Ok(self)
    }

    fn into_return_value(self) -> (r: Result<Value, AvmError>) {
        Ok(self)
    }
}

impl NativeReturn for () {
    open spec fn spec_into_return_value(self) -> Result<Value, AvmError> {
        Ok(Value::Undefined)
    }

    fn into_return_value(self) -> (r: Result<Value, AvmError>) {
        Ok(Value::Undefined)
    }
}

impl NativeReturn for i32 {
    open spec fn spec_into_return_value(self) -> Result<Value, AvmError> {
        Ok(Value::Integer(self))
    }

    fn into_return_value(self) -> (r: Result<Value, AvmError>) {
        Ok(Value::Integer(self))
    }
}

impl NativeReturn for u32 {
    open spec fn spec_into_return_value(self) -> Result<Value, AvmError> {
        Ok(Value::Integer(self as i32))
    }

    fn into_return_value(self) -> (r: Result<Value, AvmError>) {
        Ok(Value::Integer(self as i32))
    }
}

impl NativeReturn for bool {
    open spec fn spec_into_return_value(self) -> Result<Value, AvmError> {
        Ok(Value::Bool(self))
    }

    fn into_return_value(self) -> (r: Result<Value, AvmError>) {
        Ok(Value::Bool(self))
    }
}

impl NativeReturn for String {
    open spec fn spec_into_return_value(self) -> Result<Value, AvmError> {
        Ok(Value::String(self))
    }

    fn into_return_value(self) -> (r: Result<Value, AvmError>) {
        Ok(Value::String(self))
    }
}

impl NativeReturn for ObjectRef {
    open spec fn spec_into_return_value(self) -> Result<Value, AvmError> {
        Ok(Value::Object(self))
    }

    fn into_return_value(self) -> (r: Result<Value, AvmError>) {
        Ok(Value::Object(self))
    }
}

impl<T: NativeReturn> NativeReturn for Option<T> {
    open spec fn spec_into_return_value(self) -> Result<Value, AvmError> {
        match self {
            Some(v) => v.spec_into_return_value(),
            None => Ok(Value::Null),
        }
    }

    fn into_return_value(self) -> (r: Result<Value, AvmError>) {
        match self {
            Some(v) => v.into_return_value(),
            None => Ok(Value::Null),
        }
    }
}

impl<T: NativeReturn> NativeReturn for Result<T, AvmError> {
    open spec fn spec_into_return_value(self) -> Result<Value, AvmError> {
        match self {
            Ok(v) => v.spec_into_return_value(),
            Err(e) => Err(e),
        }
    }

    fn into_return_value(self) -> (r: Result<Value, AvmError>) {
        match self {
            Ok(v) => v.into_return_value(),
            Err(e) => Err(e),
        }
    }
}

/// A Boolean returned to ActionScript and passed back as a Boolean argument
/// is the same Boolean.
pub proof fn law_bool_round_trip(b: bool, name: Seq<char>)
    ensures
        b.spec_into_return_value() matches Ok(v) && bool::is_arg_step(v, name, ArgStep::Ready(b)),
{
}

/// A string returned to ActionScript and passed back as a string argument is
/// the same string.
pub proof fn law_string_round_trip(s: String, name: Seq<char>)
    ensures
        s.spec_into_return_value() matches Ok(v) && String::is_arg_step(v, name, ArgStep::Ready(s)),
{
}

/// An object returned to ActionScript and passed back as an object argument
/// is the same object.
pub proof fn law_object_round_trip(o: ObjectRef, name: Seq<char>)
    ensures
        o.spec_into_return_value() matches Ok(v) && ObjectRef::is_arg_step(
            v,
            name,
            ArgStep::Ready(o),
        ),
{
}

/// A value returned to ActionScript and passed back as a value argument is
/// the same value.
pub proof fn law_value_round_trip(v: Value, name: Seq<char>)
    ensures
        v.spec_into_return_value() == Ok::<Value, AvmError>(v) && Value::is_arg_step(
            v,
            name,
            ArgStep::Ready(v),
        ),
{
}

/// An absent optional result is returned as `null`, and `null` (like
/// `undefined`) passed as an optional argument is absent, whatever the type.
pub proof fn law_absent_optional_round_trip<T: NativeArg + NativeReturn>(name: Seq<char>)
    ensures
        Option::<T>::None.spec_into_return_value() == Ok::<Value, AvmError>(Value::Null),
        forall|r: ArgStep<Option<T>>|
            Option::<T>::is_arg_step(Value::Null, name, r) <==> r matches ArgStep::Ready(None),
        forall|r: ArgStep<Option<T>>|
            Option::<T>::is_arg_step(Value::Undefined, name, r) <==> r matches ArgStep::Ready(
                None,
            ),
{
}

/// A present optional result is returned as the value itself, and a
/// non-null, defined value passed as an optional argument is extracted as
/// the inner type would extract it, then wrapped.
pub proof fn law_present_optional<T: NativeArg + NativeReturn>(x: T, value: Value, name: Seq<char>)
    requires
        !(value matches Value::Null),
        !(value matches Value::Undefined),
    ensures
        Some(x).spec_into_return_value() == x.spec_into_return_value(),
        Option::<T>::is_arg_step(value, name, ArgStep::Ready(Some(x))) <==> T::is_arg_step(
            value,
            name,
            ArgStep::Ready(x),
        ),
{
}

/// An int returned to ActionScript and passed back as an int argument is
/// the same int.
pub proof fn law_i32_round_trip(x: i32, name: Seq<char>)
    ensures
        x.spec_into_return_value() matches Ok(v) && i32::is_arg_step(v, name, ArgStep::Ready(x)),
{
}

/// A uint returned to ActionScript (as the int with the same bits) and passed
/// back as a uint argument is the same uint.
pub proof fn law_u32_round_trip(x: u32, name: Seq<char>)
    ensures
        x.spec_into_return_value() matches Ok(v) && u32::is_arg_step(v, name, ArgStep::Ready(x)),
{
    assert((x as i32) as u32 == x) by (bit_vector);
}

/// An unsigned result is returned as the signed integer with the same 32
/// bits: values above `i32::MAX` come back negative.
pub proof fn law_u32_returned_as_integer(x: u32)
    ensures
        x.spec_into_return_value() == Ok::<Value, AvmError>(Value::Integer(x as i32)),
        x <= 0x7fff_ffff ==> x as i32 == x as int,
        x > 0x7fff_ffff ==> x as i32 == x as int - 0x1_0000_0000,
{
    assert(x <= 0x7fff_ffff ==> x as i32 == x as int) by (bit_vector);
    assert(x > 0x7fff_ffff ==> x as i32 == x as int - 0x1_0000_0000) by (bit_vector);
}

} // verus!
