//! The ActionScript errors that the native-method glue and the Stage3D
//! argument checks raise.

use vstd::prelude::*;

verus! {

/// The ActionScript class of a raised error.
#[derive(Clone, Copy, PartialEq, Eq, Structural, Debug)]
pub enum ErrorClass {
    Error,
    TypeError,
    ArgumentError,
}

/// An ActionScript error raised by argument checking, with its parameter name
/// where the error message names one.
#[derive(Debug)]
pub enum AvmError {
    /// Error #2007: Parameter %1 must be non-null.
    NullArgument(String),
    /// Error #2008: Parameter %1 must be one of the accepted values.
    InvalidEnumValue(String),
    /// Error #3669: Bad input size.
    BadInputSize,
    /// Error #3670: Buffer too big.
    BufferTooBig,
    /// Error #3671: Buffer has zero size.
    ZeroSizedBuffer,
    /// Error #3771: 2D textures need to have surfaceSelector = 0.
    TextureSurfaceSelector,
    /// Error #3772: Cube textures need to have surfaceSelector [0..5].
    CubeTextureSurfaceSelector,
    /// Error #3773: Rectangle textures need to have surfaceSelector = 0.
    RectangleTextureSurfaceSelector,
    /// Error #3780: Requested width of backbuffer is not in allowed range 32 to 16384.
    BackBufferWidthOutOfRange,
    /// Error #3781: Requested height of backbuffer is not in allowed range 32 to 16384.
    BackBufferHeightOutOfRange,
}

impl AvmError {
    /// The error number that Flash Player reports for this error.
    pub open spec fn spec_code(&self) -> u32 {
        match self {
            AvmError::NullArgument(_) => 2007,
            AvmError::InvalidEnumValue(_) => 2008,
            AvmError::BadInputSize => 3669,
            AvmError::BufferTooBig => 3670,
            AvmError::ZeroSizedBuffer => 3671,
            AvmError::TextureSurfaceSelector => 3771,
            AvmError::CubeTextureSurfaceSelector => 3772,
            AvmError::RectangleTextureSurfaceSelector => 3773,
            AvmError::BackBufferWidthOutOfRange => 3780,
            AvmError::BackBufferHeightOutOfRange => 3781,
        }
    }

    /// The error number that Flash Player reports for this error.
    pub fn code(&self) -> (c: u32)
        ensures
            c == self.spec_code(),
    {
        match self {
            AvmError::NullArgument(_) => 2007,
            AvmError::InvalidEnumValue(_) => 2008,
            AvmError::BadInputSize => 3669,
            AvmError::BufferTooBig => 3670,
            AvmError::ZeroSizedBuffer => 3671,
            AvmError::TextureSurfaceSelector => 3771,
            AvmError::CubeTextureSurfaceSelector => 3772,
            AvmError::RectangleTextureSurfaceSelector => 3773,
            AvmError::BackBufferWidthOutOfRange => 3780,
            AvmError::BackBufferHeightOutOfRange => 3781,
        }
    }

    /// The ActionScript class that the error is raised as.
    pub open spec fn spec_class(&self) -> ErrorClass {
        match self {
            AvmError::NullArgument(_) => ErrorClass::TypeError,
            AvmError::InvalidEnumValue(_) => ErrorClass::ArgumentError,
            _ => ErrorClass::Error,
        }
    }

    /// The ActionScript class that the error is raised as.
    pub fn class(&self) -> (c: ErrorClass)
        ensures
            c == self.spec_class(),
    {
        match self {
            AvmError::NullArgument(_) => ErrorClass::TypeError,
            AvmError::InvalidEnumValue(_) => ErrorClass::ArgumentError,
            _ => ErrorClass::Error,
        }
    }
}

} // verus!
