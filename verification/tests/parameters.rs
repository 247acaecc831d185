use ruffle_native::context3d::enums::{BlendFactor, TriangleFace, VertexBufferFormat};
use ruffle_native::error::{AvmError, ErrorClass};
use ruffle_native::parameters::{ArgStep, Coercion, NativeArg, NativeReturn, ParametersExt};
use ruffle_native::value::{ObjectClass, ObjectRef, TextureKind, TextureRef, Value};

fn obj(id: u64) -> ObjectRef {
    ObjectRef { id, class: ObjectClass::Plain }
}

#[test]
fn get_value_and_optional() {
    let args = vec![Value::Integer(7), Value::Null];
    assert!(matches!(args[..].get_value(0), Value::Integer(7)));
    assert!(matches!(args[..].get_optional(1), Some(Value::Null)));
    assert!(args[..].get_optional(2).is_none());
}

#[test]
fn object_parameters() {
    let args = vec![Value::Object(obj(3)), Value::Null];
    assert_eq!(args[..].try_get_object(0), Some(obj(3)));
    assert_eq!(args[..].try_get_object(1), None);
    assert_eq!(args[..].get_object(0, "target").unwrap(), obj(3));
    match args[..].get_object(1, "target") {
        Err(AvmError::NullArgument(name)) => assert_eq!(name, "target"),
        other => panic!("unexpected {:?}", other),
    }
}

#[test]
fn function_parameters() {
    let f = ObjectRef { id: 9, class: ObjectClass::Function };
    let args = vec![Value::Object(f), Value::Null];
    assert_eq!(args[..].try_get_function(0), Some(f));
    assert_eq!(args[..].try_get_function(1), None);
    let err = args[..].get_function(1, "closure").unwrap_err();
    assert_eq!(err.code(), 2007);
    assert_eq!(err.class(), ErrorClass::TypeError);
}

#[test]
fn string_parameters() {
    let args = vec![Value::String("abc".to_string()), Value::Null, Value::Bool(true)];
    assert_eq!(args[..].try_get_string(0), Some("abc".to_string()));
    assert_eq!(args[..].try_get_string(1), None);
    assert_eq!(args[..].get_string(0), "abc");
    assert_eq!(args[..].get_string(1), "null");
    assert_eq!(args[..].get_string_non_null(0, "s").unwrap(), "abc");
    match args[..].get_string_non_null(1, "s") {
        Err(AvmError::NullArgument(name)) => assert_eq!(name, "s"),
        other => panic!("unexpected {:?}", other),
    }
    assert!(args[..].get_bool(2));
}

#[test]
fn boolean_coercion() {
    let cases = vec![
        (Value::Undefined, false),
        (Value::Null, false),
        (Value::Bool(true), true),
        (Value::Integer(0), false),
        (Value::Integer(-3), true),
        (Value::Number(0.0f64.to_bits()), false),
        (Value::Number((-0.0f64).to_bits()), false),
        (Value::Number(f64::NAN.to_bits()), false),
        (Value::Number(0.5f64.to_bits()), true),
        (Value::Number(f64::INFINITY.to_bits()), true),
        (Value::String(String::new()), false),
        (Value::String("x".to_string()), true),
        (Value::Object(obj(1)), true),
    ];
    for (v, expected) in cases {
        assert_eq!(v.coerce_to_boolean(), expected, "{:?}", v);
        assert!(matches!(bool::from_native_arg(v, "b"), ArgStep::Ready(b) if b == expected));
    }
}

#[test]
fn string_argument() {
    assert!(matches!(String::from_native_arg(Value::String("hi".into()), "s"), ArgStep::Ready(s) if s == "hi"));
    match String::from_native_arg(Value::Null, "name") {
        ArgStep::Failed(AvmError::NullArgument(n)) => assert_eq!(n, "name"),
        other => panic!("unexpected {:?}", other),
    }
    assert!(matches!(
        String::from_native_arg(Value::Integer(4), "s"),
        ArgStep::Coerce(Coercion::ToString, Value::Integer(4))
    ));
}

#[test]
fn numeric_arguments() {
    assert!(matches!(i32::from_native_arg(Value::Integer(-4), "n"), ArgStep::Ready(-4)));
    assert!(matches!(i32::from_native_arg(Value::Bool(true), "n"), ArgStep::Ready(1)));
    assert!(matches!(i32::from_native_arg(Value::Undefined, "n"), ArgStep::Ready(0)));
    assert!(matches!(u32::from_native_arg(Value::Integer(-1), "n"), ArgStep::Ready(u32::MAX)));
    assert!(matches!(u32::from_native_arg(Value::Null, "n"), ArgStep::Ready(0)));
    assert!(matches!(u32::from_native_arg(Value::Bool(false), "n"), ArgStep::Ready(0)));
    assert!(matches!(
        i32::from_native_arg(Value::Number(1.5f64.to_bits()), "n"),
        ArgStep::Coerce(Coercion::ToInt32, Value::Number(_))
    ));
    assert!(matches!(
        u32::from_native_arg(Value::String("7".into()), "n"),
        ArgStep::Coerce(Coercion::ToUint32, Value::String(_))
    ));
}

#[test]
fn law_integer_round_trips() {
    for x in [0u32, 7, 0x7fff_ffff, 0x8000_0000, u32::MAX] {
        let v = x.into_return_value().unwrap();
        assert!(matches!(u32::from_native_arg(v, "n"), ArgStep::Ready(y) if y == x));
    }
    for x in [i32::MIN, -1, 0, 5, i32::MAX] {
        let v = x.into_return_value().unwrap();
        assert!(matches!(i32::from_native_arg(v, "n"), ArgStep::Ready(y) if y == x));
    }
}

#[test]
fn object_argument() {
    assert!(matches!(ObjectRef::from_native_arg(Value::Object(obj(5)), "o"), ArgStep::Ready(o) if o == obj(5)));
    assert!(matches!(
        ObjectRef::from_native_arg(Value::Integer(1), "o"),
        ArgStep::Failed(AvmError::NullArgument(_))
    ));
}

#[test]
fn optional_argument() {
    assert!(matches!(Option::<ObjectRef>::from_native_arg(Value::Null, "o"), ArgStep::Ready(None)));
    assert!(matches!(Option::<ObjectRef>::from_native_arg(Value::Undefined, "o"), ArgStep::Ready(None)));
    assert!(matches!(
        Option::<ObjectRef>::from_native_arg(Value::Object(obj(2)), "o"),
        ArgStep::Ready(Some(o)) if o == obj(2)
    ));
    assert!(matches!(
        Option::<String>::from_native_arg(Value::Bool(false), "o"),
        ArgStep::Coerce(Coercion::ToString, Value::Bool(false))
    ));
}

#[test]
fn typed_object_argument() {
    let t = ObjectRef { id: 4, class: ObjectClass::Texture(TextureKind::CubeTexture) };
    assert!(matches!(TextureRef::from_native_arg(Value::Object(t), "texture"), ArgStep::Ready(TextureRef(o)) if o == t));
}

#[test]
fn string_enum_arguments() {
    assert!(matches!(
        BlendFactor::from_native_arg(Value::String("oneMinusSourceAlpha".into()), "sourceFactor"),
        ArgStep::Ready(BlendFactor::OneMinusSourceAlpha)
    ));
    assert!(matches!(
        TriangleFace::from_native_arg(Value::String("none".into()), "triangleFaceToCull"),
        ArgStep::Ready(TriangleFace::NoFace)
    ));
    match VertexBufferFormat::from_native_arg(Value::String("float5".into()), "format") {
        ArgStep::Failed(e) => {
            assert_eq!(e.code(), 2008);
            assert_eq!(e.class(), ErrorClass::ArgumentError);
            assert!(matches!(e, AvmError::InvalidEnumValue(n) if n == "format"));
        }
        other => panic!("unexpected {:?}", other),
    }
    assert!(matches!(
        BlendFactor::from_native_arg(Value::Null, "sourceFactor"),
        ArgStep::Failed(AvmError::NullArgument(_))
    ));
    assert!(matches!(
        BlendFactor::from_native_arg(Value::Object(obj(1)), "sourceFactor"),
        ArgStep::Coerce(Coercion::ToString, Value::Object(_))
    ));
}

#[test]
fn return_values() {
    assert!(matches!(().into_return_value(), Ok(Value::Undefined)));
    assert!(matches!(5i32.into_return_value(), Ok(Value::Integer(5))));
    assert!(matches!(true.into_return_value(), Ok(Value::Bool(true))));
    assert!(matches!("s".to_string().into_return_value(), Ok(Value::String(s)) if s == "s"));
    assert!(matches!(obj(8).into_return_value(), Ok(Value::Object(o)) if o == obj(8)));
    assert!(matches!(None::<ObjectRef>.into_return_value(), Ok(Value::Null)));
    assert!(matches!(Some(3i32).into_return_value(), Ok(Value::Integer(3))));
    let failed: Result<i32, AvmError> = Err(AvmError::BadInputSize);
    assert!(matches!(failed.into_return_value(), Err(AvmError::BadInputSize)));
    assert!(matches!(Ok::<bool, AvmError>(false).into_return_value(), Ok(Value::Bool(false))));
}

#[test]
fn law_u32_return_wraps() {
    assert!(matches!(7u32.into_return_value(), Ok(Value::Integer(7))));
    assert!(matches!(u32::MAX.into_return_value(), Ok(Value::Integer(-1))));
    assert!(matches!(0x8000_0000u32.into_return_value(), Ok(Value::Integer(i32::MIN))));
}

#[test]
fn law_round_trips() {
    let b = true.into_return_value().unwrap();
    assert!(matches!(bool::from_native_arg(b, "b"), ArgStep::Ready(true)));
    let s = "text".to_string().into_return_value().unwrap();
    assert!(matches!(String::from_native_arg(s, "s"), ArgStep::Ready(x) if x == "text"));
    let o = obj(11).into_return_value().unwrap();
    assert!(matches!(ObjectRef::from_native_arg(o, "o"), ArgStep::Ready(x) if x == obj(11)));
    let n = None::<ObjectRef>.into_return_value().unwrap();
    assert!(matches!(Option::<ObjectRef>::from_native_arg(n, "o"), ArgStep::Ready(None)));
    let v = Value::Integer(12).into_return_value().unwrap();
    assert!(matches!(Value::from_native_arg(v, "v"), ArgStep::Ready(Value::Integer(12))));
}

#[test]
fn error_codes() {
    let all = vec![
        (AvmError::NullArgument("a".into()), 2007, ErrorClass::TypeError),
        (AvmError::InvalidEnumValue("a".into()), 2008, ErrorClass::ArgumentError),
        (AvmError::BadInputSize, 3669, ErrorClass::Error),
        (AvmError::BufferTooBig, 3670, ErrorClass::Error),
        (AvmError::ZeroSizedBuffer, 3671, ErrorClass::Error),
        (AvmError::TextureSurfaceSelector, 3771, ErrorClass::Error),
        (AvmError::CubeTextureSurfaceSelector, 3772, ErrorClass::Error),
        (AvmError::RectangleTextureSurfaceSelector, 3773, ErrorClass::Error),
        (AvmError::BackBufferWidthOutOfRange, 3780, ErrorClass::Error),
        (AvmError::BackBufferHeightOutOfRange, 3781, ErrorClass::Error),
    ];
    for (e, code, class) in all {
        assert_eq!(e.code(), code);
        assert_eq!(e.class(), class);
    }
}
