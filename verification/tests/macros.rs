use ruffle_native::macros::atom::{atom_access, AtomError, AtomField};
use ruffle_native::macros::attrs::AttrDesc;
use ruffle_native::macros::enum_trait_object::{
    plan_enum_trait_object, EnumTraitDesc, EnumTraitError, MethodBody, ReceiverDesc,
    TraitItemDesc, TraitMethodDesc, VariantDesc,
};
use ruffle_native::macros::native_methods::{
    plan_native_method, MethodInput, NativeMethodDesc, NativeMethodError,
};
use ruffle_native::macros::prefix_field::{derives_prefix_field, PrefixFieldDesc};

fn typed(name: &str, attrs: Vec<AttrDesc>) -> MethodInput {
    MethodInput::Typed { ident: Some(name.to_string()), attrs }
}

fn name_attr(value: &str) -> AttrDesc {
    AttrDesc::NameValue { ident: Some("name".to_string()), text: Some(value.to_string()) }
}

fn method(inputs: Vec<MethodInput>) -> NativeMethodDesc {
    NativeMethodDesc { has_visibility: false, has_generics: false, inputs }
}

#[test]
fn native_method_arguments() {
    // fn set_culling(self, _activation, #[name = "triangleFaceToCull"] culling, #[doc] extra)
    let m = method(vec![
        MethodInput::Receiver { by_reference: false },
        typed("_activation", vec![]),
        typed("culling", vec![name_attr("triangleFaceToCull")]),
        typed("extra", vec![AttrDesc::Path { ident: Some("doc".to_string()) }]),
    ]);
    let plan = plan_native_method(&m).unwrap();
    assert_eq!(plan.args.len(), 2);
    assert_eq!(plan.args[0].input_position, 2);
    assert_eq!(plan.args[0].arg_index, 0);
    assert_eq!(plan.args[0].error_name, "triangleFaceToCull");
    assert_eq!(plan.args[1].input_position, 3);
    assert_eq!(plan.args[1].arg_index, 1);
    assert_eq!(plan.args[1].error_name, "extra");
    assert_eq!(plan.kept_attributes, vec![vec![], vec![], vec![false], vec![true]]);
}

#[test]
fn native_method_first_string_name_wins() {
    let m = method(vec![
        MethodInput::Receiver { by_reference: false },
        typed("activation", vec![]),
        typed(
            "x",
            vec![
                AttrDesc::NameValue { ident: Some("name".to_string()), text: None },
                name_attr("first"),
                name_attr("second"),
            ],
        ),
    ]);
    let plan = plan_native_method(&m).unwrap();
    assert_eq!(plan.args[0].error_name, "first");
    assert_eq!(plan.kept_attributes[2], vec![false, false, false]);
}

#[test]
fn native_method_skips_later_activation() {
    let m = method(vec![
        MethodInput::Receiver { by_reference: false },
        typed("activation", vec![]),
        typed("a", vec![]),
        typed("_activation", vec![]),
        typed("b", vec![]),
    ]);
    let plan = plan_native_method(&m).unwrap();
    let names: Vec<&str> = plan.args.iter().map(|a| a.error_name.as_str()).collect();
    assert_eq!(names, vec!["a", "b"]);
    assert_eq!(plan.args[1].arg_index, 1);
    assert_eq!(plan.args[1].input_position, 4);
}

#[test]
fn native_method_errors() {
    let ok_inputs = || vec![MethodInput::Receiver { by_reference: false }, typed("activation", vec![])];
    let mut m = method(ok_inputs());
    m.has_visibility = true;
    m.has_generics = true;
    assert_eq!(plan_native_method(&m).unwrap_err(), NativeMethodError::VisibilityModifier);
    m.has_visibility = false;
    assert_eq!(plan_native_method(&m).unwrap_err(), NativeMethodError::GenericParameters);
    let m = method(vec![MethodInput::Receiver { by_reference: true }, typed("activation", vec![])]);
    assert_eq!(plan_native_method(&m).unwrap_err(), NativeMethodError::SelfNotByValue);
    let m = method(vec![typed("activation", vec![])]);
    assert_eq!(plan_native_method(&m).unwrap_err(), NativeMethodError::SelfNotByValue);
    let m = method(vec![MethodInput::Receiver { by_reference: false }, typed("ctx", vec![])]);
    assert_eq!(plan_native_method(&m).unwrap_err(), NativeMethodError::MissingActivation);
    let m = method(vec![MethodInput::Receiver { by_reference: false }]);
    assert_eq!(plan_native_method(&m).unwrap_err(), NativeMethodError::MissingActivation);
    let mut inputs = ok_inputs();
    inputs.push(MethodInput::Typed { ident: None, attrs: vec![] });
    assert_eq!(plan_native_method(&method(inputs)).unwrap_err(), NativeMethodError::UnsupportedPattern);
    assert!(plan_native_method(&method(ok_inputs())).unwrap().args.is_empty());
}

fn trait_method(no_dynamic: bool, receiver: Option<ReceiverDesc>, has_default: bool) -> TraitItemDesc {
    let mut attrs = vec![AttrDesc::Path { ident: Some("inline".to_string()) }];
    if no_dynamic {
        attrs.push(AttrDesc::Path { ident: Some("no_dynamic".to_string()) });
    }
    TraitItemDesc::Method(TraitMethodDesc {
        attrs,
        receiver,
        params: vec![Some("a".to_string()), None, Some("b".to_string())],
        has_default,
    })
}

fn trait_desc(items: Vec<TraitItemDesc>) -> EnumTraitDesc {
    EnumTraitDesc {
        trait_name: "TObject".to_string(),
        lifetime_params: 1,
        type_params: 0,
        generics_match: true,
        items,
        variants: vec![VariantDesc { has_field: true }, VariantDesc { has_field: true }],
    }
}

const BY_REF: Option<ReceiverDesc> = Some(ReceiverDesc { by_reference: true, explicit_type: false });

#[test]
fn enum_trait_object_dispatch() {
    let d = trait_desc(vec![trait_method(false, BY_REF, false)]);
    let plan = plan_enum_trait_object(&d).unwrap();
    assert_eq!(plan.methods.len(), 1);
    assert_eq!(plan.methods[0].body, MethodBody::Dispatch);
    assert_eq!(plan.methods[0].params, vec!["a".to_string(), "b".to_string()]);
    assert_eq!(plan.methods[0].kept_attributes, vec![true]);
    assert_eq!(plan.no_override_module, None);
}

#[test]
fn enum_trait_object_no_dynamic() {
    let by_value = Some(ReceiverDesc { by_reference: false, explicit_type: false });
    let d = trait_desc(vec![trait_method(true, BY_REF, true), trait_method(true, by_value, true)]);
    let plan = plan_enum_trait_object(&d).unwrap();
    assert_eq!(plan.methods[0].body, MethodBody::Delegate { deref: true });
    assert_eq!(plan.methods[1].body, MethodBody::Delegate { deref: false });
    assert_eq!(plan.methods[0].kept_attributes, vec![true, false]);
    assert_eq!(plan.no_override_module.as_deref(), Some("__TObject_do_not_override"));
}

#[test]
fn enum_trait_object_errors() {
    let mut d = trait_desc(vec![]);
    d.lifetime_params = 2;
    d.type_params = 2;
    assert_eq!(plan_enum_trait_object(&d).unwrap_err(), EnumTraitError::TooManyLifetimes);
    d.lifetime_params = 0;
    assert_eq!(plan_enum_trait_object(&d).unwrap_err(), EnumTraitError::TooManyTypeParams);
    d.type_params = 1;
    d.generics_match = false;
    assert_eq!(plan_enum_trait_object(&d).unwrap_err(), EnumTraitError::GenericsMismatch);

    let d = trait_desc(vec![trait_method(false, None, false), TraitItemDesc::Other]);
    assert_eq!(plan_enum_trait_object(&d).unwrap_err(), EnumTraitError::UnsupportedItem(1));
    let d = trait_desc(vec![trait_method(true, None, true)]);
    assert_eq!(plan_enum_trait_object(&d).unwrap_err(), EnumTraitError::NoDynamicReceiver(0));
    let typed_self = Some(ReceiverDesc { by_reference: false, explicit_type: true });
    let d = trait_desc(vec![trait_method(false, None, false), trait_method(true, typed_self, true)]);
    assert_eq!(plan_enum_trait_object(&d).unwrap_err(), EnumTraitError::NoDynamicReceiver(1));
    let d = trait_desc(vec![trait_method(true, BY_REF, false)]);
    assert_eq!(plan_enum_trait_object(&d).unwrap_err(), EnumTraitError::NoDynamicWithoutBody(0));
    let mut d = trait_desc(vec![trait_method(false, BY_REF, false)]);
    d.variants.push(VariantDesc { has_field: false });
    assert_eq!(plan_enum_trait_object(&d).unwrap_err(), EnumTraitError::MissingVariantField(2));
}

#[test]
fn atom_named_and_ascii() {
    let a = atom_access("description", false).unwrap();
    assert!(!a.through_context);
    assert!(matches!(a.field, AtomField::Named(n) if n == "str_description"));
    let a = atom_access("A", true).unwrap();
    assert!(a.through_context);
    assert!(matches!(a.field, AtomField::AsciiChar(65)));
    assert!(matches!(atom_access("-", false).unwrap().field, AtomField::AsciiChar(45)));
    assert!(matches!(atom_access("", false).unwrap().field, AtomField::Named(n) if n == "str_"));
    assert!(matches!(atom_access("é", false).unwrap().field, AtomField::Named(n) if n == "str_é"));
    assert!(matches!(atom_access("null", false).unwrap().field, AtomField::Named(n) if n == "str_null"));
    assert_eq!(atom_access("a-b", false).unwrap_err(), AtomError::NotAnIdentifier);
    assert_eq!(atom_access("two words", true).unwrap_err(), AtomError::NotAnIdentifier);
    assert_eq!(atom_access("é!", false).unwrap_err(), AtomError::NotAnIdentifier);
}

#[test]
fn prefix_field_rules() {
    let repr_c = vec![vec![Some("C".to_string()), Some("align".to_string())]];
    let ok = PrefixFieldDesc { repr_attrs: repr_c.clone(), is_struct: true, first_field_named: Some(true) };
    assert!(derives_prefix_field(&ok));
    let tuple = PrefixFieldDesc { repr_attrs: repr_c.clone(), is_struct: true, first_field_named: Some(false) };
    assert!(!derives_prefix_field(&tuple));
    let empty = PrefixFieldDesc { repr_attrs: repr_c.clone(), is_struct: true, first_field_named: None };
    assert!(!derives_prefix_field(&empty));
    let not_c = PrefixFieldDesc { repr_attrs: vec![vec![Some("transparent".to_string())]], is_struct: true, first_field_named: Some(true) };
    assert!(!derives_prefix_field(&not_c));
    let an_enum = PrefixFieldDesc { repr_attrs: repr_c, is_struct: false, first_field_named: None };
    assert!(!derives_prefix_field(&an_enum));
}

#[test]
fn enum_trait_object_doc_example() {
    // #[enum_trait_object(pub enum MyTraitEnum { Object(Object) })] trait MyTrait {}
    let d = EnumTraitDesc {
        trait_name: "MyTrait".to_string(),
        lifetime_params: 0,
        type_params: 0,
        generics_match: true,
        items: vec![],
        variants: vec![VariantDesc { has_field: true }],
    };
    let plan = plan_enum_trait_object(&d).unwrap();
    assert!(plan.methods.is_empty());
    assert_eq!(plan.no_override_module, None);
}

#[test]
fn enum_trait_object_arms_and_from_impls() {
    let mut d = trait_desc(vec![trait_method(false, BY_REF, false)]);
    d.variants.push(VariantDesc { has_field: true });
    let plan = plan_enum_trait_object(&d).unwrap();
    assert_eq!(plan.dispatch_arms, vec![0, 1, 2]);
    assert_eq!(plan.from_impls, vec![0, 1, 2]);
}

#[test]
fn prefix_field_repr_read_until_unparsed_item() {
    // `#[repr(align(8), C)]`: reading stops at `align(8)`, before `C`.
    let d = PrefixFieldDesc {
        repr_attrs: vec![vec![Some("align".to_string())]],
        is_struct: true,
        first_field_named: Some(true),
    };
    assert!(!derives_prefix_field(&d));
    // `#[repr(C, align(8))]`: `C` is read first.
    let d = PrefixFieldDesc {
        repr_attrs: vec![vec![Some("C".to_string()), Some("align".to_string())]],
        is_struct: true,
        first_field_named: Some(true),
    };
    assert!(derives_prefix_field(&d));
}
