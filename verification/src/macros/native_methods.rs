//! `#[native_methods]`: checks each method of the annotated impl block and
//! plans the wrapper that extracts its arguments with `NativeArg`.

use vstd::prelude::*;
use crate::text::str_eq;
use super::attrs::{AttrDesc, find_string_value, first_string_value, keep_mask_without_name_value};

verus! {

/// One input of a method signature.
#[derive(Debug)]
pub enum MethodInput {
    /// `self`, `&self` or `&mut self`.
    Receiver { by_reference: bool },
    /// A typed parameter. `ident` is its name when its pattern is a plain
    /// identifier.
    Typed { ident: Option<String>, attrs: Vec<AttrDesc> },
}

/// What `#[native_methods]` reads of one method.
#[derive(Debug)]
pub struct NativeMethodDesc {
    pub has_visibility: bool,
    pub has_generics: bool,
    pub inputs: Vec<MethodInput>,
}

/// Why `#[native_methods]` refuses a method.
#[derive(Clone, Copy, PartialEq, Eq, Structural, Debug)]
pub enum NativeMethodError {
    /// The method has a visibility modifier.
    VisibilityModifier,
    /// The method has generic parameters.
    GenericParameters,
    /// The first input is not `self` taken by value.
    SelfNotByValue,
    /// The second input is not `activation` or `_activation`.
    MissingActivation,
    /// A parameter's pattern is not a plain identifier.
    UnsupportedPattern,
}

/// One argument that the wrapper extracts from the native `args` array.
#[derive(Debug)]
pub struct NativeArgPlan {
    /// Position of the parameter among the method's inputs.
    pub input_position: usize,
    /// Index into the native `args` array.
    pub arg_index: usize,
    /// Parameter name used in error messages.
    pub error_name: String,
}

/// The wrapper to generate for one method.
#[derive(Debug)]
pub struct NativeMethodPlan {
    /// Arguments in the order in which they are extracted and passed.
    pub args: Vec<NativeArgPlan>,
    /// For each input, for each of its attributes, whether the attribute stays
    /// on the method emitted unchanged (`#[name = ..]` attributes are removed).
    pub kept_attributes: Vec<Vec<bool>>,
}

/// `activation` or `_activation`: the parameter that is passed through.
pub open spec fn is_activation_name(s: Seq<char>) -> bool {
    s == "activation"@ || s == "_activation"@
}

/// The attributes of an input (none for a receiver).
pub open spec fn input_attrs(input: MethodInput) -> Seq<AttrDesc> {
    match input {
        MethodInput::Receiver { .. } => Seq::empty(),
        MethodInput::Typed { attrs, .. } => attrs@,
    }
}

/// A parameter that is extracted from `args`: a named parameter other than
/// the activation.
pub open spec fn is_extracted(input: MethodInput) -> bool {
    match input {
        MethodInput::Typed { ident: Some(n), .. } => !is_activation_name(n@),
        _ => false,
    }
}

/// The name an extracted parameter is reported under: the first
/// `#[name = "..."]` attribute, else the parameter's own name.
pub open spec fn spec_error_name(input: MethodInput) -> Seq<char> {
    match input {
        MethodInput::Typed { ident: Some(n), attrs } => match first_string_value(
            attrs@,
            "name"@,
            0,
        ) {
            Some(t) => t@,
            None => n@,
        },
        _ => Seq::empty(),
    }
}

/// How many of `inputs[..upto]` are extracted parameters.
pub open spec fn extracted_count(inputs: Seq<MethodInput>, upto: int) -> nat
    decreases upto,
{
    if upto <= 0 {
        0
    } else {
        extracted_count(inputs, upto - 1) + if is_extracted(inputs[upto - 1]) {
            1nat
        } else {
            0nat
        }
    }
}

/// The first input is `self` taken by value.
pub open spec fn takes_self_by_value(inputs: Seq<MethodInput>) -> bool {
    inputs.len() > 0 && match inputs[0] {
        MethodInput::Receiver { by_reference } => !by_reference,
        _ => false,
    }
}

/// The second input is the activation.
pub open spec fn second_is_activation(inputs: Seq<MethodInput>) -> bool {
    inputs.len() > 1 && match inputs[1] {
        MethodInput::Typed { ident: Some(n), .. } => is_activation_name(n@),
        _ => false,
    }
}

/// Some typed parameter has a pattern other than a plain identifier.
pub open spec fn has_unsupported_pattern(inputs: Seq<MethodInput>) -> bool {
    exists|j: int| 0 <= j < inputs.len() && (#[trigger] inputs[j] matches MethodInput::Typed { ident: None, .. })
}

/// The first rule that the method breaks, in the order the macro checks them.
pub open spec fn native_method_check(m: NativeMethodDesc) -> Option<NativeMethodError> {
    if m.has_visibility {
        Some(NativeMethodError::VisibilityModifier)
    } else if m.has_generics {
        Some(NativeMethodError::GenericParameters)
    } else if !takes_self_by_value(m.inputs@) {
        Some(NativeMethodError::SelfNotByValue)
    } else if !second_is_activation(m.inputs@) {
        Some(NativeMethodError::MissingActivation)
    } else if has_unsupported_pattern(m.inputs@) {
        Some(NativeMethodError::UnsupportedPattern)
    } else {
        None
    }
}

/// `p` is exactly the wrapper plan for the inputs `inputs`.
pub open spec fn is_plan_for(inputs: Seq<MethodInput>, p: NativeMethodPlan) -> bool {
    &&& p.args.len() == extracted_count(inputs, inputs.len() as int)
    &&& forall|k: int|
        #![trigger p.args[k]]
        0 <= k < p.args.len() ==> {
            let pos = p.args[k].input_position as int;
            &&& p.args[k].arg_index == k
            &&& 0 <= pos < inputs.len()
            &&& is_extracted(inputs[pos])
            &&& extracted_count(inputs, pos) == k
            &&& p.args[k].error_name@ == spec_error_name(inputs[pos])
        }
    &&& p.kept_attributes.len() == inputs.len()
    &&& forall|i: int|
        #![trigger p.kept_attributes[i]]
        0 <= i < inputs.len() ==> {
            &&& p.kept_attributes[i].len() == input_attrs(inputs[i]).len()
            &&& forall|j: int|
                0 <= j < input_attrs(inputs[i]).len() ==> p.kept_attributes[i][j] == !(#[trigger] input_attrs(inputs[i])[j]).is_name_value("name"@)
        }
}

fn is_activation(name: &String) -> (r: bool)
    ensures
        r == is_activation_name(name@),
{
    str_eq(name.as_str(), "activation") || str_eq(name.as_str(), "_activation")
}

fn find_unsupported_pattern(inputs: &Vec<MethodInput>) -> (r: bool)
    ensures
        r == has_unsupported_pattern(inputs@),
{
    let mut i: usize = 0;
    while i < inputs.len()
        invariant
            i <= inputs.len(),
            forall|j: int| 0 <= j < i ==> !(#[trigger] inputs@[j] matches MethodInput::Typed { ident: None, .. }),
        decreases inputs.len() - i,
    {
        match &inputs[i] {
            MethodInput::Typed { ident: None, .. } => {
                return true;
            },
            _ => {},
        }
        i = i + 1;
    }
    false
}

/// Checks one method of a `#[native_methods]` impl block and plans its
/// wrapper: which inputs are extracted from `args`, at which index, under
/// which name, and which attributes stay on the emitted method.
pub fn plan_native_method(m: &NativeMethodDesc) -> (r: Result<NativeMethodPlan, NativeMethodError>)
    ensures
        match r {
            Ok(p) => native_method_check(*m) is None && is_plan_for(m.inputs@, p),
            Err(e) => native_method_check(*m) == Some(e),
        },
{
    if m.has_visibility {
        return Err(NativeMethodError::VisibilityModifier);
    }
    if m.has_generics {
        return Err(NativeMethodError::GenericParameters);
    }
    let by_value = m.inputs.len() > 0 && match &m.inputs[0] {
        MethodInput::Receiver { by_reference } => !*by_reference,
        _ => false,
    };
    if !by_value {
        return Err(NativeMethodError::SelfNotByValue);
    }
    let activation_second = m.inputs.len() > 1 && match &m.inputs[1] {
        MethodInput::Typed { ident: Some(n), .. } => is_activation(n),
        _ => false,
    };
    if !activation_second {
        return Err(NativeMethodError::MissingActivation);
    }
    if find_unsupported_pattern(&m.inputs) {
        return Err(NativeMethodError::UnsupportedPattern);
    }
    let ghost inputs = m.inputs@;
    let mut args: Vec<NativeArgPlan> = Vec::new();
    let mut kept: Vec<Vec<bool>> = Vec::new();
    let mut i: usize = 0;
    while i < m.inputs.len()
        invariant
            inputs == m.inputs@,
            i <= inputs.len(),
            args.len() == extracted_count(inputs, i as int),
            forall|k: int|
                #![trigger args[k]]
                0 <= k < args.len() ==> {
                    let pos = args[k].input_position as int;
                    &&& args[k].arg_index == k
                    &&& 0 <= pos < i
                    &&& is_extracted(inputs[pos])
                    &&& extracted_count(inputs, pos) == k
                    &&& args[k].error_name@ == spec_error_name(inputs[pos])
                },
            kept.len() == i,
            forall|a: int|
                #![trigger kept[a]]
                0 <= a < i ==> {
                    &&& kept[a].len() == input_attrs(inputs[a]).len()
                    &&& forall|j: int|
                        0 <= j < input_attrs(inputs[a]).len() ==> kept[a][j] == !(#[trigger] input_attrs(inputs[a])[j]).is_name_value("name"@)
                },
        decreases inputs.len() - i,
    {
        match &m.inputs[i] {
            MethodInput::Receiver { .. } => {
                kept.push(Vec::new());
            },
            MethodInput::Typed { ident, attrs } => {
                let mask = keep_mask_without_name_value(attrs, "name");
                kept.push(mask);
                match ident {
                    Some(n) => {
                        if !is_activation(n) {
                            let error_name = match find_string_value(attrs, "name") {
                                Some(t) => t,
                                None => n.clone(),
                            };
                            let arg_index = args.len();
                            args.push(NativeArgPlan { input_position: i, arg_index, error_name });
                        }
                    },
                    None => {},
                }
            },
        }
        i = i + 1;
    }
    Ok(NativeMethodPlan { args, kept_attributes: kept })
}

proof fn lemma_extracted_count_monotone(inputs: Seq<MethodInput>, i: int, j: int)
    requires
        0 <= i <= j,
    ensures
        extracted_count(inputs, i) <= extracted_count(inputs, j),
    decreases j - i,
{
    if i < j {
        lemma_extracted_count_monotone(inputs, i, j - 1);
    }
}

/// The wrapper extracts the arguments in the order of the method's
/// parameters, each from its own parameter.
pub proof fn law_native_args_follow_parameter_order(inputs: Seq<MethodInput>, p: NativeMethodPlan)
    requires
        is_plan_for(inputs, p),
    ensures
        forall|k: int, l: int|
            0 <= k < l < p.args.len() ==> p.args[k].input_position < p.args[l].input_position,
{
    assert forall|k: int, l: int| 0 <= k < l < p.args.len() implies p.args[k].input_position
        < p.args[l].input_position by {
        let pk = p.args[k].input_position as int;
        let pl = p.args[l].input_position as int;
        if pk >= pl {
            lemma_extracted_count_monotone(inputs, pl, pk);
            assert(extracted_count(inputs, pk) == k);
            assert(extracted_count(inputs, pl) == l);
        }
    }
}

} // verus!
