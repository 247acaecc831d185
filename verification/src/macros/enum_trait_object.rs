//! `#[enum_trait_object(...)]`: an enum whose variants each implement a trait,
//! with the trait implemented for the enum by dispatching on the variant.
//! Methods marked `#[no_dynamic]` are not dispatched: their default body moves
//! to the enum's impl and the trait's copy delegates to the enum.

use vstd::prelude::*;
use crate::text::concat3;
use super::attrs::{AttrDesc, keep_mask_without_marker};

verus! {

/// The `self` input of a trait method.
#[derive(Clone, Copy, PartialEq, Eq, Structural, Debug)]
pub struct ReceiverDesc {
    /// `&self` or `&mut self`.
    pub by_reference: bool,
    /// Written with an explicit type, as in `self: Box<Self>`.
    pub explicit_type: bool,
}

/// What the macro reads of one method of the trait.
#[derive(Debug)]
pub struct TraitMethodDesc {
    pub attrs: Vec<AttrDesc>,
    pub receiver: Option<ReceiverDesc>,
    /// The typed parameters after the receiver: the name of each one whose
    /// pattern is a plain identifier.
    pub params: Vec<Option<String>>,
    pub has_default: bool,
}

/// One item of the trait.
#[derive(Debug)]
pub enum TraitItemDesc {
    Method(TraitMethodDesc),
    /// A constant, a type or any other item that is not a method.
    Other,
}

/// One variant of the enum.
#[derive(Debug)]
pub struct VariantDesc {
    /// Whether the variant has at least one field (the wrapped type).
    pub has_field: bool,
}

/// What the macro reads of the trait and of the enum.
#[derive(Debug)]
pub struct EnumTraitDesc {
    pub trait_name: String,
    /// Lifetime parameters of the trait.
    pub lifetime_params: usize,
    /// Type parameters of the trait.
    pub type_params: usize,
    /// Whether the trait's generics equal the enum's.
    pub generics_match: bool,
    pub items: Vec<TraitItemDesc>,
    pub variants: Vec<VariantDesc>,
}

/// Why the macro refuses its input. Indices are positions among the trait's
/// items or the enum's variants.
#[derive(Clone, Copy, PartialEq, Eq, Structural, Debug)]
pub enum EnumTraitError {
    /// More than one lifetime parameter.
    TooManyLifetimes,
    /// More than one type parameter.
    TooManyTypeParams,
    /// The trait and the enum do not have the same generic parameters.
    GenericsMismatch,
    /// A trait item that is not a method.
    UnsupportedItem(usize),
    /// A `#[no_dynamic]` method without a plain `self`, `&self` or `&mut self`.
    NoDynamicReceiver(usize),
    /// A `#[no_dynamic]` method without a default body.
    NoDynamicWithoutBody(usize),
    /// An enum variant without a field.
    MissingVariantField(usize),
}

/// How a method of the enum's impl is implemented.
#[derive(Clone, Copy, PartialEq, Eq, Structural, Debug)]
pub enum MethodBody {
    /// A `match` with one arm per variant, calling the method on the variant's value.
    Dispatch,
    /// The trait's default body; the trait's own copy converts `self` (through
    /// `*` when `deref`) into the enum and calls the method on it.
    Delegate { deref: bool },
}

/// The plan for one method.
#[derive(Debug)]
pub struct TraitMethodPlan {
    /// For each attribute of the method, whether it is kept (`#[no_dynamic]` is removed).
    pub kept_attributes: Vec<bool>,
    /// The arguments passed on in each call: the parameters named by an identifier.
    pub params: Vec<String>,
    pub body: MethodBody,
}

/// The plan for the whole expansion.
#[derive(Debug)]
pub struct EnumTraitPlan {
    /// One plan per trait item, in order.
    pub methods: Vec<TraitMethodPlan>,
    /// The name of the private module whose trait guards `#[no_dynamic]`
    /// methods from being overridden, when some method is `#[no_dynamic]`.
    pub no_override_module: Option<String>,
    /// The variants (by index) that each dispatching `match` has an arm for,
    /// in order: every variant, once.
    pub dispatch_arms: Vec<usize>,
    /// The variants (by index) for whose wrapped type a `From` impl into the
    /// enum is generated, in order: every variant, once.
    pub from_impls: Vec<usize>,
}

/// The indices `0..n`, in order.
pub open spec fn all_indices(n: nat) -> Seq<usize> {
    Seq::new(n, |i: int| i as usize)
}

/// The method carries `#[no_dynamic]`.
pub open spec fn is_no_dynamic(m: TraitMethodDesc) -> bool {
    exists|j: int| 0 <= j < m.attrs.len() && (#[trigger] m.attrs@[j]).is_marker("no_dynamic"@)
}

/// The first rule that one trait item breaks.
pub open spec fn item_fault(item: TraitItemDesc, index: usize) -> Option<EnumTraitError> {
    match item {
        TraitItemDesc::Other => Some(EnumTraitError::UnsupportedItem(index)),
        TraitItemDesc::Method(m) => if !is_no_dynamic(m) {
            None
        } else if !(m.receiver matches Some(rc) && !rc.explicit_type) {
            Some(EnumTraitError::NoDynamicReceiver(index))
        } else if !m.has_default {
            Some(EnumTraitError::NoDynamicWithoutBody(index))
        } else {
            None
        },
    }
}

/// The first fault among `items[from..]`.
pub open spec fn first_item_fault(items: Seq<TraitItemDesc>, from: int) -> Option<EnumTraitError>
    decreases items.len() - from,
{
    if from < 0 || from >= items.len() {
        None
    } else {
        match item_fault(items[from], from as usize) {
            Some(e) => Some(e),
            None => first_item_fault(items, from + 1),
        }
    }
}

/// The first variant among `variants[from..]` without a field.
pub open spec fn first_fieldless_variant(variants: Seq<VariantDesc>, from: int) -> Option<
    EnumTraitError,
>
    decreases variants.len() - from,
{
    if from < 0 || from >= variants.len() {
        None
    } else if !variants[from].has_field {
        Some(EnumTraitError::MissingVariantField(from as usize))
    } else {
        first_fieldless_variant(variants, from + 1)
    }
}

/// The first rule that the input breaks, in the order the macro checks them.
pub open spec fn enum_trait_check(d: EnumTraitDesc) -> Option<EnumTraitError> {
    if d.lifetime_params > 1 {
        Some(EnumTraitError::TooManyLifetimes)
    } else if d.type_params > 1 {
        Some(EnumTraitError::TooManyTypeParams)
    } else if !d.generics_match {
        Some(EnumTraitError::GenericsMismatch)
    } else {
        match first_item_fault(d.items@, 0) {
            Some(e) => Some(e),
            None => first_fieldless_variant(d.variants@, 0),
        }
    }
}

/// The names of the parameters written as plain identifiers, in order.
pub open spec fn named_params(ps: Seq<Option<String>>) -> Seq<Seq<char>>
    decreases ps.len(),
{
    if ps.len() == 0 {
        Seq::empty()
    } else {
        named_params(ps.drop_last()) + match ps.last() {
            Some(s) => seq![s@],
            None => Seq::empty(),
        }
    }
}

/// The views of a list of strings.
pub open spec fn string_views(v: Seq<String>) -> Seq<Seq<char>> {
    v.map_values(|s: String| s@)
}

/// `p` is exactly the plan for method `m`.
pub open spec fn is_method_plan_for(m: TraitMethodDesc, p: TraitMethodPlan) -> bool {
    &&& p.kept_attributes.len() == m.attrs.len()
    &&& forall|j: int|
        0 <= j < m.attrs.len() ==> p.kept_attributes[j] == !(#[trigger] m.attrs@[j]).is_marker(
            "no_dynamic"@,
        )
    &&& string_views(p.params@) == named_params(m.params@)
    &&& p.body == if is_no_dynamic(m) {
        MethodBody::Delegate { deref: m.receiver.unwrap().by_reference }
    } else {
        MethodBody::Dispatch
    }
}

/// Some item is a `#[no_dynamic]` method.
pub open spec fn any_no_dynamic(items: Seq<TraitItemDesc>) -> bool {
    exists|i: int|
        0 <= i < items.len() && (#[trigger] items[i] matches TraitItemDesc::Method(m) && is_no_dynamic(m))
}

/// `p` is exactly the plan for the input `d`.
pub open spec fn is_enum_plan_for(d: EnumTraitDesc, p: EnumTraitPlan) -> bool {
    &&& p.methods.len() == d.items.len()
    &&& forall|i: int|
        #![trigger p.methods[i]]
        0 <= i < d.items.len() ==> match d.items@[i] {
            TraitItemDesc::Method(m) => is_method_plan_for(m, p.methods[i]),
            TraitItemDesc::Other => false,
        }
    &&& match p.no_override_module {
        Some(name) => any_no_dynamic(d.items@) && name@ == "__"@ + d.trait_name@
            + "_do_not_override"@,
        None => !any_no_dynamic(d.items@),
    }
    &&& p.dispatch_arms@ == all_indices(d.variants.len() as nat)
    &&& p.from_impls@ == all_indices(d.variants.len() as nat)
}

fn index_list(n: usize) -> (r: Vec<usize>)
    ensures
        r@ == all_indices(n as nat),
{
    let mut out: Vec<usize> = Vec::new();
    let mut i: usize = 0;
    while i < n
        invariant
            i <= n,
            out@ == all_indices(i as nat),
        decreases n - i,
    {
        out.push(i);
        i = i + 1;
        proof {
            assert(out@ =~= all_indices(i as nat));
        }
    }
    out
}

proof fn lemma_first_item_fault_prefix(items: Seq<TraitItemDesc>, i: int)
    requires
        0 <= i <= items.len(),
        forall|j: int| 0 <= j < i ==> item_fault(#[trigger] items[j], j as usize) is None,
    ensures
        first_item_fault(items, 0) == first_item_fault(items, i),
    decreases i,
{
    if i > 0 {
        lemma_first_item_fault_prefix(items, i - 1);
        assert(item_fault(items[i - 1], (i - 1) as usize) is None);
    }
}

proof fn lemma_first_fieldless_prefix(variants: Seq<VariantDesc>, i: int)
    requires
        0 <= i <= variants.len(),
        forall|j: int| 0 <= j < i ==> (#[trigger] variants[j]).has_field,
    ensures
        first_fieldless_variant(variants, 0) == first_fieldless_variant(variants, i),
    decreases i,
{
    if i > 0 {
        lemma_first_fieldless_prefix(variants, i - 1);
        assert(variants[i - 1].has_field);
    }
}

fn find_no_dynamic(m: &TraitMethodDesc) -> (r: bool)
    ensures
        r == is_no_dynamic(*m),
{
    let mut i: usize = 0;
    while i < m.attrs.len()
        invariant
            i <= m.attrs.len(),
            forall|j: int| 0 <= j < i ==> !(#[trigger] m.attrs@[j]).is_marker("no_dynamic"@),
        decreases m.attrs.len() - i,
    {
        if m.attrs[i].marker_is("no_dynamic") {
            return true;
        }
        i = i + 1;
    }
    false
}

fn collect_named_params(ps: &Vec<Option<String>>) -> (r: Vec<String>)
    ensures
        string_views(r@) == named_params(ps@),
{
    let mut out: Vec<String> = Vec::new();
    let mut i: usize = 0;
    while i < ps.len()
        invariant
            i <= ps.len(),
            string_views(out@) == named_params(ps@.subrange(0, i as int)),
        decreases ps.len() - i,
    {
        let ghost before = out@;
        match &ps[i] {
            Some(s) => {
                out.push(s.clone());
            },
            None => {},
        }
        assert(ps@.subrange(0, i + 1).drop_last() == ps@.subrange(0, i as int));
        assert(string_views(out@) == named_params(ps@.subrange(0, i + 1))) by {
            match ps@[i as int] {
                Some(s) => {
                    assert(out@ == before.push(s));
                    assert(string_views(out@) == string_views(before) + seq![s@]);
                },
                None => {},
            }
        }
        i = i + 1;
    }
    assert(ps@.subrange(0, ps.len() as int) == ps@);
    out
}

/// Checks the trait and the enum given to `#[enum_trait_object]` and plans
/// the impl of the trait for the enum.
pub fn plan_enum_trait_object(d: &EnumTraitDesc) -> (r: Result<EnumTraitPlan, EnumTraitError>)
    ensures
        match r {
            Ok(p) => enum_trait_check(*d) is None && is_enum_plan_for(*d, p),
            Err(e) => enum_trait_check(*d) == Some(e),
        },
{
    if d.lifetime_params > 1 {
        return Err(EnumTraitError::TooManyLifetimes);
    }
    if d.type_params > 1 {
        return Err(EnumTraitError::TooManyTypeParams);
    }
    if !d.generics_match {
        return Err(EnumTraitError::GenericsMismatch);
    }
    let mut methods: Vec<TraitMethodPlan> = Vec::new();
    let mut some_no_dynamic = false;
    let mut i: usize = 0;
    while i < d.items.len()
        invariant
            d.lifetime_params <= 1,
            d.type_params <= 1,
            d.generics_match,
            i <= d.items.len(),
            forall|j: int| 0 <= j < i ==> item_fault(#[trigger] d.items@[j], j as usize) is None,
            methods.len() == i,
            forall|j: int|
                #![trigger methods[j]]
                0 <= j < i ==> match d.items@[j] {
                    TraitItemDesc::Method(m) => is_method_plan_for(m, methods[j]),
                    TraitItemDesc::Other => false,
                },
            some_no_dynamic == exists|j: int|
                0 <= j < i && (#[trigger] d.items@[j] matches TraitItemDesc::Method(m) && is_no_dynamic(m)),
        decreases d.items.len() - i,
    {
        match &d.items[i] {
            TraitItemDesc::Other => {
                proof {
                    lemma_first_item_fault_prefix(d.items@, i as int);
                    assert(first_item_fault(d.items@, i as int) == Some(
                        EnumTraitError::UnsupportedItem(i),
                    ));
                }
                return Err(EnumTraitError::UnsupportedItem(i));
            },
            TraitItemDesc::Method(m) => {
                let no_dynamic = find_no_dynamic(m);
                let kept_attributes = keep_mask_without_marker(&m.attrs, "no_dynamic");
                let params = collect_named_params(&m.params);
                let body = if no_dynamic {
                    let deref = match m.receiver {
                        Some(rc) => {
                            if rc.explicit_type {
                                proof {
                                    lemma_first_item_fault_prefix(d.items@, i as int);
                                    assert(first_item_fault(d.items@, i as int) == Some(
                                        EnumTraitError::NoDynamicReceiver(i),
                                    ));
                                }
                                return Err(EnumTraitError::NoDynamicReceiver(i));
                            }
                            rc.by_reference
                        },
                        None => {
                            proof {
                                lemma_first_item_fault_prefix(d.items@, i as int);
                            }
                            return Err(EnumTraitError::NoDynamicReceiver(i));
                        },
                    };
                    if !m.has_default {
                        proof {
                            lemma_first_item_fault_prefix(d.items@, i as int);
                        }
                        return Err(EnumTraitError::NoDynamicWithoutBody(i));
                    }
                    some_no_dynamic = true;
                    MethodBody::Delegate { deref }
                } else {
                    MethodBody::Dispatch
                };
                methods.push(TraitMethodPlan { kept_attributes, params, body });
            },
        }
        i = i + 1;
    }
    proof {
        lemma_first_item_fault_prefix(d.items@, d.items.len() as int);
    }
    let mut v: usize = 0;
    while v < d.variants.len()
        invariant
            d.lifetime_params <= 1,
            d.type_params <= 1,
            d.generics_match,
            first_item_fault(d.items@, 0) is None,
            v <= d.variants.len(),
            forall|j: int| 0 <= j < v ==> (#[trigger] d.variants@[j]).has_field,
        decreases d.variants.len() - v,
    {
        if !d.variants[v].has_field {
            proof {
                lemma_first_fieldless_prefix(d.variants@, v as int);
                assert(first_fieldless_variant(d.variants@, v as int) == Some(
                    EnumTraitError::MissingVariantField(v),
                ));
            }
            return Err(EnumTraitError::MissingVariantField(v));
        }
        v = v + 1;
    }
    proof {
        lemma_first_fieldless_prefix(d.variants@, d.variants.len() as int);
    }
    let no_override_module = if some_no_dynamic {
        Some(concat3("__", d.trait_name.as_str(), "_do_not_override"))
    } else {
        None
    };
    let dispatch_arms = index_list(d.variants.len());
    let from_impls = index_list(d.variants.len());
    Ok(EnumTraitPlan { methods, no_override_module, dispatch_arms, from_impls })
}

/// The module that guards `#[no_dynamic]` methods is generated exactly when
/// some method delegates to the enum instead of dispatching.
pub proof fn law_no_override_module_iff_delegation(d: EnumTraitDesc, p: EnumTraitPlan)
    requires
        is_enum_plan_for(d, p),
    ensures
        p.no_override_module is Some <==> exists|i: int|
            0 <= i < p.methods.len() && (#[trigger] p.methods[i]).body matches MethodBody::Delegate { .. },
{
    if p.no_override_module is Some {
        let i = choose|i: int|
            0 <= i < d.items.len() && (#[trigger] d.items@[i] matches TraitItemDesc::Method(m)
                && is_no_dynamic(m));
        assert(p.methods[i].body matches MethodBody::Delegate { .. });
    } else {
        assert forall|i: int| 0 <= i < p.methods.len() implies !((#[trigger] p.methods[i]).body matches MethodBody::Delegate { .. }) by {
            assert(!(d.items@[i] matches TraitItemDesc::Method(m) && is_no_dynamic(m)));
        }
    }
}

} // verus!
