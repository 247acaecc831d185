//! `#[derive(HasPrefixField)]`: the struct must be `repr(C)` with a named
//! first field, which then sits at offset 0.

use vstd::prelude::*;
use super::attrs::{is_ident, ident_is};

verus! {

/// What the derive reads of the struct.
#[derive(Debug)]
pub struct PrefixFieldDesc {
    /// For each `#[repr ...]` attribute, the path of each nested item that
    /// parsed (parsing stops at the first item that does not parse).
    pub repr_attrs: Vec<Vec<Option<String>>>,
    /// The item is a struct.
    pub is_struct: bool,
    /// For a struct with at least one field: whether the first field is named.
    pub first_field_named: Option<bool>,
}

/// Some `#[repr(..)]` attribute lists `C`.
pub open spec fn is_repr_c(d: PrefixFieldDesc) -> bool {
    exists|a: int, m: int|
        0 <= a < d.repr_attrs.len() && 0 <= m < d.repr_attrs@[a].len() && is_ident(
            #[trigger] d.repr_attrs@[a]@[m],
            "C"@,
        )
}

/// `HasPrefixField` can be derived: a `repr(C)` struct whose first field is named.
pub open spec fn spec_has_prefix_field(d: PrefixFieldDesc) -> bool {
    d.is_struct && d.first_field_named == Some(true) && is_repr_c(d)
}

fn lists_c(items: &Vec<Option<String>>) -> (r: bool)
    ensures
        r == exists|m: int| 0 <= m < items.len() && is_ident(#[trigger] items@[m], "C"@),
{
    let mut m: usize = 0;
    while m < items.len()
        invariant
            m <= items.len(),
            forall|k: int| 0 <= k < m ==> !is_ident(#[trigger] items@[k], "C"@),
        decreases items.len() - m,
    {
        if ident_is(&items[m], "C") {
            return true;
        }
        m = m + 1;
    }
    false
}

/// Whether `#[derive(HasPrefixField)]` accepts the item; when it does not, the
/// derive raises "`HasPrefixField` can only be derived for repr(C) structs
/// with at least one named field".
pub fn derives_prefix_field(d: &PrefixFieldDesc) -> (r: bool)
    ensures
        r == spec_has_prefix_field(*d),
{
    let mut repr_c = false;
    let mut a: usize = 0;
    while a < d.repr_attrs.len()
        invariant
            a <= d.repr_attrs.len(),
            repr_c == exists|x: int, m: int|
                0 <= x < a && 0 <= m < d.repr_attrs@[x].len() && is_ident(
                    #[trigger] d.repr_attrs@[x]@[m],
                    "C"@,
                ),
        decreases d.repr_attrs.len() - a,
    {
        let here = lists_c(&d.repr_attrs[a]);
        repr_c = repr_c || here;
        a = a + 1;
    }
    d.is_struct && match d.first_field_named {
        Some(named) => named,
        None => false,
    } && repr_c
}

} // verus!
