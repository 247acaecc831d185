//! Attributes and identifiers, as the macros read them.

use vstd::prelude::*;
use crate::text::str_eq;

verus! {

/// An attribute on an item, a parameter or a method.
#[derive(Debug)]
pub enum AttrDesc {
    /// `#[path]`. `ident` is the path when it is one identifier.
    Path { ident: Option<String> },
    /// `#[path = value]`. `text` is the value when it is a string literal.
    NameValue { ident: Option<String>, text: Option<String> },
    /// `#[path(...)]`.
    List { ident: Option<String> },
}

/// `id` is the single identifier `word` (what `Path::is_ident` tests).
pub open spec fn is_ident(id: Option<String>, word: Seq<char>) -> bool {
    match id {
        Some(s) => s@ == word,
        None => false,
    }
}

/// Whether `id` is the single identifier `word`.
pub fn ident_is(id: &Option<String>, word: &str) -> (r: bool)
    ensures
        r == is_ident(*id, word@),
{
    match id {
        Some(s) => str_eq(s.as_str(), word),
        None => false,
    }
}

impl AttrDesc {
    /// The attribute is `#[word]`.
    pub open spec fn is_marker(self, word: Seq<char>) -> bool {
        match self {
            AttrDesc::Path { ident } => is_ident(ident, word),
            _ => false,
        }
    }

    /// The attribute is `#[word = ...]`, whatever its value.
    pub open spec fn is_name_value(self, word: Seq<char>) -> bool {
        match self {
            AttrDesc::NameValue { ident, .. } => is_ident(ident, word),
            _ => false,
        }
    }

    /// The string value of a `#[word = "..."]` attribute.
    pub open spec fn string_value(self, word: Seq<char>) -> Option<String> {
        match self {
            AttrDesc::NameValue { ident, text } => if is_ident(ident, word) {
                text
            } else {
                None
            },
            _ => None,
        }
    }

    /// Whether the attribute is `#[word]`.
    pub fn marker_is(&self, word: &str) -> (r: bool)
        ensures
            r == self.is_marker(word@),
    {
        match self {
            AttrDesc::Path { ident } => ident_is(ident, word),
            _ => false,
        }
    }

    /// Whether the attribute is `#[word = ...]`.
    pub fn name_value_is(&self, word: &str) -> (r: bool)
        ensures
            r == self.is_name_value(word@),
    {
        match self {
            AttrDesc::NameValue { ident, .. } => ident_is(ident, word),
            _ => false,
        }
    }

    /// The string value of the attribute if it is `#[word = "..."]`.
    pub fn string_value_of(&self, word: &str) -> (r: Option<String>)
        ensures
            r == self.string_value(word@),
    {
        match self {
            AttrDesc::NameValue { ident, text } => {
                if ident_is(ident, word) {
                    match text {
                        Some(t) => Some(t.clone()),
                        None => None,
                    }
                } else {
                    None
                }
            },
            _ => None,
        }
    }
}

/// The value of the first `#[word = "..."]` attribute among `attrs[from..]`.
pub open spec fn first_string_value(attrs: Seq<AttrDesc>, word: Seq<char>, from: int) -> Option<
    String,
>
    decreases attrs.len() - from,
{
    if from < 0 || from >= attrs.len() {
        None
    } else {
        match attrs[from].string_value(word) {
            Some(t) => Some(t),
            None => first_string_value(attrs, word, from + 1),
        }
    }
}

/// The value of the first `#[word = "..."]` attribute in `attrs`.
pub fn find_string_value(attrs: &Vec<AttrDesc>, word: &str) -> (r: Option<String>)
    ensures
        r == first_string_value(attrs@, word@, 0),
{
    let mut i: usize = attrs.len();
    let mut found: Option<String> = None;
    while i > 0
        invariant
            i <= attrs.len(),
            found == first_string_value(attrs@, word@, i as int),
        decreases i,
    {
        i = i - 1;
        match attrs[i].string_value_of(word) {
            Some(t) => {
                found = Some(t);
            },
            None => {},
        }
    }
    found
}

/// For each attribute, whether it is kept when every `#[word = ...]`
/// attribute is stripped.
pub fn keep_mask_without_name_value(attrs: &Vec<AttrDesc>, word: &str) -> (r: Vec<bool>)
    ensures
        r.len() == attrs.len(),
        forall|j: int| 0 <= j < attrs.len() ==> r[j] == !attrs[j].is_name_value(word@),
{
    let mut mask: Vec<bool> = Vec::new();
    let mut i: usize = 0;
    while i < attrs.len()
        invariant
            i <= attrs.len(),
            mask.len() == i,
            forall|j: int| 0 <= j < i ==> mask[j] == !attrs[j].is_name_value(word@),
        decreases attrs.len() - i,
    {
        let keep = !attrs[i].name_value_is(word);
        mask.push(keep);
        i = i + 1;
    }
    mask
}

/// For each attribute, whether it is kept when every `#[word]` attribute is
/// stripped.
pub fn keep_mask_without_marker(attrs: &Vec<AttrDesc>, word: &str) -> (r: Vec<bool>)
    ensures
        r.len() == attrs.len(),
        forall|j: int| 0 <= j < attrs.len() ==> r[j] == !attrs[j].is_marker(word@),
{
    let mut mask: Vec<bool> = Vec::new();
    let mut i: usize = 0;
    while i < attrs.len()
        invariant
            i <= attrs.len(),
            mask.len() == i,
            forall|j: int| 0 <= j < i ==> mask[j] == !attrs[j].is_marker(word@),
        decreases attrs.len() - i,
    {
        let keep = !attrs[i].marker_is(word);
        mask.push(keep);
        i = i + 1;
    }
    mask
}

} // verus!
