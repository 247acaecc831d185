//! `atom!` and `istr!`: which interned string of the common string table a
//! literal names, and through which context the table is reached.

use vstd::prelude::*;
use vstd::string::*;
use crate::text::concat2;

verus! {

/// The field of the common string table that holds an interned string.
#[derive(Debug)]
pub enum AtomField {
    /// `ascii_chars[c]`: the one-character string of ASCII character `c`.
    AsciiChar(u8),
    /// `str_<name>`: a named common string; the field's full name.
    Named(String),
}

/// How the expansion reaches the interned string.
#[derive(Debug)]
pub struct AtomAccess {
    /// Through the given context (`HasStringContext::strings_ref(ctx)`)
    /// rather than through `activation.context.strings`.
    pub through_context: bool,
    pub field: AtomField,
}

/// The string is a single ASCII character (one byte, and ASCII).
pub open spec fn is_single_ascii(s: &str) -> bool {
    s.spec_bytes().len() == 1 && is_ascii(s)
}

/// Whether `unicode_ident::is_xid_continue` accepts the character: it may
/// continue an identifier (Unicode `XID_Continue`).
pub uninterp spec fn xid_continue(c: char) -> bool;

/// Calls `unicode_ident::is_xid_continue`, which tells from the crate's
/// Unicode tables whether a character may continue an identifier.
#[verifier::external_body]
fn is_xid_continue(c: char) -> (r: bool)
    ensures
        r == xid_continue(c),
{
    unicode_ident::is_xid_continue(c)
}

/// `str_` followed by `s` is an identifier: `str_` starts one, and every
/// character of `s` may continue it.
pub open spec fn continues_identifier(s: Seq<char>) -> bool {
    forall|i: int| 0 <= i < s.len() ==> xid_continue(#[trigger] s[i])
}

/// Why `atom!` refuses a literal.
#[derive(Clone, Copy, PartialEq, Eq, Structural, Debug)]
pub enum AtomError {
    /// The literal is more than one ASCII character and `str_` followed by it
    /// is not an identifier, so no field can be named after it.
    NotAnIdentifier,
}

/// Where `atom!(s)` (or `atom!(ctx, s)` when `has_context`) finds its string:
/// the ASCII-character table for a one-character ASCII literal, else the
/// field `str_` followed by the literal, which must then be an identifier.
pub fn atom_access(s: &str, has_context: bool) -> (r: Result<AtomAccess, AtomError>)
    ensures
        is_single_ascii(s) ==> match r {
            Ok(a) => a.through_context == has_context && (a.field matches AtomField::AsciiChar(c)
                && c == s.spec_bytes()[0] && s@.len() == 1 && c == s@[0] as u8),
            Err(_) => false,
        },
        !is_single_ascii(s) && continues_identifier(s@) ==> match r {
            Ok(a) => a.through_context == has_context && (a.field matches AtomField::Named(n)
                && n@ == "str_"@ + s@),
            Err(_) => false,
        },
        !is_single_ascii(s) && !continues_identifier(s@) ==> r matches Err(
            AtomError::NotAnIdentifier,
        ),
{
    broadcast use vstd::string::is_ascii_spec_bytes;

    if s.len() == 1 && s.is_ascii() {
        let bytes = s.as_bytes();
        let c: u8 = bytes[0];
        proof {
            assert(s.spec_bytes() =~= Seq::new(s@.len(), |i| s@.index(i) as u8));
        }
        return Ok(AtomAccess { through_context: has_context, field: AtomField::AsciiChar(c) });
    }
    let n = s.unicode_len();
    let mut i: usize = 0;
    while i < n
        invariant
            !is_single_ascii(s),
            n == s@.len(),
            i <= n,
            forall|k: int| 0 <= k < i ==> xid_continue(#[trigger] s@[k]),
        decreases n - i,
    {
        let c = s.get_char(i);
        if !is_xid_continue(c) {
            return Err(AtomError::NotAnIdentifier);
        }
        i = i + 1;
    }
    Ok(AtomAccess { through_context: has_context, field: AtomField::Named(concat2("str_", s)) })
}

} // verus!
