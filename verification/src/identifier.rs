//! The grammar of identifiers.
//!
//! An identifier starts with a letter or an underscore and goes on with
//! letters, digits and underscores. Within ASCII the grammar is written out
//! here; beyond ASCII the letters are the characters with the Unicode
//! properties `XID_Start` and `XID_Continue`, which `unicode-ident` knows.

use vstd::prelude::*;
use vstd::string::*;

verus! {

/// Whether `c` has the Unicode property `XID_Start`.
pub uninterp spec fn xid_start(c: char) -> bool;

/// Whether `c` has the Unicode property `XID_Continue`.
pub uninterp spec fn xid_continue(c: char) -> bool;

/// Calls `unicode_ident::is_xid_start`.
///
/// Trusted: the call looks `c` up in the crate's table of `XID_Start`; its
/// answer is the value that `xid_start` names.
#[verifier::external_body]
fn has_xid_start(c: char) -> (b: bool)
    ensures
        b == xid_start(c),
{
    unicode_ident::is_xid_start(c)
}

/// Calls `unicode_ident::is_xid_continue`.
///
/// Trusted: the call looks `c` up in the crate's table of `XID_Continue`; its
/// answer is the value that `xid_continue` names.
#[verifier::external_body]
fn has_xid_continue(c: char) -> (b: bool)
    ensures
        b == xid_continue(c),
{
    unicode_ident::is_xid_continue(c)
}

/// `c` is an ASCII character.
pub open spec fn is_ascii_char(c: char) -> bool {
    c <= '\u{7f}'
}

/// `c` is one of `a`..`z`, `A`..`Z`.
pub open spec fn is_ascii_letter(c: char) -> bool {
    ('a' <= c && c <= 'z') || ('A' <= c && c <= 'Z')
}

/// `c` is one of `0`..`9`.
pub open spec fn is_ascii_digit(c: char) -> bool {
    '0' <= c && c <= '9'
}

/// `c` may start an identifier: within ASCII a letter or the underscore,
/// beyond ASCII a character with `XID_Start`.
pub open spec fn is_ident_start(c: char) -> bool {
    if is_ascii_char(c) {
        c == '_' || is_ascii_letter(c)
    } else {
        xid_start(c)
    }
}

/// `c` may stand inside an identifier: within ASCII a letter, a digit or the
/// underscore, beyond ASCII a character with `XID_Continue` or `XID_Start`.
pub open spec fn is_ident_continue(c: char) -> bool {
    if is_ascii_char(c) {
        c == '_' || is_ascii_letter(c) || is_ascii_digit(c)
    } else {
        xid_continue(c) || xid_start(c)
    }
}

/// Every character of `s` may stand inside an identifier.
pub open spec fn all_ident_continue(s: Seq<char>) -> bool {
    forall|i: int| 0 <= i < s.len() ==> is_ident_continue(#[trigger] s[i])
}

/// `s` is an identifier: it is not empty, its first character may start an
/// identifier and every later one may stand inside one.
pub open spec fn is_identifier(s: Seq<char>) -> bool {
    &&& s.len() > 0
    &&& is_ident_start(s[0])
    &&& forall|i: int| 1 <= i < s.len() ==> is_ident_continue(#[trigger] s[i])
}

/// Tells whether `c` may start an identifier.
pub fn ident_start(c: char) -> (b: bool)
    ensures
        b == is_ident_start(c),
{
    if c <= '\u{7f}' {
        c == '_' || ('a' <= c && c <= 'z') || ('A' <= c && c <= 'Z')
    } else {
        has_xid_start(c)
    }
}

/// Tells whether `c` may stand inside an identifier.
pub fn ident_continue(c: char) -> (b: bool)
    ensures
        b == is_ident_continue(c),
{
    if c <= '\u{7f}' {
        c == '_' || ('a' <= c && c <= 'z') || ('A' <= c && c <= 'Z') || ('0' <= c && c <= '9')
    } else {
        has_xid_continue(c) || has_xid_start(c)
    }
}

/// Tells whether `s` is an identifier.
pub fn is_valid_identifier(s: &str) -> (b: bool)
    ensures
        b == is_identifier(s@),
{
    let mut first = true;
    for c in it: s.chars()
        invariant
            it.seq() == s@,
            first == (it.index() == 0),
            !first ==> is_ident_start(s@[0]),
            forall|i: int| 1 <= i < it.index() ==> is_ident_continue(#[trigger] s@[i]),
    {
        if first {
            if !ident_start(c) {
                return false;
            }
            first = false;
        } else if !ident_continue(c) {
            return false;
        }
    }
    !first
}

} // verus!
