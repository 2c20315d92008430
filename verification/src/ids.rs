//! Record identifiers.
//!
//! Every record the store holds is keyed by a UUID kept as text in its
//! canonical hyphenated form.  This module pins that form down, checks
//! it, and draws fresh identifiers.

use vstd::prelude::*;
use vstd::string::StrSliceExecFns;
use vstd::string::StringExecFns;

verus! {

/// A lowercase hexadecimal digit.
pub open spec fn is_hex_char(c: char) -> bool {
    (48 <= c as u32 && c as u32 <= 57) || (97 <= c as u32 && c as u32 <= 102)
}

/// What must stand at position `i` of a canonical identifier: a hyphen
/// at the four group breaks, a lowercase hexadecimal digit elsewhere.
pub open spec fn uuid_char_ok(s: Seq<char>, i: int) -> bool {
    if i == 8 || i == 13 || i == 18 || i == 23 {
        s[i] == '-'
    } else {
        is_hex_char(s[i])
    }
}

/// The canonical hyphenated identifier form: 36 characters in groups of
/// 8-4-4-4-12 lowercase hexadecimal digits separated by hyphens.
pub open spec fn is_uuid_seq(s: Seq<char>) -> bool {
    s.len() == 36 && (forall|i: int| 0 <= i < 36 ==> uuid_char_ok(s, i))
}

/// Checks a string against the canonical identifier form.
pub fn is_uuid_text(s: &str) -> (b: bool)
    ensures
        b == is_uuid_seq(s@),
{
    let n = s.unicode_len();
    if n != 36 {
        return false;
    }
    for i in 0..36usize
        invariant
            s@.len() == 36,
            forall|j: int| 0 <= j < i ==> uuid_char_ok(s@, j),
    {
        let c = s.get_char(i);
        let ok: bool = if i == 8 || i == 13 || i == 18 || i == 23 {
            c == '-'
        } else {
            let v: u32 = c as u32;
            (48 <= v && v <= 57) || (97 <= v && v <= 102)
        };
        if !ok {
            assert(!uuid_char_ok(s@, i as int));
            return false;
        }
    }
    true
}

/// The all-zero identifier, the fallback for a profile document that
/// carries no usable one.
pub fn nil_uuid() -> (r: String)
    ensures
        r@ == "00000000-0000-0000-0000-000000000000"@,
        is_uuid_seq(r@),
{
    let r = String::from_str("00000000-0000-0000-0000-000000000000");
    proof {
        reveal_strlit("00000000-0000-0000-0000-000000000000");
        assert forall|i: int| 0 <= i < 36 implies uuid_char_ok(r@, i) by {
            assert(is_hex_char('0'));
        }
    }
    r
}

/// Relies on `uuid::Uuid::new_v4` and its `Display` form: a freshly
/// drawn identifier printed as 36 lowercase hyphenated hexadecimal
/// characters.  The value itself is random, so nothing more is stated.
#[verifier::external_body]
pub(crate) fn fresh_uuid() -> (r: String)
    ensures
        is_uuid_seq(r@),
{
    uuid::Uuid::new_v4().to_string()
}

} // verus!
