//! Normalization of runtime container names into display names.
//!
//! The container runtime prefixes every name it reports with a path
//! separator (`/web-1` for the container named `web-1`). Normalization
//! removes exactly that one leading separator; a name that does not start
//! with the separator passes through unchanged.

use vstd::prelude::*;
use vstd::string::StrSliceExecFns;

verus! {

/// The display name of a raw runtime name: the name with exactly one
/// leading `/` removed when present, otherwise the name itself.
pub open spec fn normalized_name(s: Seq<char>) -> Seq<char> {
    if s.len() > 0 && s[0] == '/' {
        s.subrange(1, s.len() as int)
    } else {
        s
    }
}

/// Normalizes one raw runtime name into its display name.
pub fn normalize_name(name: &str) -> (r: String)
    ensures
        r@ == normalized_name(name@),
{
    let len = name.unicode_len();
    if len > 0 && name.get_char(0) == '/' {
        let tail = name.substring_char(1, len);
        tail.to_owned()
    } else {
        name.to_owned()
    }
}

/// Normalizes a container's whole name sequence, independently and in order.
pub fn normalize_names(names: &Vec<String>) -> (r: Vec<String>)
    ensures
        r@.len() == names@.len(),
        forall|i: int| 0 <= i < names@.len() ==> r@[i]@ == normalized_name(names@[i]@),
{
    let mut out: Vec<String> = Vec::new();
    let mut i: usize = 0;
    while i < names.len()
        invariant
            i <= names@.len(),
            out@.len() == i,
            forall|j: int| 0 <= j < i ==> out@[j]@ == normalized_name(names@[j]@),
        decreases names@.len() - i,
    {
        out.push(normalize_name(names[i].as_str()));
        i = i + 1;
    }
    out
}

/// Normalization is the identity on a name without the leading separator,
/// and therefore idempotent on such names.
pub proof fn lemma_normalize_without_separator(s: Seq<char>)
    requires
        s.len() == 0 || s[0] != '/',
    ensures
        normalized_name(s) == s,
        normalized_name(normalized_name(s)) == normalized_name(s),
{
}

/// Normalization of a name with the leading separator removes exactly that
/// one character: the result is one character shorter and every remaining
/// character is shifted down by one, so a second separator, if any, stays.
pub proof fn lemma_normalize_strips_one_separator(s: Seq<char>)
    requires
        s.len() > 0,
        s[0] == '/',
    ensures
        normalized_name(s).len() == s.len() - 1,
        forall|i: int| 0 <= i < s.len() - 1 ==> normalized_name(s)[i] == s[i + 1],
{
}

} // verus!
