//! Texts and what stands at their ends.

use vstd::prelude::*;

verus! {

/// What is left of `s` behind `prefix`, if `s` starts with it.
pub open spec fn stripped_prefix<T>(s: Seq<T>, prefix: Seq<T>) -> Option<Seq<T>> {
    if prefix.is_prefix_of(s) {
        Some(s.skip(prefix.len() as int))
    } else {
        None
    }
}

/// What is left of `s` before `suffix`, if `s` ends with it.
pub open spec fn stripped_suffix<T>(s: Seq<T>, suffix: Seq<T>) -> Option<Seq<T>> {
    if suffix.is_suffix_of(s) {
        Some(s.take(s.len() - suffix.len()))
    } else {
        None
    }
}

/// What stands between `prefix` and `suffix`, if `s` starts with the one and
/// what follows it ends with the other.
pub open spec fn enclosed<T>(s: Seq<T>, prefix: Seq<T>, suffix: Seq<T>) -> Option<Seq<T>> {
    match stripped_prefix(s, prefix) {
        Some(rest) => stripped_suffix(rest, suffix),
        None => None,
    }
}

/// The view of what a function found inside a text, or of its finding nothing.
pub open spec fn found(r: Option<&str>) -> Option<Seq<char>> {
    match r {
        Some(s) => Some(s@),
        None => None,
    }
}

/// The view of what a function found inside a byte sequence.
pub open spec fn found_bytes(r: Option<&[u8]>) -> Option<Seq<u8>> {
    match r {
        Some(s) => Some(s@),
        None => None,
    }
}

/// Whether two texts hold the same characters.
pub fn same(a: &str, b: &str) -> (r: bool)
    ensures
        r == (a@ == b@),
{
    let x = a.as_bytes();
    let y = b.as_bytes();
    proof {
        vstd::utf8::encode_utf8_decode_utf8(a@);
        vstd::utf8::encode_utf8_decode_utf8(b@);
    }
    if x.len() != y.len() {
        return false;
    }
    let mut i: usize = 0;
    while i < x.len()
        invariant
            x@ == vstd::utf8::encode_utf8(a@),
            y@ == vstd::utf8::encode_utf8(b@),
            x.len() == y.len(),
            i <= x.len(),
            forall|j: int| 0 <= j < i ==> x@[j] == y@[j],
        decreases x.len() - i,
    {
        if x[i] != y[i] {
            assert(x@[i as int] != y@[i as int]);
            assert(x@ == vstd::utf8::encode_utf8(a@) && y@ == vstd::utf8::encode_utf8(b@));
            return false;
        }
        i += 1;
    }
    assert(x@ =~= y@);
    true
}

/// The rest of `s` behind `prefix`, where `s` starts with it.
pub fn strip_prefix<'a>(s: &'a str, prefix: &str) -> (r: Option<&'a str>)
    ensures
        found(r) == stripped_prefix(s@, prefix@),
{
    let whole = s.unicode_len();
    let skipped = prefix.unicode_len();
    if skipped > whole {
        return None;
    }
    if same(s.substring_char(0, skipped), prefix) {
        Some(s.substring_char(skipped, whole))
    } else {
        None
    }
}

/// What stands in `s` before `suffix`, where `s` ends with it.
pub fn strip_suffix<'a>(s: &'a str, suffix: &str) -> (r: Option<&'a str>)
    ensures
        found(r) == stripped_suffix(s@, suffix@),
{
    let whole = s.unicode_len();
    let dropped = suffix.unicode_len();
    if dropped > whole {
        return None;
    }
    if same(s.substring_char(whole - dropped, whole), suffix) {
        Some(s.substring_char(0, whole - dropped))
    } else {
        None
    }
}

/// `core::str::from_utf8`: the text that `bytes` encode, where they are valid
/// UTF-8, and nothing where they are not.
#[verifier::external_body]
pub(crate) fn from_utf8(bytes: &[u8]) -> (r: Option<&str>)
    ensures
        match r {
            Some(text) => vstd::utf8::encode_utf8(text@) == bytes@,
            None => !vstd::utf8::valid_utf8(bytes@),
        },
{
    core::str::from_utf8(bytes).ok()
}

/// What stands in `s` between `prefix` and `suffix`.
pub fn between<'a>(s: &'a str, prefix: &str, suffix: &str) -> (r: Option<&'a str>)
    ensures
        found(r) == enclosed(s@, prefix@, suffix@),
{
    match strip_prefix(s, prefix) {
        Some(rest) => strip_suffix(rest, suffix),
        None => None,
    }
}

/// Whether `s` starts with `prefix`.
fn starts_with(s: &[u8], prefix: &[u8]) -> (r: bool)
    ensures
        r == prefix@.is_prefix_of(s@),
{
    if prefix.len() > s.len() {
        return false;
    }
    let mut i: usize = 0;
    while i < prefix.len()
        invariant
            prefix.len() <= s.len(),
            i <= prefix.len(),
            forall|j: int| 0 <= j < i ==> s@[j] == prefix@[j],
        decreases prefix.len() - i,
    {
        if s[i] != prefix[i] {
            return false;
        }
        i += 1;
    }
    assert(prefix@ =~= s@.subrange(0, prefix@.len() as int));
    true
}

/// Whether `s` ends with `suffix`.
fn ends_with(s: &[u8], suffix: &[u8]) -> (r: bool)
    ensures
        r == suffix@.is_suffix_of(s@),
{
    if suffix.len() > s.len() {
        return false;
    }
    let shift = s.len() - suffix.len();
    let mut i: usize = 0;
    while i < suffix.len()
        invariant
            suffix.len() <= s.len(),
            shift == s.len() - suffix.len(),
            i <= suffix.len(),
            forall|j: int| 0 <= j < i ==> s@[shift + j] == suffix@[j],
        decreases suffix.len() - i,
    {
        if s[shift + i] != suffix[i] {
            assert(s@.subrange(shift as int, s@.len() as int)[i as int] != suffix@[i as int]);
            return false;
        }
        i += 1;
    }
    assert(suffix@ =~= s@.subrange(shift as int, s@.len() as int));
    true
}

/// What stands in the bytes `s` between `prefix` and `suffix`.
pub fn between_bytes<'a>(s: &'a [u8], prefix: &[u8], suffix: &[u8]) -> (r: Option<&'a [u8]>)
    ensures
        found_bytes(r) == enclosed(s@, prefix@, suffix@),
{
    if !starts_with(s, prefix) {
        return None;
    }
    let rest = vstd::slice::slice_subrange(s, prefix.len(), s.len());
    assert(rest@ =~= s@.skip(prefix@.len() as int));
    if !ends_with(rest, suffix) {
        return None;
    }
    let inner = vstd::slice::slice_subrange(rest, 0, rest.len() - suffix.len());
    assert(inner@ =~= rest@.take(rest@.len() - suffix@.len()));
    Some(inner)
}

} // verus!
