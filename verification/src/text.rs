//! String helpers over character sequences.

use vstd::prelude::*;

verus! {

/// The lowercase form of `s`, as Unicode defines it: what `str::to_lowercase`
/// returns for a string that holds `s`.
pub uninterp spec fn lowercase(s: Seq<char>) -> Seq<char>;

/// The character sequences that a sequence of strings holds, in order.
pub open spec fn texts(v: Seq<String>) -> Seq<Seq<char>> {
    v.map_values(|s: String| s@)
}

/// The character sequence that an optional string holds, if any.
pub open spec fn opt_text(o: Option<String>) -> Option<Seq<char>> {
    match o {
        Some(s) => Some(s@),
        None => None,
    }
}

/// The character sequences that a sequence of string slices holds, in order.
pub open spec fn slices(v: Seq<&str>) -> Seq<Seq<char>> {
    v.map_values(|s: &str| s@)
}

/// The byte sequences that a sequence of buffers holds, in order.
pub open spec fn buffers(v: Seq<Vec<u8>>) -> Seq<Seq<u8>> {
    v.map_values(|b: Vec<u8>| b@)
}

/// Lowercases a string.
///
/// Trusted: names what `str::to_lowercase` returns; the result depends on
/// the characters of `s` alone.
#[verifier::external_body]
pub(crate) fn to_lowercase(s: &str) -> (lowered: String)
    ensures
        lowered@ == lowercase(s@),
{
    s.to_lowercase()
}

/// Whether `s` ends with `suffix`.
///
/// Trusted: states of `str::ends_with`, called with a string pattern, that
/// it tells whether the pattern's characters are the last characters of `s`.
#[verifier::external_body]
pub(crate) fn ends_with(s: &str, suffix: &str) -> (found: bool)
    ensures
        found == suffix@.is_suffix_of(s@),
{
    s.ends_with(suffix)
}

/// Whether two string slices hold the same characters.
///
/// Trusted: states of `==` on `str` that it compares the characters.
#[verifier::external_body]
pub(crate) fn same_text(a: &str, b: &str) -> (same: bool)
    ensures
        same == (a@ == b@),
{
    a == b
}

/// Appends one character to `s`.
///
/// Trusted: states of `String::push` that the string afterwards is the
/// string before followed by `c`.
#[verifier::external_body]
pub(crate) fn push_char(s: &mut String, c: char)
    ensures
        final(s)@ == old(s)@.push(c),
{
    s.push(c)
}

/// Copies a list of string slices into owned strings.
pub fn own_texts(items: &Vec<&str>) -> (owned: Vec<String>)
    ensures
        texts(owned@) == slices(items@),
{
    let mut owned: Vec<String> = Vec::new();
    let mut i: usize = 0;
    while i < items.len()
        invariant
            i <= items.len(),
            texts(owned@) == slices(items@.take(i as int)),
        decreases items.len() - i,
    {
        let ghost before = owned@;
        let item = items[i].to_owned();
        owned.push(item);
        proof {
            let seen = items@.take(i as int);
            assert(items@.take(i + 1) =~= seen.push(items@[i as int]));
            assert(slices(seen.push(items@[i as int])) =~= slices(seen).push(items@[i as int]@));
            assert(texts(before.push(item)) =~= texts(before).push(item@));
        }
        i += 1;
    }
    proof {
        assert(items@.take(items@.len() as int) =~= items@);
    }
    owned
}

/// Copies a list of strings.
pub fn copy_texts(items: &[String]) -> (copy: Vec<String>)
    ensures
        texts(copy@) == texts(items@),
{
    let mut copy: Vec<String> = Vec::new();
    let mut i: usize = 0;
    while i < items.len()
        invariant
            i <= items.len(),
            texts(copy@) == texts(items@.take(i as int)),
        decreases items.len() - i,
    {
        let ghost before = copy@;
        let item = items[i].clone();
        copy.push(item);
        proof {
            let seen = items@.take(i as int);
            assert(items@.take(i + 1) =~= seen.push(items@[i as int]));
            assert(texts(seen.push(items@[i as int])) =~= texts(seen).push(items@[i as int]@));
            assert(texts(before.push(item)) =~= texts(before).push(item@));
        }
        i += 1;
    }
    proof {
        assert(items@.take(items@.len() as int) =~= items@);
    }
    copy
}

} // verus!
