//! Where the cached copy of an artifact lives.

use vstd::prelude::*;
use vstd::string::StringExecFns;
use crate::text::{ends_with, push_char, same_text};

verus! {

/// Whether `c` is one of the characters that a cache file name cannot hold.
pub open spec fn is_path_char(c: char) -> bool {
    c == ':' || c == '/' || c == '.'
}

/// The character that stands for `c` in a cache file name.
pub open spec fn pruned_char(c: char) -> char {
    if is_path_char(c) {
        '_'
    } else {
        c
    }
}

/// The cache file name of a reference: every `:`, `/` and `.` becomes `_`,
/// every other character stays.
pub open spec fn pruned(img: Seq<char>) -> Seq<char> {
    img.map_values(|c: char| pruned_char(c))
}

/// Turns a reference into a name that is safe as a single path component.
pub fn prune_filepath(img: &str) -> (name: String)
    ensures
        name@ == pruned(img@),
{
    let mut name = String::new();
    for c in it: img.chars()
        invariant
            it.seq() == img@,
            name@ == pruned(img@.take(it.index() as int)),
    {
        let kept = if c == ':' || c == '/' || c == '.' { '_' } else { c };
        push_char(&mut name, kept);
        proof {
            let n = it.index() as int;
            assert(img@.take(n + 1) =~= img@.take(n).push(c));
            assert(pruned(img@.take(n + 1)) =~= pruned(img@.take(n)).push(kept));
        }
    }
    proof {
        assert(img@.take(img@.len() as int) =~= img@);
    }
    name
}

/// A pruned name is as long as the reference it stands for and holds none of
/// `:`, `/` and `.`, so it is a single path component without an extension;
/// pruning it again changes nothing.
pub proof fn lemma_pruned_name_is_plain(img: Seq<char>)
    ensures
        pruned(img).len() == img.len(),
        forall|i: int| 0 <= i < img.len() ==> !is_path_char(#[trigger] pruned(img)[i]),
        pruned(pruned(img)) == pruned(img),
{
    assert(pruned(pruned(img)) =~= pruned(img));
}

/// Name of the directory, under the system's directory for temporary files,
/// in which artifacts are cached by default.
pub const CACHE_DIR_NAME: &'static str = "wasmcloud_ocicache";

/// The path of `name` inside the directory `dir`, with `/` between the two
/// unless `dir` is empty or already ends in one.
pub open spec fn joined(dir: Seq<char>, name: Seq<char>) -> Seq<char> {
    if dir.len() == 0 {
        name
    } else if "/"@.is_suffix_of(dir) {
        dir + name
    } else {
        dir + "/"@ + name
    }
}

/// Builds the path of `name` inside the directory `dir`.
pub fn join_path(dir: &str, name: &str) -> (path: String)
    ensures
        path@ == joined(dir@, name@),
{
    let mut path = String::from_str(dir);
    if !dir.is_empty() && !ends_with(dir, "/") {
        path.append("/");
    }
    path.append(name);
    proof {
        assert(dir@.len() == 0 ==> dir@ + name@ =~= name@);
    }
    path
}

/// The default cache directory under the directory `temp_dir`.
pub fn oci_cache_dir(temp_dir: &str) -> (dir: String)
    ensures
        dir@ == joined(temp_dir@, CACHE_DIR_NAME@),
{
    join_path(temp_dir, CACHE_DIR_NAME)
}

/// The two files that cache one artifact.
#[derive(Debug, Clone, PartialEq, Eq)]
pub struct CacheEntry {
    /// Holds the artifact's content.
    pub cache_file: String,
    /// Holds the manifest digest under which the content was pulled.
    pub digest_file: String,
}

/// What a [`CacheEntry`] holds, as character sequences.
pub struct CacheEntryView {
    pub cache_file: Seq<char>,
    pub digest_file: Seq<char>,
}

impl View for CacheEntry {
    type V = CacheEntryView;

    open spec fn view(&self) -> CacheEntryView {
        CacheEntryView { cache_file: self.cache_file@, digest_file: self.digest_file@ }
    }
}

/// The cache entry of a normalized reference under `output_dir`: the content
/// file is named after the reference, the digest file after the content file
/// with `.digest` behind it.
pub open spec fn cache_entry(output_dir: Seq<char>, normalized: Seq<char>) -> CacheEntryView {
    let cache_file = joined(output_dir, pruned(normalized));
    CacheEntryView { cache_file, digest_file: cache_file + ".digest"@ }
}

impl CacheEntry {
    /// Derives the cache entry of a normalized reference under `output_dir`.
    pub fn locate(output_dir: &str, normalized: &str) -> (entry: CacheEntry)
        ensures
            entry@ == cache_entry(output_dir@, normalized@),
    {
        let name = prune_filepath(normalized);
        let cache_file = join_path(output_dir, name.as_str());
        let mut digest_file = cache_file.clone();
        digest_file.append(".digest");
        CacheEntry { cache_file, digest_file }
    }
}

/// Whether a cached copy is current: the registry's digest and the stored
/// one are both known and are the same.
pub open spec fn cache_hit(remote: Seq<char>, local: Seq<char>) -> bool {
    remote.len() > 0 && local.len() > 0 && local == remote
}

/// Tells whether a cached copy is current, given the digest that the
/// registry reports and the one stored beside the copy (empty where none
/// could be read).
pub fn is_cache_hit(remote: &str, local: &str) -> (hit: bool)
    ensures
        hit == cache_hit(remote@, local@),
{
    !remote.is_empty() && !local.is_empty() && same_text(local, remote)
}

/// References that differ only in `:`, `/`, `.` and `_` at the same places
/// share one cache entry: the entry is a function of the pruned name.
pub proof fn lemma_cache_entry_follows_pruned_name(
    output_dir: Seq<char>,
    a: Seq<char>,
    b: Seq<char>,
)
    requires
        pruned(a) == pruned(b),
    ensures
        cache_entry(output_dir, a) == cache_entry(output_dir, b),
{
}

/// The content file and the digest file of an entry are different files.
pub proof fn lemma_cache_entry_files_differ(output_dir: Seq<char>, normalized: Seq<char>)
    ensures
        cache_entry(output_dir, normalized).cache_file != cache_entry(
            output_dir,
            normalized,
        ).digest_file,
{
    reveal_strlit(".digest");
    let entry = cache_entry(output_dir, normalized);
    assert(entry.digest_file.len() == entry.cache_file.len() + 7);
}

} // verus!
