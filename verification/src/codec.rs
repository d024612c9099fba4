//! The path/URL codec: pure string functions that map a file's location
//! below the wiki root to the URL under which its page is addressed, and
//! back.
//!
//! A URL is the file path with the root stripped as a literal prefix and
//! a literal `.md` stripped as a suffix; the inverse is plain
//! concatenation.  There is no separator normalization and no validation:
//! when the root is not actually a prefix, the path passes through
//! unchanged by design.

use vstd::prelude::*;

verus! {

/// The file suffix that marks a markdown file.
pub open spec fn md_suffix() -> Seq<char> {
    ".md"@
}

/// Does `s` end with the literal `.md` suffix?
pub open spec fn has_md_suffix(s: Seq<char>) -> bool {
    md_suffix().is_suffix_of(s)
}

/// `s` with one trailing `.md` removed, if present; otherwise `s` itself.
pub open spec fn strip_md_suffix(s: Seq<char>) -> Seq<char> {
    if has_md_suffix(s) {
        s.subrange(0, s.len() - md_suffix().len())
    } else {
        s
    }
}

/// `s` with the literal prefix `base` removed, if present; otherwise `s`
/// itself (intentional passthrough, not an error).
pub open spec fn strip_base_prefix(base: Seq<char>, s: Seq<char>) -> Seq<char> {
    if base.is_prefix_of(s) {
        s.subrange(base.len() as int, s.len() as int)
    } else {
        s
    }
}

/// The URL of the file at `path` below the root `base`.
pub open spec fn path_to_url(base: Seq<char>, path: Seq<char>) -> Seq<char> {
    strip_md_suffix(strip_base_prefix(base, path))
}

/// The file path behind `url` below the root `base`: literal
/// concatenation `base + url + ".md"`.
pub open spec fn url_to_path(base: Seq<char>, url: Seq<char>) -> Seq<char> {
    base + url + md_suffix()
}

/// Does `s` start with the literal prefix `prefix`?
pub(crate) fn str_starts_with(s: &str, prefix: &str) -> (r: bool)
    ensures
        r == prefix@.is_prefix_of(s@),
{
    let n = s.unicode_len();
    let p = prefix.unicode_len();
    if p > n {
        return false;
    }
    let mut i: usize = 0;
    while i < p
        invariant
            n == s@.len(),
            p == prefix@.len(),
            p <= n,
            0 <= i <= p,
            forall|j: int| 0 <= j < i ==> s@[j] == prefix@[j],
        decreases p - i,
    {
        if s.get_char(i) != prefix.get_char(i) {
            proof {
                if prefix@.is_prefix_of(s@) {
                    assert(prefix@[i as int] == s@.subrange(0, p as int)[i as int]);
                }
            }
            return false;
        }
        i += 1;
    }
    proof {
        assert(prefix@ =~= s@.subrange(0, p as int));
    }
    true
}

/// Does `s` end with the literal suffix `.md`?
pub fn str_has_md_suffix(s: &str) -> (r: bool)
    ensures
        r == has_md_suffix(s@),
{
    proof {
        reveal_strlit(".md");
    }
    let n = s.unicode_len();
    if n < 3 {
        return false;
    }
    let r = s.get_char(n - 3) == '.' && s.get_char(n - 2) == 'm' && s.get_char(n - 1) == 'd';
    proof {
        let tail = s@.subrange(n - 3, n as int);
        if r {
            assert(md_suffix() =~= tail);
        } else {
            if has_md_suffix(s@) {
                assert(tail[0] == '.' && tail[1] == 'm' && tail[2] == 'd');
            }
        }
    }
    r
}

/// Derive the URL for the file at `path` below the root `base_path`:
/// strip `base_path` as a literal prefix and `.md` as a literal suffix,
/// each only where present.
pub fn convert_path_to_url(base_path: &str, path: &str) -> (r: String)
    ensures
        r@ == path_to_url(base_path@, path@),
{
    let n = path.unicode_len();
    let rest: &str = if str_starts_with(path, base_path) {
        let b = base_path.unicode_len();
        path.substring_char(b, n)
    } else {
        path
    };
    let m = rest.unicode_len();
    let out: &str = if str_has_md_suffix(rest) {
        proof {
            reveal_strlit(".md");
        }
        rest.substring_char(0, m - 3)
    } else {
        rest
    };
    String::from_str(out)
}

/// Rebuild the file path behind `url` below the root `base_path` by
/// literal concatenation.
pub fn convert_url_to_path(base_path: &str, url: &str) -> (r: String)
    ensures
        r@ == url_to_path(base_path@, url@),
{
    let mut path = String::new();
    path.append(base_path);
    path.append(url);
    path.append(".md");
    proof {
        assert(path@ =~= base_path@ + url@ + md_suffix());
    }
    path
}

/// Law: the codec round-trips.  For any path `p` that lies below `base`
/// and names a markdown file — `base` is a literal prefix, `.md` a
/// literal suffix, and the suffix lies beyond the prefix — converting the
/// path to a URL and the URL back to a path returns `p` unchanged.
pub proof fn lemma_path_url_round_trip(base: Seq<char>, p: Seq<char>)
    requires
        base.is_prefix_of(p),
        has_md_suffix(p),
        p.len() >= base.len() + md_suffix().len(),
    ensures
        url_to_path(base, path_to_url(base, p)) == p,
{
    let rest = p.subrange(base.len() as int, p.len() as int);
    assert(md_suffix() =~= rest.subrange(rest.len() - md_suffix().len(), rest.len() as int));
    assert(url_to_path(base, path_to_url(base, p)) =~= p);
}

} // verus!
