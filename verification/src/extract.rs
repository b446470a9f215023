//! Mapping copy-pasted catbox.moe URLs back to the bare file or album
//! identifiers that the API expects; anything else passes through
//! unchanged.

use crate::strutil::{last_segment, segment_after_last_slash};
use vstd::prelude::*;

verus! {

/// Whether `c` fits one pattern character: a `.` in the pattern stands for
/// any character but a newline, every other character for itself.
pub open spec fn wild_char_match(c: char, p: char) -> bool {
    if p == '.' {
        c != '\n'
    } else {
        c == p
    }
}

/// Whether `s` has exactly the shape of `pat`, `.` taken as a wildcard.
pub open spec fn wild_eq(s: Seq<char>, pat: Seq<char>) -> bool {
    s.len() == pat.len() && forall|i: int| 0 <= i < pat.len() ==> wild_char_match(s[i], pat[i])
}

/// Whether `s` begins with the shape of `pat` and goes on with at least
/// one character that is not a newline.
pub open spec fn wild_prefix_plus(s: Seq<char>, pat: Seq<char>) -> bool {
    &&& s.len() > pat.len()
    &&& wild_eq(s.take(pat.len() as int), pat)
    &&& s[pat.len() as int] != '\n'
}

/// The host-and-path shape in front of a catbox file identifier,
/// `files.catbox.moe/`, as the regular expression written for it reads:
/// its two dots match any character but a newline.
pub open spec fn file_host_pattern() -> Seq<char> {
    seq!['f', 'i', 'l', 'e', 's', '.', 'c', 'a', 't', 'b', 'o', 'x', '.', 'm', 'o', 'e', '/']
}

/// The host-and-path shape in front of a catbox album identifier,
/// `catbox.moe/c/`, its dot again a wildcard.
pub open spec fn album_host_pattern() -> Seq<char> {
    seq!['c', 'a', 't', 'b', 'o', 'x', '.', 'm', 'o', 'e', '/', 'c', '/']
}

/// The scheme prefix `http://`.
pub open spec fn http_prefix() -> Seq<char> {
    seq!['h', 't', 't', 'p', ':', '/', '/']
}

/// The scheme prefix `https://`.
pub open spec fn https_prefix() -> Seq<char> {
    seq!['h', 't', 't', 'p', 's', ':', '/', '/']
}

/// Whether `s` matches `^(http[s]?://)?<pat>.+`: the host shape, with or
/// without a scheme in front, followed by at least one more character.
pub open spec fn scheme_host_match(s: Seq<char>, pat: Seq<char>) -> bool {
    ||| wild_prefix_plus(s, pat)
    ||| (s.len() >= 7 && s.take(7) == http_prefix() && wild_prefix_plus(s.skip(7), pat))
    ||| (s.len() >= 8 && s.take(8) == https_prefix() && wild_prefix_plus(s.skip(8), pat))
}

/// Whether `s` points at a hosted file: `^(http[s]?://)?files.catbox.moe/.+`.
pub open spec fn spec_is_file_url(s: Seq<char>) -> bool {
    scheme_host_match(s, file_host_pattern())
}

/// Whether `s` points at an album: `^(http[s]?://)?catbox.moe/c/.+`.
pub open spec fn spec_is_album_url(s: Seq<char>) -> bool {
    scheme_host_match(s, album_host_pattern())
}

/// Relies on `regex::Regex::is_match` with the fixed anchored pattern
/// `^(http[s]?://)?files.catbox.moe/.+`: true exactly when the string
/// starts with the host shape — optionally after a scheme — followed by at
/// least one character, each `.` and the `.+` matching any character but a
/// newline. Compiling this fixed, valid pattern cannot fail.
#[verifier::external_body]
fn matches_file_url(s: &str) -> (r: bool)
    ensures
        r == spec_is_file_url(s@),
{
    regex::Regex::new(r"^(http[s]?://)?files.catbox.moe/.+").unwrap().is_match(s)
}

/// Relies on `regex::Regex::is_match` with the fixed anchored pattern
/// `^(http[s]?://)?catbox.moe/c/.+`, read exactly as for file URLs.
#[verifier::external_body]
fn matches_album_url(s: &str) -> (r: bool)
    ensures
        r == spec_is_album_url(s@),
{
    regex::Regex::new(r"^(http[s]?://)?catbox.moe/c/.+").unwrap().is_match(s)
}

/// The bare file identifier: the last path segment of a catbox file URL,
/// any other string unchanged.
pub open spec fn spec_image_name(s: Seq<char>) -> Seq<char> {
    if spec_is_file_url(s) {
        last_segment(s)
    } else {
        s
    }
}

/// The bare album identifier: the last path segment of a catbox album URL,
/// any other string unchanged.
pub open spec fn spec_album_short(s: Seq<char>) -> Seq<char> {
    if spec_is_album_url(s) {
        last_segment(s)
    } else {
        s
    }
}

/// Map a catbox file URL to the bare file name it ends in; any other
/// string — in particular a bare file name — comes back unchanged.
pub fn catbox_url_to_image_name(url: &str) -> (r: String)
    ensures
        r@ == spec_image_name(url@),
{
    if matches_file_url(url) {
        segment_after_last_slash(url)
    } else {
        url.to_owned()
    }
}

/// Map a catbox album URL to the bare album identifier it ends in; any
/// other string comes back unchanged.
pub fn album_url_to_short(url: &str) -> (r: String)
    ensures
        r@ == spec_album_short(url@),
{
    if matches_album_url(url) {
        segment_after_last_slash(url)
    } else {
        url.to_owned()
    }
}

/// The file identifiers of a whole batch, each mapped as
/// [`spec_image_name`] maps it.
pub open spec fn spec_image_names(files: Seq<Seq<char>>) -> Seq<Seq<char>> {
    files.map_values(|f: Seq<char>| spec_image_name(f))
}

/// Map every item of a batch to its bare file identifier.
pub fn extract_image_names(files: &Vec<String>) -> (r: Vec<String>)
    ensures
        r.deep_view() == spec_image_names(files.deep_view()),
{
    let mut r: Vec<String> = Vec::new();
    let mut i: usize = 0;
    proof {
        assert(r.deep_view() =~= spec_image_names(files.deep_view().take(0)));
    }
    while i < files.len()
        invariant
            i <= files.len(),
            r.deep_view() == spec_image_names(files.deep_view().take(i as int)),
        decreases files.len() - i,
    {
        let ghost old_r = r.deep_view();
        let name = catbox_url_to_image_name(files[i].as_str());
        r.push(name);
        proof {
            assert(files.deep_view()[i as int] == files@[i as int]@);
            assert(r.deep_view() =~= old_r.push(spec_image_name(files.deep_view()[i as int])));
            assert(spec_image_names(files.deep_view().take(i + 1)) =~= spec_image_names(
                files.deep_view().take(i as int),
            ).push(spec_image_name(files.deep_view()[i as int])));
        }
        i = i + 1;
    }
    proof {
        assert(files.deep_view().take(files.len() as int) =~= files.deep_view());
    }
    r
}

} // verus!
