//! Helper functions for handling file paths.

use crate::strutil::{last_segment, lemma_last_segment_suffix};
use vstd::prelude::*;
use vstd::string::*;

verus! {

/// `s` with everything std's path parsing ignores at the end removed:
/// trailing `/` separators and trailing `.` components.
pub open spec fn strip_path_tail(s: Seq<char>) -> Seq<char>
    decreases s.len(),
{
    if s.len() == 0 {
        s
    } else if s.last() == '/' {
        strip_path_tail(s.drop_last())
    } else if s.last() == '.' && (s.len() == 1 || s[s.len() - 2] == '/') {
        strip_path_tail(s.drop_last())
    } else {
        s
    }
}

/// The name std's path parsing gives a file: the final component of the
/// path, trailing separators and `.` components ignored — `some/dir/`
/// names `dir` and `a/b/.` names `b`. Empty when the path has no final
/// component: when it is empty, a root, or ends in a `..` component.
pub open spec fn spec_file_name(path: Seq<char>) -> Seq<char> {
    let seg = last_segment(strip_path_tail(path));
    if seg == seq!['.', '.'] {
        Seq::empty()
    } else {
        seg
    }
}

/// Strip off the directory and return the file's name and extension, as
/// std names the final path component: trailing `/` separators and `.`
/// components are ignored, and a path with no final component — empty, a
/// root, or ending in `..` — yields the empty string.
pub fn file_name(file_path: &str) -> (r: String)
    ensures
        r@ == spec_file_name(file_path@),
{
    let n = file_path.unicode_len();
    let mut e = n;
    proof {
        assert(file_path@.take(n as int) =~= file_path@);
    }
    loop
        invariant
            e <= n,
            n == file_path@.len(),
            strip_path_tail(file_path@) == strip_path_tail(file_path@.take(e as int)),
        ensures
            e <= file_path@.len(),
            strip_path_tail(file_path@) == file_path@.take(e as int),
        decreases e,
    {
        if e == 0 {
            proof {
                assert(file_path@.take(0) =~= Seq::<char>::empty());
            }
            break;
        }
        let c = file_path.get_char(e - 1);
        if !(c == '/' || (c == '.' && (e == 1 || file_path.get_char(e - 2) == '/'))) {
            break;
        }
        proof {
            assert(file_path@.take(e as int).drop_last() =~= file_path@.take(e - 1));
        }
        e = e - 1;
    }
    let mut k = e;
    while k > 0 && file_path.get_char(k - 1) != '/'
        invariant
            k <= e <= n,
            n == file_path@.len(),
            forall|j: int| k <= j < e ==> file_path@[j] != '/',
        decreases k,
    {
        k = k - 1;
    }
    let ghost stem = file_path@.take(e as int);
    let ghost seg = stem.subrange(k as int, e as int);
    proof {
        lemma_last_segment_suffix(stem, k as int);
        assert(seg =~= file_path@.subrange(k as int, e as int));
    }
    if e - k == 2 && file_path.get_char(k) == '.' && file_path.get_char(k + 1) == '.' {
        proof {
            assert(seg =~= seq!['.', '.']);
        }
        String::new()
    } else {
        proof {
            if seg == seq!['.', '.'] {
                assert(seg.len() == 2);
                assert(file_path@[k as int] == '.');
                assert(file_path@[k + 1] == '.');
            }
        }
        let seg_str = file_path.substring_char(k, e);
        seg_str.to_owned()
    }
}

} // verus!
