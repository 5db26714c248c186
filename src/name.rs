use vstd::prelude::*;

use crate::error::{ZfsError, ZfsErrorView};
use crate::text::{
    all_white_space, ascii_alnum, chars_of, is_ascii_alnum, is_white_space, lemma_trim_padded,
    string_of, trim, trim_bounds,
};

verus! {

/// The symbols that a dataset name may hold besides ASCII letters and digits.
pub open spec fn is_name_symbol(c: char) -> bool {
    c == '-' || c == '_' || c == '.' || c == ':'
}

/// The characters that a segment of a dataset name may hold.
pub open spec fn is_name_char(c: char) -> bool {
    is_ascii_alnum(c) || is_name_symbol(c)
}

/// Whether a segment of `t` starts at index `i`: at the very beginning, or right after a `/`.
pub open spec fn segment_start(t: Seq<char>, i: int) -> bool {
    i == 0 || (0 < i <= t.len() && t[i - 1] == '/')
}

/// Whether `t` is an acceptable dataset name: `/`-separated segments, each non-empty, made of
/// ASCII letters, digits and `- _ . :`, and starting with a letter or a digit.
pub open spec fn valid_dataset_name(t: Seq<char>) -> bool {
    &&& forall|i: int| 0 <= i < t.len() ==> t[i] == '/' || is_name_char(#[trigger] t[i])
    &&& forall|i: int| #[trigger]
        segment_start(t, i) ==> i < t.len() && is_ascii_alnum(t[i])
}

fn name_symbol(c: char) -> (r: bool)
    ensures
        r == is_name_symbol(c),
{
    c == '-' || c == '_' || c == '.' || c == ':'
}

/// Trims white space from both ends of `zfs_dataset` and checks that the rest is an
/// acceptable dataset name (see [`valid_dataset_name`]). The check keeps anything that a
/// shell or a command line could read as more than one plain word out of a name.
pub fn check_and_sanitize_zfs_dataset_name(zfs_dataset: &str) -> (r: Result<String, ZfsError>)
    ensures
        match r {
            Ok(t) => valid_dataset_name(trim(zfs_dataset@)) && t@ == trim(zfs_dataset@),
            Err(e) => !valid_dataset_name(trim(zfs_dataset@)) && e@
                == ZfsErrorView::DatasetNameIsInvalid(trim(zfs_dataset@)),
        },
{
    let v = chars_of(zfs_dataset);
    let (lo, hi) = trim_bounds(&v);
    let ghost t = v@.subrange(lo as int, hi as int);
    let mut ok = lo < hi && v[hi - 1] != '/';
    if !ok {
        if lo < hi {
            assert(segment_start(t, t.len() as int));
        } else {
            assert(segment_start(t, 0));
        }
    }
    let mut i: usize = lo;
    while i < hi
        invariant
            lo <= i <= hi <= v.len(),
            t == v@.subrange(lo as int, hi as int),
            ok ==> t.len() > 0 && t.last() != '/',
            ok ==> forall|k: int| 0 <= k < i - lo ==> t[k] == '/' || is_name_char(t[k]),
            ok ==> forall|k: int| 0 <= k < i - lo && segment_start(t, k) ==> is_ascii_alnum(t[k]),
            !ok ==> !valid_dataset_name(t),
        decreases hi - i,
    {
        let c = v[i];
        let ghost k = (i - lo) as int;
        assert(t[k] == c);
        if !(c == '/' || ascii_alnum(c) || name_symbol(c)) {
            ok = false;
        }
        if i == lo || v[i - 1] == '/' {
            assert(segment_start(t, k));
            if !ascii_alnum(c) {
                ok = false;
            }
        }
        i = i + 1;
    }
    if ok {
        assert forall|k: int| #[trigger] segment_start(t, k) implies k < t.len() && is_ascii_alnum(
            t[k],
        ) by {
            if k == t.len() {
                assert(t[k - 1] == t.last());
            }
        }
    } else {
        assert(!valid_dataset_name(t));
    }
    let s = string_of(&v, lo, hi);
    if ok {
        Ok(s)
    } else {
        Err(ZfsError::DatasetNameIsInvalid(s))
    }
}

/// Whether `t` holds a white-space character.
pub open spec fn has_white_space(t: Seq<char>) -> bool {
    exists|i: int| 0 <= i < t.len() && is_white_space(#[trigger] t[i])
}

/// Whether `t` holds a character that is neither a separator nor allowed in a segment.
pub open spec fn has_disallowed_char(t: Seq<char>) -> bool {
    exists|i: int| 0 <= i < t.len() && #[trigger] t[i] != '/' && !is_name_char(t[i])
}

/// Whether some `/`-separated segment of `t` is empty.
pub open spec fn has_empty_segment(t: Seq<char>) -> bool {
    exists|i: int| #[trigger] segment_start(t, i) && (i == t.len() || t[i] == '/')
}

/// Whether some `/`-separated segment of `t` starts with one of the allowed symbols.
pub open spec fn has_leading_symbol(t: Seq<char>) -> bool {
    exists|i: int| #[trigger] segment_start(t, i) && i < t.len() && is_name_symbol(t[i])
}

/// A name that, once trimmed, still holds white space, a disallowed character, an empty
/// segment or a segment led by a symbol is rejected.
pub proof fn lemma_malformed_names_rejected(s: Seq<char>)
    requires
        has_white_space(trim(s)) || has_disallowed_char(trim(s)) || has_empty_segment(trim(s))
            || has_leading_symbol(trim(s)),
    ensures
        !valid_dataset_name(trim(s)),
{
    let t = trim(s);
    if has_white_space(t) {
        let i = choose|i: int| 0 <= i < t.len() && is_white_space(#[trigger] t[i]);
        assert(!(t[i] == '/' || is_name_char(t[i])));
    } else if has_disallowed_char(t) {
        let i = choose|i: int| 0 <= i < t.len() && #[trigger] t[i] != '/' && !is_name_char(t[i]);
        assert(!(t[i] == '/' || is_name_char(t[i])));
    } else if has_empty_segment(t) {
        let i = choose|i: int| #[trigger] segment_start(t, i) && (i == t.len() || t[i] == '/');
        assert(!(i < t.len() && is_ascii_alnum(t[i])));
    } else {
        let i = choose|i: int| #[trigger] segment_start(t, i) && i < t.len() && is_name_symbol(t[i]);
        assert(!is_ascii_alnum(t[i]));
    }
}

/// A name made of allowed characters and `/`, whose segments are all non-empty and start with
/// a letter or a digit, is accepted, and white space put around it changes nothing: trimming
/// gives the name back.
pub proof fn lemma_well_formed_names_accepted(s: Seq<char>, before: Seq<char>, after: Seq<char>)
    requires
        forall|i: int| 0 <= i < s.len() ==> s[i] == '/' || is_name_char(#[trigger] s[i]),
        forall|i: int| #[trigger] segment_start(s, i) ==> i < s.len() && is_ascii_alnum(s[i]),
        all_white_space(before),
        all_white_space(after),
    ensures
        valid_dataset_name(trim(before + s + after)),
        trim(before + s + after) == s,
        trim(s) == s,
{
    assert(segment_start(s, 0));
    let n = s.len() as int;
    if s.last() == '/' {
        assert(segment_start(s, n));
    }
    assert(s[n - 1] == s.last());
    lemma_trim_padded(before, s, after);
    lemma_trim_padded(seq![], s, seq![]);
    assert(seq![] + s + seq![] =~= s);
}

} // verus!
