//! File-name extension handling on plain strings.
use vstd::prelude::*;

verus! {

/// The extension of the file name at the end of `s`: the part after the last
/// `'.'` of the final path component, provided that dot is not the component's
/// leading character. Mirrors the usual file-system convention: `"a.mp3"` has
/// extension `"mp3"`, `".profile"` and `"plain"` have none, `"a."` has `""`.
pub open spec fn path_ext(s: Seq<char>) -> Option<Seq<char>> {
    let start = match s.index_of_last('/') {
        Some(i) => i + 1,
        None => 0,
    };
    match s.index_of_last('.') {
        Some(d) => if d > start {
            Some(s.skip(d + 1))
        } else {
            None
        },
        None => None,
    }
}

/// The extension of `s`, or the empty sequence when it has none.
pub open spec fn ext_or_empty(s: Seq<char>) -> Seq<char> {
    match path_ext(s) {
        Some(e) => e,
        None => Seq::empty(),
    }
}

proof fn lemma_index_of_last_at(s: Seq<char>, c: char, i: int)
    requires
        0 <= i < s.len(),
        s[i] == c,
        forall|j: int| i < j < s.len() ==> s[j] != c,
    ensures
        s.index_of_last(c) == Some(i),
{
    assert(s.contains(c)) by {
        assert(0 <= i < s.len() && s[i] == c);
    }
    s.index_of_last_ensures(c);
}

proof fn lemma_index_of_last_none(s: Seq<char>, c: char)
    requires
        forall|j: int| 0 <= j < s.len() ==> s[j] != c,
    ensures
        s.index_of_last(c) is None,
{
    s.index_of_last_ensures(c);
}

/// Finds the last occurrence of `c` in `path`, scanning from the end.
fn rfind_char(path: &str, c: char) -> (r: Option<usize>)
    ensures
        match r {
            Some(i) => path@.index_of_last(c) == Some(i as int),
            None => path@.index_of_last(c) is None,
        },
{
    let n = path.unicode_len();
    let mut idx: usize = n;
    while idx > 0
        invariant
            idx <= n,
            n == path@.len(),
            forall|j: int| idx <= j < n ==> path@[j] != c,
        decreases idx,
    {
        idx = idx - 1;
        let ch = path.get_char(idx);
        if ch == c {
            proof {
                lemma_index_of_last_at(path@, c, idx as int);
            }
            return Some(idx);
        }
    }
    proof {
        lemma_index_of_last_none(path@, c);
    }
    None
}

/// The extension of the file name of `path`, in the sense of [`path_ext`].
pub fn extension_of(path: &str) -> (r: Option<String>)
    ensures
        match r {
            Some(e) => path_ext(path@) == Some(e@),
            None => path_ext(path@) is None,
        },
{
    let n = path.unicode_len();
    let dot = rfind_char(path, '.');
    let slash = rfind_char(path, '/');
    proof {
        path@.index_of_last_ensures('.');
        path@.index_of_last_ensures('/');
    }
    let start: usize = match slash {
        Some(i) => i + 1,
        None => 0,
    };
    match dot {
        Some(d) => {
            if d > start {
                let ext = path.substring_char(d + 1, n);
                proof {
                    assert(path@.subrange(d + 1, n as int) =~= path@.skip(d + 1));
                }
                Some(ext.to_owned())
            } else {
                None
            }
        },
        None => None,
    }
}

} // verus!
