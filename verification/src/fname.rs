//! The file-name model: splitting a name into stem and extension, and
//! assembling names back from their parts.
//!
//! A name splits at its last dot, except that a dot in the leading position
//! does not count (so a dotfile such as `.config` has no extension).

use vstd::prelude::*;

verus! {

/// The index of the last dot of `f` that is eligible to start an extension
/// (any position but the first), or -1 if there is none.
pub open spec fn rlast_dot(f: Seq<char>) -> int
    decreases f.len(),
{
    if f.len() <= 1 {
        -1
    } else if f.last() == '.' {
        f.len() - 1
    } else {
        rlast_dot(f.drop_last())
    }
}

/// `rlast_dot` finds the rightmost dot past the first position, if any.
pub proof fn lemma_rlast_dot(f: Seq<char>)
    ensures
        rlast_dot(f) == -1 || rlast_dot(f) >= 1,
        rlast_dot(f) == -1 ==> forall|j: int| 1 <= j < f.len() ==> (#[trigger] f[j]) != '.',
        rlast_dot(f) >= 0 ==> 1 <= rlast_dot(f) < f.len(),
        rlast_dot(f) >= 0 ==> f[rlast_dot(f)] == '.',
        rlast_dot(f) >= 0 ==> forall|j: int|
            rlast_dot(f) < j < f.len() ==> (#[trigger] f[j]) != '.',
    decreases f.len(),
{
    if f.len() <= 1 {
    } else if f.last() == '.' {
    } else {
        let g = f.drop_last();
        lemma_rlast_dot(g);
        assert(rlast_dot(f) == rlast_dot(g));
        if rlast_dot(f) == -1 {
            assert forall|j: int| 1 <= j < f.len() implies (#[trigger] f[j]) != '.' by {
                if j < f.len() - 1 {
                    assert(g[j] != '.');
                    assert(g[j] == f[j]);
                } else {
                    assert(f[j] == f.last());
                }
            }
        } else {
            assert(f[rlast_dot(f)] == g[rlast_dot(g)]);
            assert forall|j: int| rlast_dot(f) < j < f.len() implies (#[trigger] f[j]) != '.' by {
                if j < f.len() - 1 {
                    assert(g[j] != '.');
                    assert(g[j] == f[j]);
                } else {
                    assert(f[j] == f.last());
                }
            }
        }
    }
}

/// The extension of a file name: what follows the split dot, possibly empty;
/// `None` when the name has no split dot.
pub open spec fn ext_v(f: Seq<char>) -> Option<Seq<char>> {
    if rlast_dot(f) >= 0 {
        Some(f.subrange(rlast_dot(f) + 1, f.len() as int))
    } else {
        None
    }
}

/// The stem of a file name: what precedes the split dot, or the whole name
/// when there is none.
pub open spec fn stem_v(f: Seq<char>) -> Seq<char> {
    if rlast_dot(f) >= 0 {
        f.subrange(0, rlast_dot(f))
    } else {
        f
    }
}

/// A name rebuilt from a stem and an extension: `stem.ext`, or just the stem
/// when the extension is empty.
pub open spec fn make_name_v(stem: Seq<char>, ext: Seq<char>) -> Seq<char> {
    if ext.len() == 0 {
        stem
    } else {
        stem + seq!['.'] + ext
    }
}

/// Finds the split dot of a name, executable form.
pub fn find_split_dot(name: &str) -> (r: Option<usize>)
    ensures
        match r {
            Some(k) => k == rlast_dot(name@) && 1 <= k < name@.len(),
            None => rlast_dot(name@) == -1,
        },
{
    let n = name.unicode_len();
    let mut i: usize = n;
    while i > 1
        invariant
            i <= n,
            n == name@.len(),
            forall|j: int| i <= j < n ==> (#[trigger] name@[j]) != '.',
        decreases i,
    {
        if name.get_char(i - 1) == '.' {
            proof {
                lemma_rlast_dot(name@);
                let idx = rlast_dot(name@);
                assert(name@[i - 1] == '.');
                if idx == -1 {
                    assert(name@[i - 1] != '.');
                } else if idx > i - 1 {
                    assert(name@[idx] != '.');
                } else if idx < i - 1 {
                    assert(name@[i - 1] != '.');
                }
            }
            return Some(i - 1);
        }
        i = i - 1;
    }
    proof {
        lemma_rlast_dot(name@);
        if rlast_dot(name@) >= 0 {
            assert(name@[rlast_dot(name@)] != '.');
        }
    }
    None
}

/// The extension of a file name, executable form.
pub fn name_ext(name: &str) -> (r: Option<String>)
    ensures
        r.is_some() == ext_v(name@).is_some(),
        r.is_some() ==> r.unwrap()@ == ext_v(name@).unwrap(),
{
    match find_split_dot(name) {
        Some(k) => {
            let n = name.unicode_len();
            let e = name.substring_char(k + 1, n);
            Some(e.to_owned())
        },
        None => None,
    }
}

/// The stem of a file name, executable form.
pub fn name_stem(name: &str) -> (r: String)
    ensures
        r@ == stem_v(name@),
{
    match find_split_dot(name) {
        Some(k) => {
            let s = name.substring_char(0, k);
            s.to_owned()
        },
        None => name.to_owned(),
    }
}

/// Rebuilds a name from a stem and an extension, executable form.
pub fn make_name(stem: &str, ext: &str) -> (r: String)
    ensures
        r@ == make_name_v(stem@, ext@),
{
    if ext.unicode_len() == 0 {
        stem.to_owned()
    } else {
        let mut r = stem.to_owned();
        crate::strutil::push_char(&mut r, '.');
        r.append(ext);
        assert(r@ =~= make_name_v(stem@, ext@));
        r
    }
}

} // verus!
