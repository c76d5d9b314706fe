//! Collision avoidance: resolves an output path to a name that no existing
//! destination path uses, by inserting the smallest numeric suffix
//! (`name.ext`, `name-1.ext`, `name-2.ext`, ...) that is still free.

use vstd::prelude::*;

use crate::errors::ErrorKind;
use crate::fname::ext_v;
use crate::path::{path_ext_v, with_file_name_v, FsPath};
use crate::pathset::PathSet;
use crate::strutil::{dec_string, dec_v, lemma_dec_injective, push_char};

verus! {

/// The file name of the `k`-th collision candidate: `{stem}-{k}.{ext}`.
pub open spec fn candidate_name_v(stem: Seq<char>, ext: Seq<char>, k: nat) -> Seq<char> {
    stem + seq!['-'] + dec_v(k) + seq!['.'] + ext
}

/// The `k`-th collision candidate for a path: its file name replaced by
/// `{stem}-{k}.{ext}` built from its own stem and extension.
pub open spec fn candidate_v(p: Seq<Seq<char>>, k: nat) -> Seq<Seq<char>> {
    with_file_name_v(
        p,
        candidate_name_v(crate::fname::stem_v(p.last()), ext_v(p.last()).unwrap(), k),
    )
}

/// Whether `k` is the position where the suffix chain first leaves the
/// existing paths: every earlier candidate collides, candidate `k` is free.
pub open spec fn first_free_at(p: Seq<Seq<char>>, s: Seq<Seq<Seq<char>>>, k: nat) -> bool {
    k >= 1 && !s.contains(candidate_v(p, k)) && forall|j: nat|
        1 <= j < k ==> s.contains(#[trigger] candidate_v(p, j))
}

/// The position where the suffix chain first leaves the existing paths.
pub open spec fn least_free_k(p: Seq<Seq<char>>, s: Seq<Seq<Seq<char>>>) -> nat {
    choose|k: nat| first_free_at(p, s, k)
}

/// What collision avoidance returns: a free path unchanged; a colliding path
/// without a file name or without an extension fails; otherwise the first
/// free candidate of the suffix chain.
pub open spec fn avoid_v(p: Seq<Seq<char>>, s: Seq<Seq<Seq<char>>>) -> Result<
    Seq<Seq<char>>,
    ErrorKind,
> {
    if !s.contains(p) {
        Ok(p)
    } else if p.len() == 0 {
        Err(ErrorKind::MissingFileName)
    } else if path_ext_v(p).is_none() {
        Err(ErrorKind::MissingExtension)
    } else {
        Ok(candidate_v(p, least_free_k(p, s)))
    }
}

/// Candidate names with different suffix numbers differ.
proof fn lemma_candidate_name_injective(stem: Seq<char>, ext: Seq<char>, k1: nat, k2: nat)
    requires
        candidate_name_v(stem, ext, k1) == candidate_name_v(stem, ext, k2),
    ensures
        k1 == k2,
{
    let n1 = candidate_name_v(stem, ext, k1);
    let n2 = candidate_name_v(stem, ext, k2);
    assert(n1.len() == stem.len() + 1 + dec_v(k1).len() + 1 + ext.len());
    assert(n2.len() == stem.len() + 1 + dec_v(k2).len() + 1 + ext.len());
    assert(dec_v(k1).len() == dec_v(k2).len());
    let a = stem.len() + 1;
    let b = a + dec_v(k1).len();
    assert(n1.subrange(a as int, b as int) =~= dec_v(k1));
    assert(n2.subrange(a as int, b as int) =~= dec_v(k2));
    lemma_dec_injective(k1, k2);
}

/// Collision candidates with different suffix numbers differ.
proof fn lemma_candidate_injective(p: Seq<Seq<char>>, k1: nat, k2: nat)
    requires
        p.len() > 0,
        candidate_v(p, k1) == candidate_v(p, k2),
    ensures
        k1 == k2,
{
    let c1 = candidate_v(p, k1);
    let c2 = candidate_v(p, k2);
    assert(c1[p.len() - 1] == candidate_name_v(
        crate::fname::stem_v(p.last()),
        ext_v(p.last()).unwrap(),
        k1,
    ));
    assert(c2[p.len() - 1] == candidate_name_v(
        crate::fname::stem_v(p.last()),
        ext_v(p.last()).unwrap(),
        k2,
    ));
    lemma_candidate_name_injective(
        crate::fname::stem_v(p.last()),
        ext_v(p.last()).unwrap(),
        k1,
        k2,
    );
}

/// There is exactly one first free position.
pub proof fn lemma_first_free_unique(
    p: Seq<Seq<char>>,
    s: Seq<Seq<Seq<char>>>,
    k1: nat,
    k2: nat,
)
    requires
        first_free_at(p, s, k1),
        first_free_at(p, s, k2),
    ensures
        k1 == k2,
{
    if k1 < k2 {
        assert(s.contains(candidate_v(p, k1)));
    } else if k2 < k1 {
        assert(s.contains(candidate_v(p, k2)));
    }
}

/// Searches upward from position `k` for a free suffix position, carrying
/// the candidates already found to collide: they are distinct and all lie
/// among the finitely many existing paths, so the search bottoms out.
proof fn lemma_first_free_from(
    p: Seq<Seq<char>>,
    s: Seq<Seq<Seq<char>>>,
    k: nat,
    seen: Set<Seq<Seq<char>>>,
) -> (r: nat)
    requires
        p.len() > 0,
        k >= 1,
        seen.finite(),
        seen.len() == k - 1,
        seen.subset_of(s.to_set()),
        forall|q: Seq<Seq<char>>|
            seen.contains(q) <==> exists|j: nat| 1 <= j < k && q == #[trigger] candidate_v(p, j),
        forall|j: nat| 1 <= j < k ==> s.contains(#[trigger] candidate_v(p, j)),
    ensures
        first_free_at(p, s, r),
    decreases s.to_set().len() - seen.len(),
{
    broadcast use vstd::seq_lib::seq_to_set_is_finite;

    if !s.contains(candidate_v(p, k)) {
        assert(first_free_at(p, s, k));
        k
    } else {
        let cand = candidate_v(p, k);
        assert(!seen.contains(cand)) by {
            if seen.contains(cand) {
                let j = choose|j: nat| 1 <= j < k && cand == candidate_v(p, j);
                lemma_candidate_injective(p, j, k);
            }
        }
        assert(s.to_set().contains(cand));
        let seen2 = seen.insert(cand);
        assert(seen2.len() == k);
        vstd::set_lib::lemma_len_subset(seen2, s.to_set());
        assert forall|q: Seq<Seq<char>>| seen2.contains(q) implies exists|j: nat|
            1 <= j < k + 1 && q == #[trigger] candidate_v(p, j) by {
            if q == cand {
                assert(1 <= (k as nat) < k + 1 && q == candidate_v(p, k));
            }
        }
        lemma_first_free_from(p, s, k + 1, seen2)
    }
}

/// Collision avoidance never hands back an existing path: a free input is
/// returned because it is free, and a colliding input is replaced by a
/// suffix candidate chosen not to collide — no destination file is ever
/// overwritten.
pub proof fn lemma_avoid_returns_fresh(p: Seq<Seq<char>>, s: Seq<Seq<Seq<char>>>)
    ensures
        avoid_v(p, s) matches Ok(q) ==> !s.contains(q),
{
    if s.contains(p) && p.len() > 0 && path_ext_v(p).is_some() {
        let w = lemma_first_free_from(p, s, 1, Set::empty());
        assert(first_free_at(p, s, w));
        let least = least_free_k(p, s);
        assert(first_free_at(p, s, least));
    }
}

/// Resolves `path` against the paths that already exist: an unused path is
/// returned unchanged; a used one gets the smallest numeric suffix
/// (`name-1.ext`, `name-2.ext`, ...) whose candidate is unused. A used path
/// without a file name or without an extension cannot take a suffix and
/// fails.
pub fn exists_plus_one(path: &FsPath, existing: &PathSet) -> (r: Result<FsPath, ErrorKind>)
    ensures
        r matches Ok(q) ==> (avoid_v(path@, existing@) matches Ok(qv) && q@ == qv),
        r matches Err(e) ==> avoid_v(path@, existing@) == Err::<Seq<Seq<char>>, ErrorKind>(e),
        r matches Ok(q) ==> !existing@.contains(q@),
{
    if !existing.contains(path) {
        return Ok(path.clone());
    }
    let stem = match path.file_stem() {
        Some(s) => s,
        None => {
            return Err(ErrorKind::MissingFileName);
        },
    };
    let ext = match path.extension() {
        Some(e) => e,
        None => {
            return Err(ErrorKind::MissingExtension);
        },
    };
    let ghost s = existing@;
    let ghost pv = path@;
    let cap: usize = existing.len();
    let mut k: u128 = 1;
    let ghost mut seen = Set::<Seq<Seq<char>>>::empty();
    proof {
        broadcast use vstd::seq_lib::seq_to_set_is_finite;

        assert(s.to_set().finite());
    }
    loop
        invariant
            1 <= k,
            pv == path@,
            s == existing@,
            s.len() == cap,
            s.contains(pv),
            pv.len() > 0,
            stem@ == crate::fname::stem_v(pv.last()),
            path_ext_v(pv) matches Some(e) && e == ext@,
            seen.finite(),
            seen.len() == k - 1,
            seen.subset_of(s.to_set()),
            forall|q: Seq<Seq<char>>|
                seen.contains(q) <==> exists|j: nat|
                    1 <= j < k && q == #[trigger] candidate_v(pv, j),
            forall|j: nat| 1 <= j < k ==> s.contains(#[trigger] candidate_v(pv, j)),
        decreases s.to_set().len() - seen.len(),
    {
        let mut nm = stem.clone();
        push_char(&mut nm, '-');
        let digits = dec_string(k);
        nm.append(digits.as_str());
        push_char(&mut nm, '.');
        nm.append(ext.as_str());
        proof {
            assert(nm@ =~= candidate_name_v(stem@, ext@, k as nat));
        }
        let cand = path.with_file_name(nm);
        proof {
            assert(cand@ == candidate_v(pv, k as nat));
        }
        if !existing.contains(&cand) {
            proof {
                assert(first_free_at(pv, s, k as nat));
                let least = least_free_k(pv, s);
                assert(first_free_at(pv, s, least));
                lemma_first_free_unique(pv, s, k as nat, least);
            }
            return Ok(cand);
        }
        proof {
            broadcast use vstd::seq_lib::seq_to_set_is_finite;

            assert(!seen.contains(cand@)) by {
                if seen.contains(cand@) {
                    let j = choose|j: nat| 1 <= j < k && cand@ == candidate_v(pv, j);
                    lemma_candidate_injective(pv, j, k as nat);
                }
            }
            assert(s.to_set().contains(cand@));
            seen = seen.insert(cand@);
            assert(seen.len() == k);
            vstd::set_lib::lemma_len_subset(seen, s.to_set());
            s.lemma_cardinality_of_set();
            assert(k <= s.len());
            assert forall|q: Seq<Seq<char>>| seen.contains(q) implies exists|j: nat|
                1 <= j < k + 1 && q == #[trigger] candidate_v(pv, j) by {
                if q == cand@ {
                    assert(1 <= (k as nat) < k + 1 && q == candidate_v(pv, k as nat));
                }
            }
        }
        k = k + 1;
    }
}

} // verus!
