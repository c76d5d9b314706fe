//! An order-preserving set of paths. The engine uses one as the
//! pending-sidecar tracker (insertion order decides the drain order) and one
//! as the record of destination paths that exist or were created.

use vstd::prelude::*;

use crate::path::FsPath;

verus! {

/// A set of paths that remembers insertion order and holds no duplicates.
#[derive(Debug)]
pub struct PathSet {
    items: Vec<FsPath>,
}

impl View for PathSet {
    type V = Seq<Seq<Seq<char>>>;

    closed spec fn view(&self) -> Seq<Seq<Seq<char>>> {
        self.items.deep_view()
    }
}

/// `s` with `p` appended, unless already present.
pub open spec fn insert_path_v(s: Seq<Seq<Seq<char>>>, p: Seq<Seq<char>>) -> Seq<Seq<Seq<char>>> {
    if s.contains(p) {
        s
    } else {
        s.push(p)
    }
}

/// The fold that keeps the first occurrence of every path of `s`, appending
/// to `acc`.
pub open spec fn dedup_fold(
    s: Seq<Seq<Seq<char>>>,
    acc: Seq<Seq<Seq<char>>>,
    i: int,
) -> Seq<Seq<Seq<char>>>
    decreases s.len() - i,
{
    if i < 0 || i >= s.len() {
        acc
    } else {
        dedup_fold(s, insert_path_v(acc, s[i]), i + 1)
    }
}

/// `s` with every repeated path dropped, first occurrences kept in order.
pub open spec fn dedup_v(s: Seq<Seq<Seq<char>>>) -> Seq<Seq<Seq<char>>> {
    dedup_fold(s, Seq::empty(), 0)
}

/// `s` with the first occurrence of `p` removed, if any.
pub open spec fn remove_path_v(s: Seq<Seq<Seq<char>>>, p: Seq<Seq<char>>) -> Seq<Seq<Seq<char>>> {
    match s.index_of_first(p) {
        Some(i) => s.remove(i),
        None => s,
    }
}

impl PathSet {
    /// No two entries are the same path.
    pub open spec fn wf(&self) -> bool {
        forall|i: int, j: int| 0 <= i < j < self@.len() ==> self@[i] != self@[j]
    }

    /// An empty set.
    pub fn new() -> (r: PathSet)
        ensures
            r@ == Seq::<Seq<Seq<char>>>::empty(),
            r.wf(),
    {
        PathSet { items: Vec::new() }
    }

    /// A set holding the given paths, first occurrences first.
    pub fn from_vec(v: &Vec<FsPath>) -> (r: PathSet)
        ensures
            r.wf(),
            r@ == dedup_v(v.deep_view()),
            forall|p: Seq<Seq<char>>| r@.contains(p) == v.deep_view().contains(p),
    {
        let mut r = PathSet::new();
        let n = v.len();
        let mut i: usize = 0;
        while i < n
            invariant
                i <= n,
                n == v.deep_view().len(),
                r.wf(),
                dedup_fold(v.deep_view(), r@, i as int) == dedup_v(v.deep_view()),
                forall|p: Seq<Seq<char>>|
                    r@.contains(p) == v.deep_view().subrange(0, i as int).contains(p),
            decreases n - i,
        {
            let ghost prefix = v.deep_view().subrange(0, i as int);
            let ghost before = r@;
            let item = v[i].clone();
            proof {
                assert(item@ == v.deep_view()[i as int]);
            }
            r.insert(item);
            i = i + 1;
            proof {
                let x = v.deep_view()[i - 1];
                let now = v.deep_view().subrange(0, i as int);
                assert(now =~= prefix.push(x));
                assert forall|p: Seq<Seq<char>>| r@.contains(p) == now.contains(p) by {
                    if now.contains(p) {
                        let w = choose|w: int| 0 <= w < now.len() && now[w] == p;
                        if w < prefix.len() {
                            assert(prefix[w] == p);
                            assert(prefix.contains(p));
                            assert(before.contains(p));
                            let u = choose|u: int| 0 <= u < before.len() && before[u] == p;
                            assert(r@[u] == p);
                            assert(r@.contains(p));
                        } else {
                            assert(p == x);
                            if before.contains(x) {
                                assert(r@.contains(p));
                            } else {
                                assert(r@ == before.push(x));
                                assert(r@[r@.len() - 1] == p);
                                assert(r@.contains(p));
                            }
                        }
                    }
                    if r@.contains(p) {
                        let w = choose|w: int| 0 <= w < r@.len() && r@[w] == p;
                        if w < before.len() {
                            assert(before[w] == p);
                            assert(before.contains(p));
                            assert(prefix.contains(p));
                            let u = choose|u: int| 0 <= u < prefix.len() && prefix[u] == p;
                            assert(now[u] == p);
                            assert(now.contains(p));
                        } else {
                            assert(p == x);
                            assert(now[now.len() - 1] == p);
                            assert(now.contains(p));
                        }
                    }
                }
            }
        }
        proof {
            assert(v.deep_view().subrange(0, n as int) =~= v.deep_view());
        }
        r
    }

    /// How many paths the set holds.
    pub fn len(&self) -> (r: usize)
        ensures
            r == self@.len(),
    {
        self.items.len()
    }

    /// The path at a position, in insertion order.
    pub fn at(&self, i: usize) -> (r: &FsPath)
        requires
            i < self@.len(),
        ensures
            r@ == self@[i as int],
    {
        &self.items[i]
    }

    /// Whether the set holds the path.
    pub fn contains(&self, p: &FsPath) -> (r: bool)
        ensures
            r == self@.contains(p@),
    {
        let n = self.items.len();
        let mut i: usize = 0;
        while i < n
            invariant
                i <= n,
                n == self@.len(),
                forall|j: int| 0 <= j < i ==> self@[j] != p@,
            decreases n - i,
        {
            if self.items[i].path_eq(p) {
                proof {
                    assert(self@[i as int] == p@);
                }
                return true;
            }
            i = i + 1;
        }
        false
    }

    /// Adds the path; a path already present is not added again.
    pub fn insert(&mut self, p: FsPath)
        requires
            old(self).wf(),
        ensures
            final(self).wf(),
            final(self)@ == insert_path_v(old(self)@, p@),
    {
        if !self.contains(&p) {
            self.items.push(p);
            proof {
                assert(self@ =~= old(self)@.push(p@));
            }
        }
    }

    /// Removes the path, if present.
    pub fn remove(&mut self, p: &FsPath)
        requires
            old(self).wf(),
        ensures
            final(self).wf(),
            final(self)@ == remove_path_v(old(self)@, p@),
    {
        let n = self.items.len();
        let mut i: usize = 0;
        while i < n
            invariant
                i <= n,
                n == self@.len(),
                *self == *old(self),
                old(self).wf(),
                forall|j: int| 0 <= j < i ==> self@[j] != p@,
            decreases n - i,
        {
            if self.items[i].path_eq(p) {
                proof {
                    old(self)@.index_of_first_ensures(p@);
                    assert(self@[i as int] == p@);
                    assert(old(self)@.contains(p@));
                    let idx = old(self)@.index_of_first(p@).unwrap();
                    if idx < i {
                        assert(old(self)@[idx] != p@);
                    } else if idx > i {
                        assert(old(self)@[i as int] != p@);
                    }
                    assert(old(self)@.index_of_first(p@) == Some(i as int));
                }
                self.items.remove(i);
                proof {
                    assert(self@ =~= old(self)@.remove(i as int));
                    assert forall|a: int, b: int| 0 <= a < b < self@.len() implies self@[a]
                        != self@[b] by {
                        let oa: int = if a < i {
                            a
                        } else {
                            a + 1
                        };
                        let ob: int = if b < i {
                            b
                        } else {
                            b + 1
                        };
                        assert(self@[a] == old(self)@[oa]);
                        assert(self@[b] == old(self)@[ob]);
                    }
                }
                return ;
            }
            i = i + 1;
        }
        proof {
            assert(!old(self)@.contains(p@));
            old(self)@.index_of_first_ensures(p@);
        }
    }

    /// Takes all paths out, in insertion order, leaving the set empty.
    pub fn drain(&mut self) -> (r: Vec<FsPath>)
        ensures
            r.deep_view() == old(self)@,
            final(self)@ == Seq::<Seq<Seq<char>>>::empty(),
            final(self).wf(),
    {
        let mut v: Vec<FsPath> = Vec::new();
        core::mem::swap(&mut self.items, &mut v);
        v
    }
}

} // verus!
