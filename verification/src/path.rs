//! The path model: a filesystem path as its sequence of components, with the
//! name-level queries the engine needs (extension, stem, hidden, JPEG) and
//! the rebuilding operations (join, strip a root, swap extension or name).

use vstd::prelude::*;

use crate::errors::ErrorKind;
use crate::fname::{ext_v, make_name, make_name_v, name_ext, name_stem, stem_v};
use crate::strutil::{lower_v, str_eq_str, string_eq, to_lowercase};

verus! {

/// A path, as the sequence of its components (no separators, no roots).
#[derive(Debug, PartialEq, Eq)]
pub struct FsPath {
    components: Vec<String>,
}

impl View for FsPath {
    type V = Seq<Seq<char>>;

    closed spec fn view(&self) -> Seq<Seq<char>> {
        self.components.deep_view()
    }
}

impl DeepView for FsPath {
    type V = Seq<Seq<char>>;

    open spec fn deep_view(&self) -> Seq<Seq<char>> {
        self.view()
    }
}

/// Clones a vector of strings; the copy denotes the same sequence.
pub fn clone_strings(v: &Vec<String>) -> (r: Vec<String>)
    ensures
        r@ == v@,
        r.deep_view() == v.deep_view(),
{
    let r = v.clone();
    proof {
        assert forall|i: int| 0 <= i < v.len() implies v@[i] == r@[i] by {
            assert(cloned::<String>(v[i], r[i]));
        }
        assert(v@ =~= r@);
    }
    r
}

/// Clones a vector of paths; the copy denotes the same sequence.
pub fn clone_paths(v: &Vec<FsPath>) -> (r: Vec<FsPath>)
    ensures
        r.deep_view() == v.deep_view(),
{
    let r = v.clone();
    proof {
        assert forall|i: int| 0 <= i < v.len() implies v@[i].deep_view() == r@[i].deep_view() by {
            assert(cloned::<FsPath>(v[i], r[i]));
        }
        assert(v.deep_view() =~= r.deep_view());
    }
    r
}

/// The file name of a path: its last component.
pub open spec fn file_name_v(p: Seq<Seq<char>>) -> Option<Seq<char>> {
    if p.len() > 0 {
        Some(p.last())
    } else {
        None
    }
}

/// Whether a path is hidden: its file name starts with a dot. A path without
/// a file name counts as hidden.
pub open spec fn hidden_v(p: Seq<Seq<char>>) -> bool {
    match file_name_v(p) {
        Some(f) => f.len() > 0 && f[0] == '.',
        None => true,
    }
}

/// The extension of a path's file name.
pub open spec fn path_ext_v(p: Seq<Seq<char>>) -> Option<Seq<char>> {
    match file_name_v(p) {
        Some(f) => ext_v(f),
        None => None,
    }
}

/// The stem of a path's file name.
pub open spec fn path_stem_v(p: Seq<Seq<char>>) -> Option<Seq<char>> {
    match file_name_v(p) {
        Some(f) => Some(stem_v(f)),
        None => None,
    }
}

/// Whether a path names a JPEG file: its extension folds to `jpg` or `jpeg`.
pub open spec fn jpeg_v(p: Seq<Seq<char>>) -> bool {
    match path_ext_v(p) {
        Some(e) => lower_v(e) == "jpg"@ || lower_v(e) == "jpeg"@,
        None => false,
    }
}

/// A path with its last component replaced.
pub open spec fn with_file_name_v(p: Seq<Seq<char>>, name: Seq<char>) -> Seq<Seq<char>> {
    p.update(p.len() - 1, name)
}

/// A path with the extension of its file name replaced (or removed, when the
/// new extension is empty). A path without a file name is unchanged.
pub open spec fn with_ext_v(p: Seq<Seq<char>>, ext: Seq<char>) -> Seq<Seq<char>> {
    if p.len() == 0 {
        p
    } else {
        p.update(p.len() - 1, make_name_v(stem_v(p.last()), ext))
    }
}

/// Whether `base` is a componentwise prefix of `p`.
pub open spec fn is_prefix_v(base: Seq<Seq<char>>, p: Seq<Seq<char>>) -> bool {
    base.len() <= p.len() && p.subrange(0, base.len() as int) == base
}

impl Clone for FsPath {
    fn clone(&self) -> (r: Self)
        ensures
            r@ == self@,
    {
        FsPath { components: clone_strings(&self.components) }
    }
}

/// Whether a path is hidden (leading-dot file name).
pub trait IsHidden {
    /// What `is_hidden` returns.
    spec fn hidden_spec(&self) -> bool;

    /// Decides whether the value is hidden.
    fn is_hidden(&self) -> (r: bool)
        ensures
            r == self.hidden_spec(),
    ;
}

/// Whether a path names a JPEG file.
pub trait IsJpeg {
    /// What `is_jpeg` returns.
    spec fn jpeg_spec(&self) -> bool;

    /// Decides whether the value names a JPEG.
    fn is_jpeg(&self) -> (r: bool)
        ensures
            r == self.jpeg_spec(),
    ;
}

impl FsPath {
    /// A path from its components.
    pub fn from_vec(components: Vec<String>) -> (r: FsPath)
        ensures
            r@ == components.deep_view(),
    {
        FsPath { components }
    }

    /// An empty path.
    pub fn empty() -> (r: FsPath)
        ensures
            r@ == Seq::<Seq<char>>::empty(),
    {
        FsPath { components: Vec::new() }
    }

    /// The components of the path.
    pub fn components(&self) -> (r: &Vec<String>)
        ensures
            r.deep_view() == self@,
    {
        &self.components
    }

    /// The number of components.
    pub fn depth(&self) -> (r: usize)
        ensures
            r == self@.len(),
    {
        self.components.len()
    }

    /// Whether two paths are the same.
    pub fn path_eq(&self, other: &FsPath) -> (r: bool)
        ensures
            r == (self@ == other@),
    {
        let n = self.components.len();
        if n != other.components.len() {
            proof {
                assert(self@.len() != other@.len());
            }
            return false;
        }
        let mut i: usize = 0;
        while i < n
            invariant
                i <= n,
                n == self@.len(),
                n == other@.len(),
                forall|j: int| 0 <= j < i ==> self@[j] == other@[j],
            decreases n - i,
        {
            if !string_eq(&self.components[i], &other.components[i]) {
                proof {
                    assert(self@[i as int] != other@[i as int]);
                }
                return false;
            }
            i = i + 1;
        }
        proof {
            assert(self@ =~= other@);
        }
        true
    }

    /// This path extended by all components of `rel`.
    pub fn join(&self, rel: &FsPath) -> (r: FsPath)
        ensures
            r@ == self@ + rel@,
    {
        let mut c = clone_strings(&self.components);
        let mut tail = clone_strings(&rel.components);
        c.append(&mut tail);
        proof {
            assert((FsPath { components: c })@ =~= self@ + rel@);
        }
        FsPath { components: c }
    }

    /// This path extended by one component.
    pub fn child(&self, name: String) -> (r: FsPath)
        ensures
            r@ == self@.push(name@),
    {
        let mut c = clone_strings(&self.components);
        c.push(name);
        proof {
            assert((FsPath { components: c })@ =~= self@.push(name@));
        }
        FsPath { components: c }
    }

    /// The file name: the last component.
    pub fn file_name(&self) -> (r: Option<&String>)
        ensures
            r.is_some() == file_name_v(self@).is_some(),
            r.is_some() ==> r.unwrap()@ == file_name_v(self@).unwrap(),
    {
        let n = self.components.len();
        if n > 0 {
            Some(&self.components[n - 1])
        } else {
            None
        }
    }

    /// The extension of the file name.
    pub fn extension(&self) -> (r: Option<String>)
        ensures
            r.is_some() == path_ext_v(self@).is_some(),
            r.is_some() ==> r.unwrap()@ == path_ext_v(self@).unwrap(),
    {
        match self.file_name() {
            Some(name) => name_ext(name.as_str()),
            None => None,
        }
    }

    /// The stem of the file name.
    pub fn file_stem(&self) -> (r: Option<String>)
        ensures
            r.is_some() == path_stem_v(self@).is_some(),
            r.is_some() ==> r.unwrap()@ == path_stem_v(self@).unwrap(),
    {
        match self.file_name() {
            Some(name) => Some(name_stem(name.as_str())),
            None => None,
        }
    }

    /// The path with its last component replaced.
    pub fn with_file_name(&self, name: String) -> (r: FsPath)
        requires
            self@.len() > 0,
        ensures
            r@ == with_file_name_v(self@, name@),
    {
        let mut c = clone_strings(&self.components);
        let n = c.len();
        c.set(n - 1, name);
        proof {
            assert((FsPath { components: c })@ =~= with_file_name_v(self@, name@));
        }
        FsPath { components: c }
    }

    /// The path with the extension of its file name replaced.
    pub fn with_extension(&self, ext: &str) -> (r: FsPath)
        ensures
            r@ == with_ext_v(self@, ext@),
    {
        match self.file_name() {
            Some(name) => {
                let stem = name_stem(name.as_str());
                let new_name = make_name(stem.as_str(), ext);
                self.with_file_name(new_name)
            },
            None => self.clone(),
        }
    }

    /// The path relative to `base`, or a prefix-mismatch error when the path
    /// does not lie under `base`.
    pub fn strip_prefix(&self, base: &FsPath) -> (r: Result<FsPath, ErrorKind>)
        ensures
            is_prefix_v(base@, self@) ==> (r matches Ok(rest) && rest@ == self@.skip(
                base@.len() as int,
            )),
            !is_prefix_v(base@, self@) ==> (r matches Err(e) && e == ErrorKind::StripPrefixError),
    {
        let nb = base.components.len();
        if nb > self.components.len() {
            proof {
                assert(!is_prefix_v(base@, self@));
            }
            return Err(ErrorKind::StripPrefixError);
        }
        let mut i: usize = 0;
        while i < nb
            invariant
                i <= nb,
                nb == base@.len(),
                nb <= self@.len(),
                forall|j: int| 0 <= j < i ==> self@[j] == base@[j],
            decreases nb - i,
        {
            if !string_eq(&self.components[i], &base.components[i]) {
                proof {
                    assert(self@[i as int] != base@[i as int]);
                    assert(!is_prefix_v(base@, self@));
                }
                return Err(ErrorKind::StripPrefixError);
            }
            i = i + 1;
        }
        proof {
            assert(self@.subrange(0, nb as int) =~= base@);
        }
        let mut rest: Vec<String> = Vec::new();
        let n = self.components.len();
        let mut k: usize = nb;
        while k < n
            invariant
                nb <= k <= n,
                n == self@.len(),
                rest.deep_view() == self@.subrange(nb as int, k as int),
            decreases n - k,
        {
            let ghost prev = rest;
            let ghost k0 = k as int;
            let item = self.components[k].clone();
            proof {
                assert(cloned::<String>(self.components@[k as int], item));
                assert(item@ == self@[k as int]);
            }
            rest.push(item);
            k = k + 1;
            proof {
                assert(prev.deep_view() == self@.subrange(nb as int, k0));
                assert(prev.deep_view().len() == k0 - nb);
                assert(prev@.len() == k0 - nb);
                assert(rest@ == prev@.push(item));
                assert forall|j: int| 0 <= j < rest@.len() implies rest.deep_view()[j] == self@[nb
                    + j] by {
                    if j < prev@.len() {
                        assert(rest@[j] == prev@[j]);
                        assert(prev.deep_view()[j] == self@.subrange(nb as int, k0)[j]);
                        assert(self@.subrange(nb as int, k0)[j] == self@[nb + j]);
                    } else {
                        assert(rest@[j] == item);
                    }
                }
                assert(rest.deep_view() =~= self@.subrange(nb as int, k as int));
            }
        }
        proof {
            assert(self@.subrange(nb as int, n as int) =~= self@.skip(nb as int));
        }
        Ok(FsPath { components: rest })
    }
}

impl IsHidden for FsPath {
    open spec fn hidden_spec(&self) -> bool {
        hidden_v(self@)
    }

    fn is_hidden(&self) -> (r: bool) {
        match self.file_name() {
            Some(name) => {
                if name.as_str().unicode_len() == 0 {
                    false
                } else {
                    name.as_str().get_char(0) == '.'
                }
            },
            None => true,
        }
    }
}

impl IsJpeg for FsPath {
    open spec fn jpeg_spec(&self) -> bool {
        jpeg_v(self@)
    }

    fn is_jpeg(&self) -> (r: bool) {
        match self.extension() {
            Some(e) => {
                let low = to_lowercase(e.as_str());
                str_eq_str(low.as_str(), "jpg") || str_eq_str(low.as_str(), "jpeg")
            },
            None => false,
        }
    }
}

} // verus!
