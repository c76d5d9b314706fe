//! The filter predicate: decides which paths are copy candidates, from the
//! allowed extensions, inclusive size bounds, a hidden-file switch, and the
//! built-in tables of junk names and junk extensions.

use vstd::prelude::*;

use crate::fname::stem_v;
use crate::path::{file_name_v, hidden_v, path_ext_v, FsPath, IsHidden};
use crate::strutil::{lower_v, str_eq_str, to_lowercase};

verus! {

/// The raw-image extensions the stock filters accept.
pub open spec fn raw_exts_v() -> Seq<Seq<char>> {
    seq![
        "nef"@,
        "3fr"@,
        "ari"@,
        "arw"@,
        "bay"@,
        "crw"@,
        "cr2"@,
        "cr3"@,
        "cap"@,
        "dcs"@,
        "dcr"@,
        "dng"@,
        "drf"@,
        "eip"@,
        "erf"@,
        "fff"@,
        "gpr"@,
        "mdc"@,
        "mef"@,
        "mos"@,
        "mrw"@,
        "nrw"@,
        "obm"@,
        "orf"@,
        "pef"@,
        "ptx"@,
        "pxn"@,
        "r3d"@,
        "raw"@,
        "rwl"@,
        "rw2"@,
        "rwz"@,
        "sr2"@,
        "srf"@,
        "srw"@,
        "x3f"@,
        "raf"@,
    ]
}

/// The lossy-image extensions the stock filters accept.
pub open spec fn lossy_exts_v() -> Seq<Seq<char>> {
    seq!["jpg"@, "jpeg"@, "png"@, "heic"@, "avif"@, "heif"@, "tiff"@, "tif"@, "hif"@]
}

/// Whether a lowercased stem is a known junk file or junk folder name.
pub open spec fn is_trash_name_v(s: Seq<char>) -> bool {
    s == "indexervolumeguid"@ || s == "system volume information"@
}

/// Whether a lowercased extension belongs to the junk table (sidecar,
/// database and installer file types that are never copy candidates).
pub open spec fn is_trash_ext_v(s: Seq<char>) -> bool {
    ||| s == "xmp"@
    ||| s == "dat"@
    ||| s == "bat"@
    ||| s == "exe"@
    ||| s == "bin"@
    ||| s == "fir"@
    ||| s == "dmg"@
    ||| s == "msi"@
    ||| s == "sh"@
    ||| s == "lut"@
    ||| s == "mo"@
    ||| s == "lua"@
    ||| s == "sym"@
    ||| s == "rbf"@
    ||| s == "txt"@
    ||| s == "rtf"@
    ||| s == "doc"@
    ||| s == "docx"@
    ||| s == "pdf"@
    ||| s == "ctg"@
}

/// Decides junk names, executable form.
pub fn is_trash_name(s: &str) -> (r: bool)
    ensures
        r == is_trash_name_v(s@),
{
    str_eq_str(s, "indexervolumeguid") || str_eq_str(s, "system volume information")
}

/// Decides junk extensions, executable form.
pub fn is_trash_ext(s: &str) -> (r: bool)
    ensures
        r == is_trash_ext_v(s@),
{
    str_eq_str(s, "xmp") || str_eq_str(s, "dat") || str_eq_str(s, "bat") || str_eq_str(s, "exe")
        || str_eq_str(s, "bin") || str_eq_str(s, "fir") || str_eq_str(s, "dmg") || str_eq_str(
        s,
        "msi",
    ) || str_eq_str(s, "sh") || str_eq_str(s, "lut") || str_eq_str(s, "mo") || str_eq_str(s, "lua")
        || str_eq_str(s, "sym") || str_eq_str(s, "rbf") || str_eq_str(s, "txt") || str_eq_str(
        s,
        "rtf",
    ) || str_eq_str(s, "doc") || str_eq_str(s, "docx") || str_eq_str(s, "pdf") || str_eq_str(
        s,
        "ctg",
    )
}

/// The mathematical content of a filter.
pub struct FilterV {
    /// The allowed extensions, lowercased.
    pub extensions: Seq<Seq<char>>,
    /// Smallest acceptable file size, inclusive.
    pub min_size: u64,
    /// Largest acceptable file size, inclusive.
    pub max_size: u64,
    /// Whether hidden entries are rejected.
    pub ignore_hidden: bool,
}

/// The filter: a pure predicate over a path and the file's size.
#[derive(Debug)]
pub struct Filter {
    /// The allowed extensions (lowercase). Empty, or containing the empty
    /// string, widens what is accepted; see `matches_v`.
    pub extensions: Vec<String>,
    /// Smallest acceptable file size in bytes, inclusive.
    pub min_size: u64,
    /// Largest acceptable file size in bytes, inclusive.
    pub max_size: u64,
    /// Whether hidden entries (leading-dot names) are rejected.
    pub ignore_hidden: bool,
}

impl View for Filter {
    type V = FilterV;

    open spec fn view(&self) -> FilterV {
        FilterV {
            extensions: self.extensions.deep_view(),
            min_size: self.min_size,
            max_size: self.max_size,
            ignore_hidden: self.ignore_hidden,
        }
    }
}

/// What the filter accepts. In order: a hidden path is rejected when the
/// filter ignores hidden entries; a path whose lowercased stem is a junk name
/// is rejected; a path with an extension is accepted when the lowercased
/// extension is allowed (listed, or the list is empty, or the list allows the
/// empty extension), the size lies within the inclusive bounds, and the
/// extension is not junk; a path without an extension is accepted when the
/// list is empty or allows the empty extension and the size lies within the
/// bounds.
pub open spec fn matches_v(f: FilterV, p: Seq<Seq<char>>, size: u64) -> bool {
    if f.ignore_hidden && hidden_v(p) {
        false
    } else if file_name_v(p).is_some() && is_trash_name_v(
        lower_v(stem_v(file_name_v(p).unwrap())),
    ) {
        false
    } else {
        match path_ext_v(p) {
            Some(e0) => {
                let e = lower_v(e0);
                (f.extensions.contains(e) || f.extensions.len() == 0 || f.extensions.contains(
                    Seq::<char>::empty(),
                )) && f.min_size <= size && size <= f.max_size && !is_trash_ext_v(e)
            },
            None => (f.extensions.len() == 0 || f.extensions.contains(Seq::<char>::empty()))
                && f.min_size <= size && size <= f.max_size,
        }
    }
}

impl Clone for Filter {
    fn clone(&self) -> (r: Self)
        ensures
            r@ == self@,
    {
        Filter {
            extensions: crate::path::clone_strings(&self.extensions),
            min_size: self.min_size,
            max_size: self.max_size,
            ignore_hidden: self.ignore_hidden,
        }
    }
}

impl Filter {
    /// Whether the extension list holds the given (lowercased) extension.
    pub fn contains_ext(&self, e: &str) -> (r: bool)
        ensures
            r == self@.extensions.contains(e@),
    {
        let n = self.extensions.len();
        let mut i: usize = 0;
        while i < n
            invariant
                i <= n,
                n == self@.extensions.len(),
                forall|j: int| 0 <= j < i ==> self@.extensions[j] != e@,
            decreases n - i,
        {
            if str_eq_str(self.extensions[i].as_str(), e) {
                proof {
                    assert(self@.extensions[i as int] == e@);
                }
                return true;
            }
            i = i + 1;
        }
        false
    }

    /// Whether the path, with the given file size, is a copy candidate.
    pub fn matches(&self, path: &FsPath, size: u64) -> (r: bool)
        ensures
            r == matches_v(self@, path@, size),
    {
        if self.ignore_hidden && path.is_hidden() {
            return false;
        }
        match path.file_name() {
            Some(name) => {
                let stem = crate::fname::name_stem(name.as_str());
                let low = to_lowercase(stem.as_str());
                if is_trash_name(low.as_str()) {
                    return false;
                }
            },
            None => {},
        }
        let in_bounds = self.min_size <= size && size <= self.max_size;
        match path.extension() {
            Some(e0) => {
                let e = to_lowercase(e0.as_str());
                let allowed = self.contains_ext(e.as_str()) || self.extensions.len() == 0
                    || self.contains_ext("");
                proof {
                    reveal_strlit("");
                    assert(""@ =~= Seq::<char>::empty());
                }
                allowed && in_bounds && !is_trash_ext(e.as_str())
            },
            None => {
                proof {
                    reveal_strlit("");
                    assert(""@ =~= Seq::<char>::empty());
                }
                (self.extensions.len() == 0 || self.contains_ext("")) && in_bounds
            },
        }
    }

    /// The stock filter for all image files: raw and lossy extensions, any
    /// size, hidden entries ignored.
    pub fn images() -> (r: Filter)
        ensures
            r@.extensions == raw_exts_v() + lossy_exts_v(),
            r@.min_size == 0,
            r@.max_size == u64::MAX,
            r@.ignore_hidden == true,
    {
        let mut extensions = raw_extension_vec();
        let mut lossy = lossy_extension_vec();
        extensions.append(&mut lossy);
        proof {
            assert(extensions.deep_view() =~= raw_exts_v() + lossy_exts_v());
        }
        Filter { extensions, min_size: 0, max_size: u64::MAX, ignore_hidden: true }
    }

    /// The stock filter for raw image files only.
    pub fn raws() -> (r: Filter)
        ensures
            r@.extensions == raw_exts_v(),
            r@.min_size == 0,
            r@.max_size == u64::MAX,
            r@.ignore_hidden == true,
    {
        Filter { extensions: raw_extension_vec(), min_size: 0, max_size: u64::MAX, ignore_hidden: true }
    }

    /// The stock filter for lossy image files only.
    pub fn jpegs() -> (r: Filter)
        ensures
            r@.extensions == lossy_exts_v(),
            r@.min_size == 0,
            r@.max_size == u64::MAX,
            r@.ignore_hidden == true,
    {
        Filter { extensions: lossy_extension_vec(), min_size: 0, max_size: u64::MAX, ignore_hidden: true }
    }
}

impl Default for Filter {
    /// The default filter: no extension restriction, any size, hidden
    /// entries ignored.
    fn default() -> (r: Filter)
        ensures
            r@.extensions == Seq::<Seq<char>>::empty(),
            r@.min_size == 0,
            r@.max_size == u64::MAX,
            r@.ignore_hidden == true,
    {
        let r = Filter {
            extensions: Vec::new(),
            min_size: 0,
            max_size: u64::MAX,
            ignore_hidden: true,
        };
        proof {
            assert(r@.extensions =~= Seq::<Seq<char>>::empty());
        }
        r
    }
}

/// Whatever the filter, an accepted path's size lies within the inclusive
/// bounds.
pub proof fn lemma_matches_within_bounds(f: FilterV, p: Seq<Seq<char>>, size: u64)
    ensures
        matches_v(f, p, size) ==> f.min_size <= size && size <= f.max_size,
{
}

/// Filter matching is invariant to extension casing: two paths that agree on
/// everything but the casing of their extension are accepted alike.
pub proof fn lemma_matches_extension_case(
    f: FilterV,
    p1: Seq<Seq<char>>,
    p2: Seq<Seq<char>>,
    size: u64,
)
    requires
        p1.len() > 0,
        p1.len() == p2.len(),
        p1.drop_last() == p2.drop_last(),
        crate::fname::stem_v(p1.last()) == crate::fname::stem_v(p2.last()),
        crate::fname::ext_v(p1.last()).is_some(),
        crate::fname::ext_v(p2.last()).is_some(),
        lower_v(crate::fname::ext_v(p1.last()).unwrap()) == lower_v(
            crate::fname::ext_v(p2.last()).unwrap(),
        ),
    ensures
        matches_v(f, p1, size) == matches_v(f, p2, size),
{
    let f1 = p1.last();
    let f2 = p2.last();
    crate::fname::lemma_rlast_dot(f1);
    crate::fname::lemma_rlast_dot(f2);
    let d1 = crate::fname::rlast_dot(f1);
    let d2 = crate::fname::rlast_dot(f2);
    assert(d1 >= 1 && d2 >= 1);
    assert(crate::fname::stem_v(f1) == f1.subrange(0, d1));
    assert(crate::fname::stem_v(f2) == f2.subrange(0, d2));
    assert(f1[0] == crate::fname::stem_v(f1)[0]);
    assert(f2[0] == crate::fname::stem_v(f2)[0]);
    assert(hidden_v(p1) == hidden_v(p2));
}

/// With the empty string as the only allowed extension, an extensionless
/// path is accepted exactly when it passes the hidden and junk checks and
/// its size lies within the bounds.
pub proof fn lemma_extensionless_filter(f: FilterV, p: Seq<Seq<char>>, size: u64)
    requires
        f.extensions.len() == 1,
        f.extensions[0] == Seq::<char>::empty(),
        path_ext_v(p).is_none(),
    ensures
        matches_v(f, p, size) == (!(f.ignore_hidden && hidden_v(p)) && !(file_name_v(p).is_some()
            && is_trash_name_v(lower_v(stem_v(file_name_v(p).unwrap())))) && f.min_size <= size
            && size <= f.max_size),
{
    assert(f.extensions.contains(Seq::<char>::empty())) by {
        assert(f.extensions[0] == Seq::<char>::empty());
    }
}

/// Appends one literal extension to a list under construction.
fn push_ext(v: &mut Vec<String>, s: &str)
    ensures
        final(v).deep_view() == old(v).deep_view().push(s@),
{
    v.push(s.to_owned());
    proof {
        assert(v.deep_view() =~= old(v).deep_view().push(s@));
    }
}

/// The raw-image extension list, executable form.
fn raw_extension_vec() -> (r: Vec<String>)
    ensures
        r.deep_view() == raw_exts_v(),
{
    let mut v: Vec<String> = Vec::new();
    push_ext(&mut v, "nef");
    push_ext(&mut v, "3fr");
    push_ext(&mut v, "ari");
    push_ext(&mut v, "arw");
    push_ext(&mut v, "bay");
    push_ext(&mut v, "crw");
    push_ext(&mut v, "cr2");
    push_ext(&mut v, "cr3");
    push_ext(&mut v, "cap");
    push_ext(&mut v, "dcs");
    push_ext(&mut v, "dcr");
    push_ext(&mut v, "dng");
    push_ext(&mut v, "drf");
    push_ext(&mut v, "eip");
    push_ext(&mut v, "erf");
    push_ext(&mut v, "fff");
    push_ext(&mut v, "gpr");
    push_ext(&mut v, "mdc");
    push_ext(&mut v, "mef");
    push_ext(&mut v, "mos");
    push_ext(&mut v, "mrw");
    push_ext(&mut v, "nrw");
    push_ext(&mut v, "obm");
    push_ext(&mut v, "orf");
    push_ext(&mut v, "pef");
    push_ext(&mut v, "ptx");
    push_ext(&mut v, "pxn");
    push_ext(&mut v, "r3d");
    push_ext(&mut v, "raw");
    push_ext(&mut v, "rwl");
    push_ext(&mut v, "rw2");
    push_ext(&mut v, "rwz");
    push_ext(&mut v, "sr2");
    push_ext(&mut v, "srf");
    push_ext(&mut v, "srw");
    push_ext(&mut v, "x3f");
    push_ext(&mut v, "raf");
    proof {
        assert(v.deep_view() =~= raw_exts_v());
    }
    v
}

/// The lossy-image extension list, executable form.
fn lossy_extension_vec() -> (r: Vec<String>)
    ensures
        r.deep_view() == lossy_exts_v(),
{
    let mut v: Vec<String> = Vec::new();
    push_ext(&mut v, "jpg");
    push_ext(&mut v, "jpeg");
    push_ext(&mut v, "png");
    push_ext(&mut v, "heic");
    push_ext(&mut v, "avif");
    push_ext(&mut v, "heif");
    push_ext(&mut v, "tiff");
    push_ext(&mut v, "tif");
    push_ext(&mut v, "hif");
    proof {
        assert(v.deep_view() =~= lossy_exts_v());
    }
    v
}

} // verus!
