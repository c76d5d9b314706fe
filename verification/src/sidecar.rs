//! Accompanying-JPEG lookup: the companion preview JPEG of a raw file is the
//! like-named file with extension `jpg` (preferred) or `jpeg`. A JPEG cannot
//! have a companion of its own.

use vstd::prelude::*;

use crate::errors::ErrorKind;
use crate::fname::ext_v;
use crate::path::{file_name_v, path_ext_v, with_ext_v, FsPath};
use crate::strutil::{lower_v, str_eq_str, to_lowercase};

verus! {

/// What the companion lookup returns, given whether a like-named `.jpg` or
/// `.jpeg` file exists beside the path: a path without an extension fails; a
/// path that is itself a JPEG fails; otherwise the like-named `.jpg` path
/// when it exists, else the `.jpeg` path when that exists, else failure.
pub open spec fn accompanying_v(p: Seq<Seq<char>>, has_jpg: bool, has_jpeg: bool) -> Result<
    Seq<Seq<char>>,
    ErrorKind,
> {
    match path_ext_v(p) {
        None => Err(ErrorKind::MissingExtension),
        Some(e) => {
            if lower_v(e) == "jpg"@ || lower_v(e) == "jpeg"@ {
                Err(ErrorKind::JpegHasNoCompanion)
            } else if has_jpg {
                Ok(with_ext_v(p, "jpg"@))
            } else if has_jpeg {
                Ok(with_ext_v(p, "jpeg"@))
            } else {
                Err(ErrorKind::NoAccompanyingJpeg)
            }
        },
    }
}

/// Resolves the accompanying JPEG of `path`. The two flags say whether a
/// like-named `.jpg` or `.jpeg` file exists beside it; the caller reads them
/// off the walked source entries. Fails on a path without an extension, on a
/// path that is itself a JPEG (a JPEG has no JPEG companion), and when
/// neither candidate exists.
pub fn accompanying_jpeg(path: &FsPath, has_jpg: bool, has_jpeg: bool) -> (r: Result<
    FsPath,
    ErrorKind,
>)
    ensures
        r matches Ok(q) ==> (accompanying_v(path@, has_jpg, has_jpeg) matches Ok(qv) && q@ == qv),
        r matches Err(e) ==> accompanying_v(path@, has_jpg, has_jpeg) == Err::<
            Seq<Seq<char>>,
            ErrorKind,
        >(e),
        path_ext_v(path@) matches Some(e) && (lower_v(e) == "jpg"@ || lower_v(e) == "jpeg"@) ==> r
            == Err::<FsPath, ErrorKind>(ErrorKind::JpegHasNoCompanion),
{
    let ext = match path.extension() {
        Some(e) => e,
        None => {
            return Err(ErrorKind::MissingExtension);
        },
    };
    let low = to_lowercase(ext.as_str());
    if str_eq_str(low.as_str(), "jpg") || str_eq_str(low.as_str(), "jpeg") {
        Err(ErrorKind::JpegHasNoCompanion)
    } else if has_jpg {
        Ok(path.with_extension("jpg"))
    } else if has_jpeg {
        Ok(path.with_extension("jpeg"))
    } else {
        Err(ErrorKind::NoAccompanyingJpeg)
    }
}

} // verus!
