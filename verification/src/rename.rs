//! The rename-sequence generator: produces deterministic target stems from a
//! zero-padded counter placed before or after the file's stem, advancing the
//! counter by exactly one per successful stem, and never on failure.

use vstd::prelude::*;

use crate::errors::ErrorKind;
use crate::path::{path_stem_v, FsPath};
use crate::strutil::{fmt_padded, padded_v, push_char};

verus! {

/// Where the sequence number is placed relative to the stem.
#[derive(Debug, Clone, Copy, PartialEq, Eq, Structural)]
pub enum Position {
    /// `{sequence}-{name}`.
    Prefix,
    /// `{name}-{sequence}`.
    Suffix,
}

impl Default for Position {
    fn default() -> (r: Position)
        ensures
            r == Position::Prefix,
    {
        Position::Prefix
    }
}

/// The mathematical content of a rename generator.
pub struct RenameV {
    /// The stem override, if any.
    pub name: Option<Seq<char>>,
    /// Where the sequence number goes.
    pub position: Position,
    /// The current sequence number.
    pub sequence: i32,
    /// The zero-pad width.
    pub zeroes: u8,
}

/// The rename generator.
#[derive(Debug)]
pub struct Rename {
    /// Overrides the file's own stem when set.
    pub name: Option<String>,
    /// Where the sequence number goes.
    pub position: Position,
    /// The current sequence number; advanced only by `next`, and only on
    /// success.
    pub sequence: i32,
    /// The zero-pad width of the formatted sequence number.
    pub zeroes: u8,
}

impl View for Rename {
    type V = RenameV;

    open spec fn view(&self) -> RenameV {
        RenameV {
            name: match self.name {
                Some(ref n) => Some(n@),
                None => None,
            },
            position: self.position,
            sequence: self.sequence,
            zeroes: self.zeroes,
        }
    }
}

/// The stem the generator starts from: the override when set, else the
/// path's own stem; nothing when neither exists.
pub open spec fn stem_source_v(name: Option<Seq<char>>, p: Seq<Seq<char>>) -> Option<Seq<char>> {
    match name {
        Some(n) => Some(n),
        None => path_stem_v(p),
    }
}

/// The formatted stem: the zero-padded sequence number joined to the name
/// with a dash, on the side the position selects.
pub open spec fn rename_format_v(name: Seq<char>, sequence: int, zeroes: nat, position: Position) -> Seq<
    char,
> {
    match position {
        Position::Prefix => padded_v(sequence, zeroes) + seq!['-'] + name,
        Position::Suffix => name + seq!['-'] + padded_v(sequence, zeroes),
    }
}

impl Clone for Rename {
    fn clone(&self) -> (r: Self)
        ensures
            r@ == self@,
    {
        let name: Option<String> = match &self.name {
            Some(n) => Some(n.clone()),
            None => None,
        };
        Rename { name, position: self.position, sequence: self.sequence, zeroes: self.zeroes }
    }
}

impl Default for Rename {
    /// A generator with no override, prefix position, sequence 0 and no
    /// padding.
    fn default() -> (r: Rename)
        ensures
            r@.name.is_none(),
            r@.position == Position::Prefix,
            r@.sequence == 0,
            r@.zeroes == 0,
    {
        Rename { name: None, position: Position::Prefix, sequence: 0, zeroes: 0 }
    }
}

impl Rename {
    /// The stem the path would be written under, without advancing the
    /// sequence. Fails only when there is no override and the path has no
    /// file stem.
    pub fn file_stem(&self, path: &FsPath) -> (r: Result<String, ErrorKind>)
        ensures
            stem_source_v(self@.name, path@).is_none() ==> r == Err::<String, ErrorKind>(
                ErrorKind::MissingStem,
            ),
            stem_source_v(self@.name, path@) matches Some(src) ==> (r matches Ok(s) && s@
                == rename_format_v(src, self@.sequence as int, self@.zeroes as nat, self@.position)),
    {
        let source: String = match &self.name {
            Some(n) => n.clone(),
            None => match path.file_stem() {
                Some(s) => s,
                None => {
                    return Err(ErrorKind::MissingStem);
                },
            },
        };
        let num = fmt_padded(self.sequence as i64, self.zeroes);
        match self.position {
            Position::Prefix => {
                let mut out = num;
                push_char(&mut out, '-');
                out.append(source.as_str());
                proof {
                    assert(out@ =~= rename_format_v(
                        stem_source_v(self@.name, path@).unwrap(),
                        self@.sequence as int,
                        self@.zeroes as nat,
                        self@.position,
                    ));
                }
                Ok(out)
            },
            Position::Suffix => {
                let mut out = source;
                push_char(&mut out, '-');
                out.append(num.as_str());
                proof {
                    assert(out@ =~= rename_format_v(
                        stem_source_v(self@.name, path@).unwrap(),
                        self@.sequence as int,
                        self@.zeroes as nat,
                        self@.position,
                    ));
                }
                Ok(out)
            },
        }
    }

    /// The stem the path is written under: exactly what `file_stem` computes
    /// for the pre-call state (both contracts pin the same formatted stem).
    /// On success the sequence advances by exactly one; on failure nothing
    /// moves, and the error is passed on.
    pub fn next(&mut self, path: &FsPath) -> (r: Result<String, ErrorKind>)
        requires
            old(self).sequence < i32::MAX,
        ensures
            stem_source_v(old(self)@.name, path@).is_none() ==> r == Err::<String, ErrorKind>(
                ErrorKind::MissingStem,
            ) && *final(self) == *old(self),
            stem_source_v(old(self)@.name, path@) matches Some(src) ==> (r matches Ok(s) && s@
                == rename_format_v(
                src,
                old(self)@.sequence as int,
                old(self)@.zeroes as nat,
                old(self)@.position,
            ) && final(self).sequence == old(self).sequence + 1 && final(self).name == old(
                self,
            ).name && final(self).position == old(self).position && final(self).zeroes == old(
                self,
            ).zeroes),
    {
        let stem = self.file_stem(path);
        if stem.is_ok() {
            self.sequence = self.sequence + 1;
        }
        stem
    }
}

} // verus!
