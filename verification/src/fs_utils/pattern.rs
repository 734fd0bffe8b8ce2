//! Patterns for selecting files and directories based on certain criteria.
//!
//! A pattern looks at an entry's path alone. Paths are plain strings here;
//! both `/` and `\` count as separators, so paths written for either
//! convention are read the same way. The extension of a path is what
//! follows the last `.` of its final component, provided that dot is not
//! the component's first character: `a.lnk` has extension `lnk`,
//! `a.lnk.bak` has `bak`, and `a`, `.gitignore` or `dir.d/file` have none.

use vstd::prelude::*;

verus! {

/// Is `c` a path separator?
pub open spec fn is_separator(c: char) -> bool {
    c == '/' || c == '\\'
}

/// Index of the first character of the path's final component: one past
/// the last separator, or `0` when the path holds none.
pub open spec fn file_name_start(s: Seq<char>) -> int
    decreases s.len(),
{
    if s.len() == 0 {
        0
    } else if is_separator(s.last()) {
        s.len() as int
    } else {
        file_name_start(s.drop_last())
    }
}

/// Index of the last `'.'` in `s`, or `-1` when there is none.
pub open spec fn last_dot(s: Seq<char>) -> int
    decreases s.len(),
{
    if s.len() == 0 {
        -1
    } else if s.last() == '.' {
        s.len() as int - 1
    } else {
        last_dot(s.drop_last())
    }
}

/// The extension component of a path, if it has one: what follows the last
/// `'.'`, provided that dot lies strictly inside the final component.
pub open spec fn extension_of(s: Seq<char>) -> Option<Seq<char>> {
    if last_dot(s) > file_name_start(s) {
        Some(s.subrange(last_dot(s) + 1, s.len() as int))
    } else {
        None
    }
}

/// Does the path's extension equal `ext`? A path without an extension is
/// read as having the empty one, so it matches exactly an empty `ext`.
pub open spec fn spec_has_extension(path: Seq<char>, ext: Seq<char>) -> bool {
    match extension_of(path) {
        Some(e) => e == ext,
        None => ext.len() == 0,
    }
}

/// Does `path`'s extension equal `ext`, compared exactly, character for
/// character, with no normalization of case or leading dots?
pub fn has_extension(path: &str, ext: &str) -> (r: bool)
    ensures
        r == spec_has_extension(path@, ext@),
{
    let n = path.unicode_len();
    let mut fstart: usize = 0;
    let mut dot: usize = 0;
    let mut has_dot: bool = false;
    let mut i: usize = 0;
    while i < n
        invariant
            n == path@.len(),
            i <= n,
            fstart <= i,
            fstart as int == file_name_start(path@.take(i as int)),
            has_dot ==> dot < i,
            (if has_dot { dot as int } else { -1int }) == last_dot(path@.take(i as int)),
        decreases n - i,
    {
        let c = path.get_char(i);
        proof {
            assert(path@.take(i as int + 1).drop_last() =~= path@.take(i as int));
            assert(path@.take(i as int + 1).last() == path@[i as int]);
        }
        if c == '/' || c == '\\' {
            fstart = i + 1;
        } else if c == '.' {
            dot = i;
            has_dot = true;
        }
        i = i + 1;
    }
    proof {
        assert(path@.take(n as int) =~= path@);
    }
    if has_dot && dot > fstart {
        // the extension spans dot + 1 .. n
        let elen = ext.unicode_len();
        if n - (dot + 1) != elen {
            proof {
                assert(path@.subrange(dot as int + 1, n as int).len() != ext@.len());
            }
            false
        } else {
            let mut j: usize = 0;
            while j < elen
                invariant
                    n == path@.len(),
                    elen == ext@.len(),
                    has_dot && dot > fstart && dot < n,
                    dot as int == last_dot(path@),
                    fstart as int == file_name_start(path@),
                    elen == n - (dot + 1),
                    j <= elen,
                    forall|k: int| 0 <= k < j ==> path@[dot as int + 1 + k] == ext@[k],
                decreases elen - j,
            {
                let pc = path.get_char(dot + 1 + j);
                let ec = ext.get_char(j);
                if pc != ec {
                    proof {
                        let sub = path@.subrange(dot as int + 1, n as int);
                        assert(sub[j as int] == path@[dot as int + 1 + j as int]);
                        assert(sub != ext@);
                    }
                    return false;
                }
                j = j + 1;
            }
            proof {
                assert(path@.subrange(dot as int + 1, n as int) =~= ext@);
            }
            true
        }
    } else {
        // the path has no extension component
        ext.unicode_len() == 0
    }
}

/// Patterns for selecting files and directories based on certain criteria.
#[derive(Clone, Debug, PartialEq, Eq)]
pub enum FilePattern {
    /// Matches every path.
    Any,
    /// Matches paths whose extension equals the held string exactly
    /// (case-sensitive, no leading dot).
    Extension(String),
}

impl FilePattern {
    /// Which paths the pattern selects.
    pub open spec fn spec_matches(&self, path: Seq<char>) -> bool {
        match self {
            FilePattern::Any => true,
            FilePattern::Extension(ext) => spec_has_extension(path, ext@),
        }
    }

    /// Does `path` match the pattern?
    pub fn matches(&self, path: &str) -> (r: bool)
        ensures
            r == self.spec_matches(path@),
    {
        match self {
            FilePattern::Any => true,
            FilePattern::Extension(ext) => has_extension(path, ext.as_str()),
        }
    }
}

} // verus!
