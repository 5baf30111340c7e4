//! Which files of a source directory are read.

use vstd::prelude::*;
use crate::paths::{
    contains_text, extension, extension_of, file_name, file_name_of, is_substring,
};
use crate::text::str_eq;

verus! {

/// Finds the Rust source files of a directory.
#[derive(Debug)]
pub struct Scanner {
    /// The directory to scan.
    pub source_dir: String,
    /// The patterns of what is left out.
    pub exclude_patterns: Vec<String>,
}

/// Whether a pattern leaves a path out: the pattern occurs in the path's
/// text, or is the name of the file or directory that the path ends in.
pub open spec fn pattern_excludes(pattern: Seq<char>, path: Seq<char>) -> bool {
    is_substring(pattern, path) || file_name_of(path) == Some(pattern)
}

/// Whether one of the patterns leaves the path out.
pub open spec fn is_excluded_by(patterns: Seq<Seq<char>>, path: Seq<char>) -> bool {
    exists|i: int| 0 <= i < patterns.len() && pattern_excludes(#[trigger] patterns[i], path)
}

/// Whether a path names a Rust source file: its extension is `rs`.
pub open spec fn is_rust_path(path: Seq<char>) -> bool {
    extension_of(path) == Some("rs"@)
}

impl Scanner {
    /// A scanner for a directory, with the patterns of what it leaves out.
    pub fn new(source_dir: String, exclude_patterns: Vec<String>) -> (r: Self)
        ensures
            r.source_dir == source_dir,
            r.exclude_patterns == exclude_patterns,
    {
        Scanner { source_dir, exclude_patterns }
    }

    /// Whether a path names a Rust source file.
    pub fn is_rust_file(&self, path: &str) -> (r: bool)
        ensures
            r == is_rust_path(path@),
    {
        match extension(path) {
            Some(ext) => str_eq(ext.as_str(), "rs"),
            None => false,
        }
    }

    /// Whether a path is left out of the scan.
    pub fn is_excluded(&self, path: &str) -> (r: bool)
        ensures
            r == is_excluded_by(self.exclude_patterns.deep_view(), path@),
    {
        let name = file_name(path);
        let ghost patterns = self.exclude_patterns.deep_view();
        let mut i: usize = 0;
        while i < self.exclude_patterns.len()
            invariant
                i <= self.exclude_patterns@.len(),
                patterns == self.exclude_patterns.deep_view(),
                name.deep_view() == file_name_of(path@),
                forall|j: int| 0 <= j < i ==> !pattern_excludes(#[trigger] patterns[j], path@),
            decreases self.exclude_patterns@.len() - i,
        {
            let pattern = self.exclude_patterns[i].as_str();
            let by_name = match &name {
                Some(n) => str_eq(n.as_str(), pattern),
                None => false,
            };
            if contains_text(path, pattern) || by_name {
                assert(pattern_excludes(patterns[i as int], path@));
                return true;
            }
            i += 1;
        }
        false
    }
}

} // verus!
