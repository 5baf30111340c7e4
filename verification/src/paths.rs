//! Texts that are paths: `::`-separated type paths and `/`-separated file
//! paths.

use vstd::prelude::*;
use vstd::string::*;
use crate::text::{chars_of, str_eq, string_of};

verus! {

/// A piece of a type path: kept unless it is empty.
pub open spec fn piece(t: Seq<char>) -> Seq<Seq<char>> {
    if t.len() == 0 {
        Seq::empty()
    } else {
        seq![t]
    }
}

/// The segments of `s` from position `i` on, where the segment at hand began
/// at `start`.
pub open spec fn segments_from(s: Seq<char>, start: int, i: int) -> Seq<Seq<char>>
    decreases s.len() - i,
{
    if i >= s.len() {
        if 0 <= start <= s.len() {
            piece(s.subrange(start, s.len() as int))
        } else {
            Seq::empty()
        }
    } else if 0 <= start <= i && i + 1 < s.len() && s[i] == ':' && s[i + 1] == ':' {
        piece(s.subrange(start, i)) + segments_from(s, i + 2, i + 2)
    } else {
        segments_from(s, start, i + 1)
    }
}

/// The segments of a type path: the pieces between `::`, read from the left,
/// without the empty ones.
pub open spec fn path_segments(s: Seq<char>) -> Seq<Seq<char>> {
    segments_from(s, 0, 0)
}

/// Splits a type path into its segments.
pub fn split_type_path(s: &str) -> (r: Vec<String>)
    ensures
        r.deep_view() == path_segments(s@),
{
    let chars = chars_of(s);
    let n = chars.len();
    let mut out: Vec<String> = Vec::new();
    let mut start: usize = 0;
    let mut i: usize = 0;
    while i < n
        invariant
            start <= i <= n,
            n == chars@.len(),
            chars@ == s@,
            out.deep_view() + segments_from(s@, start as int, i as int) == path_segments(s@),
        decreases n - i,
    {
        if i + 1 < n && chars[i] == ':' && chars[i + 1] == ':' {
            if start < i {
                let segment = string_of(&chars, start, i);
                out.push(segment);
            }
            i += 2;
            start = i;
        } else {
            i += 1;
        }
    }
    if start < n {
        let segment = string_of(&chars, start, n);
        out.push(segment);
    }
    out
}

/// A piece of a file path as a component: kept unless it is empty, or is `.`
/// anywhere but at the start of the path.
pub open spec fn component(t: Seq<char>, at_start: bool) -> Seq<Seq<char>> {
    if t.len() == 0 || (t == "."@ && !at_start) {
        Seq::empty()
    } else {
        seq![t]
    }
}

/// The components of `s` from position `i` on, where the component at hand
/// began at `start`.
pub open spec fn components_from(s: Seq<char>, start: int, i: int) -> Seq<Seq<char>>
    decreases s.len() - i,
{
    if i >= s.len() {
        if 0 <= start <= s.len() {
            component(s.subrange(start, s.len() as int), start == 0)
        } else {
            Seq::empty()
        }
    } else if 0 <= start <= i && s[i] == '/' {
        component(s.subrange(start, i), start == 0) + components_from(s, i + 1, i + 1)
    } else {
        components_from(s, start, i + 1)
    }
}

/// The components of a file path: `/` for the root of an absolute path, then
/// the pieces between `/`. Empty pieces are dropped, and so is `.` after the
/// start.
pub open spec fn file_components(s: Seq<char>) -> Seq<Seq<char>> {
    if s.len() > 0 && s[0] == '/' {
        seq!["/"@] + components_from(s, 0, 0)
    } else {
        components_from(s, 0, 0)
    }
}

/// Splits a file path into its components.
pub fn split_file_path(s: &str) -> (r: Vec<String>)
    ensures
        r.deep_view() == file_components(s@),
{
    let chars = chars_of(s);
    let n = chars.len();
    let mut out: Vec<String> = Vec::new();
    let mut start: usize = 0;
    let mut i: usize = 0;
    if n > 0 && chars[0] == '/' {
        let root = String::from_str("/");
        out.push(root);
    }
    while i < n
        invariant
            start <= i <= n,
            n == chars@.len(),
            chars@ == s@,
            out.deep_view() + components_from(s@, start as int, i as int) == file_components(s@),
        decreases n - i,
    {
        if chars[i] == '/' {
            if start < i {
                let part = string_of(&chars, start, i);
                if start == 0 || !str_eq(part.as_str(), ".") {
                    out.push(part);
                }
            }
            i += 1;
            start = i;
        } else {
            i += 1;
        }
    }
    if start < n {
        let part = string_of(&chars, start, n);
        if start == 0 || !str_eq(part.as_str(), ".") {
            out.push(part);
        }
    }
    out
}

/// Whether a component names a file or a directory: any component but the
/// root, `.` and `..`.
pub open spec fn is_normal_component(c: Seq<char>) -> bool {
    c != "/"@ && c != "."@ && c != ".."@
}

/// Whether a component names a file or a directory.
pub fn is_normal(c: &str) -> (r: bool)
    ensures
        r == is_normal_component(c@),
{
    !str_eq(c, "/") && !str_eq(c, ".") && !str_eq(c, "..")
}

/// The last component of a file path, where it names a file or a directory.
pub open spec fn file_name_of(path: Seq<char>) -> Option<Seq<char>> {
    let components = file_components(path);
    if components.len() > 0 && is_normal_component(components.last()) {
        Some(components.last())
    } else {
        None
    }
}

/// The last component of a file path, where it names a file or a directory.
pub fn file_name(path: &str) -> (r: Option<String>)
    ensures
        r.deep_view() == file_name_of(path@),
{
    let mut components = split_file_path(path);
    let n = components.len();
    if n > 0 && is_normal(components[n - 1].as_str()) {
        components.pop()
    } else {
        None
    }
}

/// The position of the last `.` among the first `n` characters, if any.
pub open spec fn last_dot(name: Seq<char>, n: int) -> Option<int>
    decreases n,
{
    if n <= 0 || n > name.len() {
        None
    } else if name[n - 1] == '.' {
        Some(n - 1)
    } else {
        last_dot(name, n - 1)
    }
}

/// The extension of a file name: what follows its last `.`, unless that is
/// the first character of the name.
pub open spec fn extension_of_name(name: Seq<char>) -> Option<Seq<char>> {
    match last_dot(name, name.len() as int) {
        Some(dot) => if dot > 0 {
            Some(name.subrange(dot + 1, name.len() as int))
        } else {
            None
        },
        None => None,
    }
}

/// The extension of the file that a path names.
pub open spec fn extension_of(path: Seq<char>) -> Option<Seq<char>> {
    match file_name_of(path) {
        Some(name) => extension_of_name(name),
        None => None,
    }
}

/// The extension of the file that a path names.
pub fn extension(path: &str) -> (r: Option<String>)
    ensures
        r.deep_view() == extension_of(path@),
{
    match file_name(path) {
        None => None,
        Some(name) => {
            let chars = chars_of(name.as_str());
            let n = chars.len();
            let mut i: usize = n;
            while i > 0
                invariant
                    i <= n,
                    n == chars@.len(),
                    chars@ == name@,
                    extension_of(path@) == extension_of_name(name@),
                    last_dot(name@, n as int) == last_dot(name@, i as int),
                decreases i,
            {
                if chars[i - 1] == '.' {
                    if i - 1 > 0 {
                        return Some(string_of(&chars, i, n));
                    } else {
                        return None;
                    }
                }
                i -= 1;
            }
            None
        },
    }
}

/// Whether `needle` occurs in `hay` as a run of consecutive characters.
pub open spec fn is_substring(needle: Seq<char>, hay: Seq<char>) -> bool {
    exists|k: int|
        0 <= k && k + needle.len() <= hay.len() && #[trigger] hay.subrange(
            k,
            k + needle.len(),
        ) == needle
}

/// Whether `needle` occurs in `hay`.
pub fn contains_text(hay: &str, needle: &str) -> (r: bool)
    ensures
        r == is_substring(needle@, hay@),
{
    let h = chars_of(hay);
    let m = chars_of(needle);
    if m.len() > h.len() {
        return false;
    }
    let last = h.len() - m.len();
    let mut k: usize = 0;
    loop
        invariant
            k <= last,
            last == h@.len() - m@.len(),
            h@.len() == h.len(),
            h@ == hay@,
            m@ == needle@,
            forall|j: int| 0 <= j < k ==> #[trigger] hay@.subrange(j, j + needle@.len()) != needle@,
        decreases last - k,
    {
        let mut i: usize = 0;
        while i < m.len() && h[k + i] == m[i]
            invariant
                i <= m@.len(),
                k + m@.len() <= h@.len(),
                h@.len() <= usize::MAX,
                forall|j: int| 0 <= j < i ==> h@[k + j] == m@[j],
            decreases m@.len() - i,
        {
            i += 1;
        }
        if i == m.len() {
            assert(hay@.subrange(k as int, k + needle@.len()) =~= needle@);
            return true;
        }
        if k == last {
            return false;
        }
        k += 1;
    }
}

/// Whether the text ends with `.rs`.
pub open spec fn ends_with_rs(s: Seq<char>) -> bool {
    s.len() >= 3 && s[s.len() - 3] == '.' && s[s.len() - 2] == 'r' && s[s.len() - 1] == 's'
}

/// The text without any `.rs` at its end, however often it is repeated.
pub open spec fn without_rs(s: Seq<char>) -> Seq<char>
    decreases s.len(),
{
    if ends_with_rs(s) {
        without_rs(s.take(s.len() - 3))
    } else {
        s
    }
}

/// Removes every `.rs` from the end of the text.
pub fn trim_rs(s: &str) -> (r: String)
    ensures
        r@ == without_rs(s@),
{
    let chars = chars_of(s);
    let mut n: usize = chars.len();
    assert(s@.take(n as int) =~= s@);
    while n >= 3 && chars[n - 3] == '.' && chars[n - 2] == 'r' && chars[n - 1] == 's'
        invariant
            n <= chars@.len(),
            chars@ == s@,
            without_rs(s@) == without_rs(s@.take(n as int)),
        decreases n,
    {
        proof {
            assert(s@.take(n as int).take(n - 3) =~= s@.take(n - 3));
        }
        n -= 3;
    }
    string_of(&chars, 0, n)
}

} // verus!
