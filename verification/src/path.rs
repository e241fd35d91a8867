//! Paths as text.
//!
//! A path is a text whose components are parted by `/`. The name of a file is
//! what follows the last `/`; its extension is what follows the last `.` of the
//! name, unless that `.` opens the name.

use crate::text::{from_chars, to_chars};
use vstd::prelude::*;

verus! {

/// The place of the last `c` before `end`, or -1.
pub open spec fn last_before(s: Seq<char>, c: char, end: int) -> int
    decreases end,
{
    if end <= 0 {
        -1
    } else if s[end - 1] == c {
        end - 1
    } else {
        last_before(s, c, end - 1)
    }
}

/// Where the name of the file starts.
pub open spec fn name_start(path: Seq<char>) -> int {
    last_before(path, '/', path.len() as int) + 1
}

/// Where the stem of the file's name ends: at the `.` of the extension, or at
/// the end of the path where the name has none.
pub open spec fn stem_end(path: Seq<char>) -> int {
    let dot = last_before(path, '.', path.len() as int);
    if dot > name_start(path) {
        dot
    } else {
        path.len() as int
    }
}

/// The name of the file without its extension.
pub open spec fn stem_of(path: Seq<char>) -> Seq<char> {
    path.subrange(name_start(path), stem_end(path))
}

/// The extension of the file's name; empty where it has none.
pub open spec fn extension_of(path: Seq<char>) -> Seq<char> {
    if stem_end(path) < path.len() {
        path.subrange(stem_end(path) + 1, path.len() as int)
    } else {
        Seq::empty()
    }
}

/// The path with the extension of its file replaced; a path that names no
/// file is left as it is.
pub open spec fn replaced_extension(path: Seq<char>, extension: Seq<char>) -> Seq<char> {
    if name_start(path) >= path.len() {
        path
    } else {
        path.subrange(0, stem_end(path)) + seq!['.'] + extension
    }
}

/// The path of `component` under `base`. A component that starts at the root
/// stands for itself.
pub open spec fn joined(base: Seq<char>, component: Seq<char>) -> Seq<char> {
    if base.len() == 0 || (component.len() > 0 && component[0] == '/') {
        component
    } else if base.last() == '/' {
        base + component
    } else {
        base + seq!['/'] + component
    }
}

fn find_last(chars: &Vec<char>, c: char) -> (r: Option<usize>)
    ensures
        match r {
            Some(i) => i == last_before(chars@, c, chars@.len() as int) && i < chars@.len(),
            None => last_before(chars@, c, chars@.len() as int) == -1,
        },
{
    let mut end = chars.len();
    while end > 0
        invariant
            end <= chars@.len(),
            last_before(chars@, c, chars@.len() as int) == last_before(chars@, c, end as int),
        decreases end,
    {
        if chars[end - 1] == c {
            return Some(end - 1);
        }
        end -= 1;
    }
    None
}

fn find_name_start(chars: &Vec<char>) -> (r: usize)
    ensures
        r == name_start(chars@),
        r <= chars@.len(),
{
    let len = chars.len();
    match find_last(chars, '/') {
        Some(i) => {
            assert(i < len);
            i + 1
        },
        None => 0,
    }
}

fn find_stem_end(chars: &Vec<char>) -> (r: usize)
    ensures
        r == stem_end(chars@),
        name_start(chars@) <= r <= chars@.len(),
{
    let start = find_name_start(chars);
    match find_last(chars, '.') {
        Some(dot) => if dot > start {
            dot
        } else {
            chars.len()
        },
        None => chars.len(),
    }
}

/// The path of `component` under `base`.
pub fn join(base: &str, component: &str) -> (path: String)
    ensures
        path@ == joined(base@, component@),
{
    let b = to_chars(base);
    let c = to_chars(component);
    if b.len() == 0 || (c.len() > 0 && c[0] == '/') {
        return component.to_owned();
    }
    let mut path = base.to_owned();
    if b[b.len() - 1] != '/' {
        path.push('/');
    }
    path.append(component);
    path
}

/// The name of the file without its extension.
pub fn file_stem(path: &str) -> (stem: String)
    ensures
        stem@ == stem_of(path@),
{
    let chars = to_chars(path);
    let start = find_name_start(&chars);
    let end = find_stem_end(&chars);
    from_chars(&chars, start, end)
}

/// Tells whether the file has the extension `extension`.
pub fn has_extension(path: &str, extension: &str) -> (r: bool)
    ensures
        r == (stem_end(path@) < path@.len() && extension_of(path@) == extension@),
{
    let chars = to_chars(path);
    let end = find_stem_end(&chars);
    if end < chars.len() {
        let found = from_chars(&chars, end + 1, chars.len());
        found.as_str().eq(extension)
    } else {
        false
    }
}

/// The path with the extension of its file replaced by `extension`.
pub fn with_extension(path: &str, extension: &str) -> (r: String)
    ensures
        r@ == replaced_extension(path@, extension@),
{
    let chars = to_chars(path);
    let start = find_name_start(&chars);
    if start >= chars.len() {
        return path.to_owned();
    }
    let end = find_stem_end(&chars);
    let mut r = from_chars(&chars, 0, end);
    r.push('.');
    r.append(extension);
    r
}

} // verus!
