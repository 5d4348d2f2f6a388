//! The parts of a file path that `std::path::Path` finds in it on Unix: the
//! file name, its stem and its extension.

use vstd::prelude::*;

verus! {

/// Where the path segment ending at `end` starts: just after the last `/`
/// before `end`, or at the start of the path.
pub open spec fn segment_start(path: Seq<char>, end: int) -> int
    decreases end,
{
    if end <= 0 {
        0
    } else if path[end - 1] == '/' {
        end
    } else {
        segment_start(path, end - 1)
    }
}

/// The last segment before `end` that is neither empty nor `.`, the way
/// `Path::components` read from the back skips repeated and trailing
/// separators and `.` components.
pub open spec fn last_part_before(path: Seq<char>, end: int) -> Option<Seq<char>>
    decreases end,
{
    if end <= 0 {
        None
    } else {
        let start = segment_start(path, end);
        let part = path.subrange(start, end);
        if part.len() > 0 && part != seq!['.'] {
            Some(part)
        } else if 0 < start <= end {
            last_part_before(path, start - 1)
        } else {
            None
        }
    }
}

/// The file name that `Path::file_name` finds in `path` on Unix: its last
/// component, unless that is `..` or there is none (an empty path, the root,
/// or only `.`).
pub open spec fn path_file_name(path: Seq<char>) -> Option<Seq<char>> {
    match last_part_before(path, path.len() as int) {
        Some(part) => if part == seq!['.', '.'] {
            None
        } else {
            Some(part)
        },
        None => None,
    }
}

/// Index of the last `.` before `end` in `name`, or -1.
pub open spec fn last_dot(name: Seq<char>, end: int) -> int
    decreases end,
{
    if end <= 0 {
        -1
    } else if name[end - 1] == '.' {
        end - 1
    } else {
        last_dot(name, end - 1)
    }
}

/// A file name's stem: what comes before its last `.`, or the whole name
/// when it has no `.` after its first character.
pub open spec fn stem_of(name: Seq<char>) -> Seq<char> {
    let dot = last_dot(name, name.len() as int);
    if dot <= 0 {
        name
    } else {
        name.subrange(0, dot)
    }
}

/// A file name's extension: what follows its last `.`, when that `.` is not
/// its first character.
pub open spec fn extension_of(name: Seq<char>) -> Option<Seq<char>> {
    let dot = last_dot(name, name.len() as int);
    if dot <= 0 {
        None
    } else {
        Some(name.subrange(dot + 1, name.len() as int))
    }
}

/// The file stem that `Path::file_stem` finds in `path` on Unix.
pub open spec fn path_stem(path: Seq<char>) -> Option<Seq<char>> {
    match path_file_name(path) {
        Some(name) => Some(stem_of(name)),
        None => None,
    }
}

/// The extension that `Path::extension` finds in `path` on Unix.
pub open spec fn path_extension(path: Seq<char>) -> Option<Seq<char>> {
    match path_file_name(path) {
        Some(name) => extension_of(name),
        None => None,
    }
}

/// The view of an optional string.
pub open spec fn opt_view(s: Option<String>) -> Option<Seq<char>> {
    match s {
        Some(t) => Some(t@),
        None => None,
    }
}

fn segment_start_at(path: &Vec<char>, end: usize) -> (start: usize)
    requires
        end <= path@.len(),
    ensures
        start == segment_start(path@, end as int),
        start <= end,
{
    let mut i = end;
    while i > 0 && path[i - 1] != '/'
        invariant
            i <= end <= path@.len(),
            segment_start(path@, end as int) == segment_start(path@, i as int),
        decreases i,
    {
        i = i - 1;
    }
    i
}

fn copy_range(chars: &Vec<char>, start: usize, end: usize) -> (part: Vec<char>)
    requires
        start <= end <= chars@.len(),
    ensures
        part@ == chars@.subrange(start as int, end as int),
{
    let mut part: Vec<char> = Vec::new();
    let mut i = start;
    while i < end
        invariant
            start <= i <= end <= chars@.len(),
            part@ == chars@.subrange(start as int, i as int),
        decreases end - i,
    {
        part.push(chars[i]);
        assert(chars@.subrange(start as int, i as int + 1) =~= chars@.subrange(start as int, i as int).push(
            chars@[i as int],
        ));
        i = i + 1;
    }
    part
}

fn file_name_chars(path: &Vec<char>) -> (name: Option<Vec<char>>)
    ensures
        match name {
            Some(n) => path_file_name(path@) == Some(n@),
            None => path_file_name(path@) is None,
        },
{
    let mut end = path.len();
    loop
        invariant
            end <= path@.len(),
            last_part_before(path@, path@.len() as int) == last_part_before(path@, end as int),
        decreases end,
    {
        if end == 0 {
            return None;
        }
        let start = segment_start_at(path, end);
        let part = copy_range(path, start, end);
        let is_dot = part.len() == 1 && part[0] == '.';
        proof {
            if part@.len() == 1 {
                assert(is_dot <==> part@ =~= seq!['.']);
            } else {
                assert(part@ != seq!['.']);
            }
        }
        if part.len() > 0 && !is_dot {
            let is_parent = part.len() == 2 && part[0] == '.' && part[1] == '.';
            proof {
                if part@.len() == 2 {
                    assert(is_parent <==> part@ =~= seq!['.', '.']);
                } else {
                    assert(part@ != seq!['.', '.']);
                }
            }
            if is_parent {
                return None;
            }
            return Some(part);
        }
        if start == 0 {
            return None;
        }
        end = start - 1;
    }
}

fn last_dot_in(name: &Vec<char>) -> (dot: Option<usize>)
    ensures
        match dot {
            Some(d) => d < name@.len() && last_dot(name@, name@.len() as int) == d as int,
            None => last_dot(name@, name@.len() as int) == -1,
        },
{
    let mut end = name.len();
    while end > 0 && name[end - 1] != '.'
        invariant
            end <= name@.len(),
            last_dot(name@, name@.len() as int) == last_dot(name@, end as int),
        decreases end,
    {
        end = end - 1;
    }
    if end == 0 {
        None
    } else {
        Some(end - 1)
    }
}

/// `Path::file_name` of `path` on Unix.
pub fn file_name(path: &str) -> (name: Option<String>)
    ensures
        opt_view(name) == path_file_name(path@),
{
    let chars = crate::text::chars_of(path);
    match file_name_chars(&chars) {
        Some(part) => Some(crate::text::string_from(part.as_slice())),
        None => None,
    }
}

/// `Path::file_stem` of `path` on Unix.
pub fn file_stem(path: &str) -> (stem: Option<String>)
    ensures
        opt_view(stem) == path_stem(path@),
{
    let chars = crate::text::chars_of(path);
    match file_name_chars(&chars) {
        Some(name) => match last_dot_in(&name) {
            Some(dot) => if dot == 0 {
                Some(crate::text::string_from(name.as_slice()))
            } else {
                let stem = copy_range(&name, 0, dot);
                Some(crate::text::string_from(stem.as_slice()))
            },
            None => Some(crate::text::string_from(name.as_slice())),
        },
        None => None,
    }
}

/// `Path::extension` of `path` on Unix.
pub fn extension(path: &str) -> (ext: Option<String>)
    ensures
        opt_view(ext) == path_extension(path@),
{
    let chars = crate::text::chars_of(path);
    match file_name_chars(&chars) {
        Some(name) => match last_dot_in(&name) {
            Some(dot) => if dot == 0 {
                None
            } else {
                assert(dot < name@.len());
                assert(name@.len() == name.len());
                let ext = copy_range(&name, dot + 1, name.len());
                Some(crate::text::string_from(ext.as_slice()))
            },
            None => None,
        },
        None => None,
    }
}

} // verus!
