//! Paths as text. Components are separated by `/` and by nothing else: a
//! backslash is a character of a name like any other. A caller on a system
//! that writes its paths otherwise hands them over with `/` between the
//! components. Nothing here touches a file system.

use crate::text::{chars_of, str_eq};
use vstd::prelude::*;
use vstd::string::*;

verus! {

/// The end of the last component of `p[..to]` that is a name: separators
/// at the end, and components that are a single dot, are passed over.
pub open spec fn name_end(p: Seq<char>, to: int) -> int
    decreases to,
{
    if to <= 0 {
        0
    } else if p[to - 1] == '/' {
        name_end(p, to - 1)
    } else if p[to - 1] == '.' && (to == 1 || p[to - 2] == '/') {
        name_end(p, to - 1)
    } else {
        to
    }
}

/// The start of the component that ends at `i`.
pub open spec fn name_start(p: Seq<char>, i: int) -> int
    decreases i,
{
    if i <= 0 {
        0
    } else if p[i - 1] == '/' {
        i
    } else {
        name_start(p, i - 1)
    }
}

/// The text `..`, which names the parent directory and no file.
pub open spec fn parent_marker() -> Seq<char> {
    seq!['.', '.']
}

/// The final component of the path, where it is a name: `None` for the
/// empty path, the root, and a path that ends in `..`. Only `/` ends a
/// component, so that a path written with another separator is one name.
pub open spec fn file_name(p: Seq<char>) -> Option<Seq<char>> {
    let end = name_end(p, p.len() as int);
    let name = p.subrange(name_start(p, end), end);
    if end == 0 || name == parent_marker() {
        None
    } else {
        Some(name)
    }
}

/// The position of the last dot in `name[..to]`, or -1.
pub open spec fn last_dot(name: Seq<char>, to: int) -> int
    decreases to,
{
    if to <= 0 {
        -1
    } else if name[to - 1] == '.' {
        to - 1
    } else {
        last_dot(name, to - 1)
    }
}

/// What follows the last dot of the file name; `None` where there is no
/// file name, no dot in it, or only the dot it begins with.
pub open spec fn extension(p: Seq<char>) -> Option<Seq<char>> {
    match file_name(p) {
        None => None,
        Some(name) => {
            let dot = last_dot(name, name.len() as int);
            if dot <= 0 {
                None
            } else {
                Some(name.subrange(dot + 1, name.len() as int))
            }
        },
    }
}

/// The file name without its extension and the dot before it.
pub open spec fn file_stem(p: Seq<char>) -> Option<Seq<char>> {
    match file_name(p) {
        None => None,
        Some(name) => {
            let dot = last_dot(name, name.len() as int);
            if dot <= 0 {
                Some(name)
            } else {
                Some(name.subrange(0, dot))
            }
        },
    }
}

/// `name` below `base`: an absolute `name` stands alone, and a separator is
/// put between the two where `base` does not end in one.
pub open spec fn joined(base: Seq<char>, name: Seq<char>) -> Seq<char> {
    if name.len() > 0 && name[0] == '/' {
        name
    } else if base.len() == 0 || base.last() == '/' {
        base + name
    } else {
        base + seq!['/'] + name
    }
}

/// The name under which `path` stands directly in the directory `dir`,
/// both relative to the same root; the empty `dir` is that root itself.
pub open spec fn name_in(path: Seq<char>, dir: Seq<char>) -> Option<Seq<char>> {
    if dir.len() == 0 {
        if path.len() > 0 && !path.contains('/') {
            Some(path)
        } else {
            None
        }
    } else {
        let name = path.subrange(dir.len() as int + 1, path.len() as int);
        if path.len() > dir.len() + 1 && path.subrange(0, dir.len() as int) == dir
            && path[dir.len() as int] == '/' && !name.contains('/') {
            Some(name)
        } else {
            None
        }
    }
}

proof fn lemma_name_end_bounds(p: Seq<char>, to: int)
    requires
        0 <= to <= p.len(),
    ensures
        0 <= name_end(p, to) <= to,
        name_end(p, to) > 0 ==> p[name_end(p, to) - 1] != '/',
    decreases to,
{
    if to > 0 && (p[to - 1] == '/' || (p[to - 1] == '.' && (to == 1 || p[to - 2] == '/'))) {
        lemma_name_end_bounds(p, to - 1);
    }
}

proof fn lemma_name_start_bounds(p: Seq<char>, i: int)
    requires
        0 <= i <= p.len(),
    ensures
        0 <= name_start(p, i) <= i,
        i > 0 && p[i - 1] != '/' ==> name_start(p, i) < i,
    decreases i,
{
    if i > 0 && p[i - 1] != '/' {
        lemma_name_start_bounds(p, i - 1);
    }
}

/// Where the file name of the path stands in it.
fn name_bounds(v: &Vec<char>) -> (r: Option<(usize, usize)>)
    ensures
        match r {
            Some((start, end)) => start < end <= v.len() && file_name(v@) == Some(
                v@.subrange(start as int, end as int),
            ),
            None => file_name(v@) is None,
        },
{
    let mut end: usize = v.len();
    while end > 0 && (v[end - 1] == '/' || (v[end - 1] == '.' && (end == 1 || v[end - 2] == '/')))
        invariant
            end <= v.len(),
            name_end(v@, v.len() as int) == name_end(v@, end as int),
        decreases end,
    {
        end = end - 1;
    }
    if end == 0 {
        return None;
    }
    let mut start: usize = end;
    while start > 0 && v[start - 1] != '/'
        invariant
            start <= end <= v.len(),
            name_start(v@, end as int) == name_start(v@, start as int),
        decreases start,
    {
        start = start - 1;
    }
    proof {
        lemma_name_end_bounds(v@, v.len() as int);
        lemma_name_start_bounds(v@, end as int);
    }
    let ghost name = v@.subrange(start as int, end as int);
    if end - start == 2 && v[start] == '.' && v[start + 1] == '.' {
        assert(name =~= parent_marker());
        None
    } else {
        assert(name != parent_marker()) by {
            if name == parent_marker() {
                assert(name.len() == 2);
                assert(name[0] == '.' && name[1] == '.');
            }
        }
        Some((start, end))
    }
}

/// Where the last dot of the file name `v[start..end]` stands, counted
/// within the name; `None` where `last_dot` is -1.
fn dot_index(v: &Vec<char>, start: usize, end: usize) -> (r: Option<usize>)
    requires
        start <= end <= v.len(),
    ensures
        match r {
            Some(d) => d < end - start && d == last_dot(
                v@.subrange(start as int, end as int),
                end - start,
            ),
            None => last_dot(v@.subrange(start as int, end as int), end - start) == -1,
        },
{
    let ghost name = v@.subrange(start as int, end as int);
    let mut k: usize = end - start;
    while k > 0
        invariant
            k <= end - start,
            start <= end <= v.len(),
            name == v@.subrange(start as int, end as int),
            last_dot(name, end - start) == last_dot(name, k as int),
        decreases k,
    {
        assert(name[k - 1] == v@[start + k - 1]);
        if v[start + k - 1] == '.' {
            return Some(k - 1);
        }
        k = k - 1;
    }
    None
}

/// The final component of the path, where it is a name.
pub fn file_name_of(path: &str) -> (r: Option<String>)
    ensures
        r is Some <==> file_name(path@) is Some,
        r is Some ==> Some(r->0@) == file_name(path@),
{
    let v = chars_of(path);
    match name_bounds(&v) {
        None => None,
        Some((start, end)) => Some(String::from_str(path.substring_char(start, end))),
    }
}

/// What follows the last dot of the path's file name.
pub fn extension_of(path: &str) -> (r: Option<String>)
    ensures
        r is Some <==> extension(path@) is Some,
        r is Some ==> Some(r->0@) == extension(path@),
{
    let v = chars_of(path);
    match name_bounds(&v) {
        None => None,
        Some((start, end)) => {
            let ghost name = v@.subrange(start as int, end as int);
            match dot_index(&v, start, end) {
                None => None,
                Some(dot) => {
                    if dot == 0 {
                        None
                    } else {
                        assert(name.subrange(dot + 1, name.len() as int) =~= v@.subrange(
                            start + dot + 1,
                            end as int,
                        ));
                        Some(String::from_str(path.substring_char(start + dot + 1, end)))
                    }
                },
            }
        },
    }
}

/// The path's file name without its extension.
pub fn file_stem_of(path: &str) -> (r: Option<String>)
    ensures
        r is Some <==> file_stem(path@) is Some,
        r is Some ==> Some(r->0@) == file_stem(path@),
{
    let v = chars_of(path);
    match name_bounds(&v) {
        None => None,
        Some((start, end)) => {
            let ghost name = v@.subrange(start as int, end as int);
            match dot_index(&v, start, end) {
                None => Some(String::from_str(path.substring_char(start, end))),
                Some(dot) => {
                    if dot == 0 {
                        Some(String::from_str(path.substring_char(start, end)))
                    } else {
                        assert(name.subrange(0, dot as int) =~= v@.subrange(
                            start as int,
                            start + dot,
                        ));
                        Some(String::from_str(path.substring_char(start, start + dot)))
                    }
                },
            }
        },
    }
}

/// True where the extension of the path's file name is exactly `ext`.
pub fn has_extension(path: &str, ext: &str) -> (r: bool)
    ensures
        r == (extension(path@) == Some(ext@)),
{
    match extension_of(path) {
        None => false,
        Some(found) => str_eq(found.as_str(), ext),
    }
}

/// `name` below `base`.
pub fn join_path(base: &str, name: &str) -> (r: String)
    ensures
        r@ == joined(base@, name@),
{
    let b = chars_of(base);
    let n = chars_of(name);
    if n.len() > 0 && n[0] == '/' {
        String::from_str(name)
    } else if b.len() == 0 || b[b.len() - 1] == '/' {
        String::from_str(base).concat(name)
    } else {
        proof {
            reveal_strlit("/");
            assert("/"@ =~= seq!['/']);
        }
        String::from_str(base).concat("/").concat(name)
    }
}

/// True where no character of `v[from..]` is a separator.
fn no_separator_from(v: &Vec<char>, from: usize) -> (r: bool)
    requires
        from <= v.len(),
    ensures
        r == !v@.subrange(from as int, v.len() as int).contains('/'),
{
    let ghost rest = v@.subrange(from as int, v.len() as int);
    let mut i: usize = from;
    while i < v.len()
        invariant
            from <= i <= v.len(),
            rest == v@.subrange(from as int, v.len() as int),
            forall|j: int| 0 <= j < i - from ==> rest[j] != '/',
        decreases v.len() - i,
    {
        if v[i] == '/' {
            assert(rest[i - from] == '/');
            return false;
        }
        i = i + 1;
    }
    true
}

/// The name under which `path` stands directly in the directory `dir`.
pub fn entry_name_in(path: &str, dir: &str) -> (r: Option<String>)
    ensures
        r is Some <==> name_in(path@, dir@) is Some,
        r is Some ==> Some(r->0@) == name_in(path@, dir@),
{
    let p = chars_of(path);
    let d = chars_of(dir);
    if d.len() == 0 {
        assert(p@.subrange(0, p.len() as int) =~= p@);
        if p.len() > 0 && no_separator_from(&p, 0) {
            return Some(String::from_str(path));
        }
        return None;
    }
    if p.len() <= d.len() || p.len() - d.len() < 2 {
        return None;
    }
    let mut i: usize = 0;
    while i < d.len()
        invariant
            0 < d.len() < p.len(),
            i <= d.len(),
            p@ == path@,
            d@ == dir@,
            forall|j: int| 0 <= j < i ==> p@[j] == d@[j],
        decreases d.len() - i,
    {
        if p[i] != d[i] {
            assert(p@.subrange(0, d.len() as int)[i as int] != d@[i as int]);
            return None;
        }
        i = i + 1;
    }
    assert(p@.subrange(0, d.len() as int) =~= d@);
    if p[d.len()] == '/' && no_separator_from(&p, d.len() + 1) {
        Some(String::from_str(path.substring_char(d.len() + 1, p.len())))
    } else {
        None
    }
}

} // verus!
