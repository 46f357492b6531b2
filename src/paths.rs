//! File names, stems and extensions of `/`-separated paths.

use vstd::prelude::*;

verus! {

/// The position of the last `c` in `s`, or -1 when there is none.
pub open spec fn last_index_of(s: Seq<char>, c: char) -> int
    decreases s.len(),
{
    if s.len() == 0 {
        -1
    } else if s.last() == c {
        s.len() - 1
    } else {
        last_index_of(s.drop_last(), c)
    }
}

/// The last segment of a path: what follows its last `/`.
pub open spec fn last_segment(p: Seq<char>) -> Seq<char> {
    p.subrange(last_index_of(p, '/') + 1, p.len() as int)
}

/// Whether a segment names a file: it is neither empty, `.` nor `..`.
pub open spec fn is_file_name(n: Seq<char>) -> bool {
    n.len() != 0 && n != seq!['.'] && n != seq!['.', '.']
}

/// The stem and the extension of a file name. The name splits at its last
/// dot unless that dot is its first character; without such a dot the whole
/// name is the stem and the extension is empty.
pub open spec fn split_name(n: Seq<char>) -> (Seq<char>, Seq<char>) {
    let d = last_index_of(n, '.');
    if d <= 0 {
        (n, Seq::empty())
    } else {
        (n.subrange(0, d), n.subrange(d + 1, n.len() as int))
    }
}

/// The stem and the extension of the file that a path names, if it names one.
pub open spec fn file_parts(p: Seq<char>) -> Option<(Seq<char>, Seq<char>)> {
    let n = last_segment(p);
    if is_file_name(n) {
        Some(split_name(n))
    } else {
        None
    }
}

/// A path without the `/` characters that end it.
pub open spec fn trim_trailing_slashes(p: Seq<char>) -> Seq<char>
    decreases p.len(),
{
    if p.len() > 0 && p.last() == '/' {
        trim_trailing_slashes(p.drop_last())
    } else {
        p
    }
}

/// The name of the directory that a path leads to, if it has one.
pub open spec fn dir_name(p: Seq<char>) -> Option<Seq<char>> {
    let n = last_segment(trim_trailing_slashes(p));
    if n.len() == 0 {
        None
    } else {
        Some(n)
    }
}

proof fn lemma_last_index_bounds(s: Seq<char>, c: char)
    ensures
        -1 <= last_index_of(s, c) < s.len(),
        last_index_of(s, c) >= 0 ==> s[last_index_of(s, c)] == c,
    decreases s.len(),
{
    if s.len() > 0 && s.last() != c {
        lemma_last_index_bounds(s.drop_last(), c);
    }
}

/// The position of the last `c` in `s`, if any.
fn find_last(s: &str, c: char) -> (r: Option<usize>)
    ensures
        r is Some <==> last_index_of(s@, c) >= 0,
        r is Some ==> r->0 as int == last_index_of(s@, c),
{
    let n = s.unicode_len();
    let mut i: usize = n;
    assert(s@.take(n as int) =~= s@);
    while i > 0
        invariant
            i <= n,
            n == s@.len(),
            last_index_of(s@, c) == last_index_of(s@.take(i as int), c),
        decreases i,
    {
        let ch = s.get_char(i - 1);
        assert(s@.take(i as int).drop_last() =~= s@.take(i - 1));
        if ch == c {
            return Some(i - 1);
        }
        i = i - 1;
    }
    assert(s@.take(0) =~= Seq::<char>::empty());
    None
}

/// The stem and the extension of the file that `path` names, or `None` when
/// its last segment is empty, `.` or `..`.
pub fn split_file_name(path: &str) -> (r: Option<(String, String)>)
    ensures
        match r {
            Some(parts) => file_parts(path@) == Some((parts.0@, parts.1@)),
            None => file_parts(path@) is None,
        },
{
    proof {
        lemma_last_index_bounds(path@, '/');
    }
    let len = path.unicode_len();
    let start: usize = match find_last(path, '/') {
        Some(k) => k + 1,
        None => 0,
    };
    let name = path.substring_char(start, len);
    assert(name@ == last_segment(path@));
    let n = name.unicode_len();
    if n == 0 || (n == 1 && name.get_char(0) == '.') || (n == 2 && name.get_char(0) == '.'
        && name.get_char(1) == '.') {
        proof {
            if n == 1 {
                assert(name@ =~= seq!['.']);
            }
            if n == 2 {
                assert(name@ =~= seq!['.', '.']);
            }
        }
        return None;
    }
    assert(is_file_name(name@));
    proof {
        lemma_last_index_bounds(name@, '.');
    }
    match find_last(name, '.') {
        Some(d) if d > 0 => {
            let stem = name.substring_char(0, d);
            let ext = name.substring_char(d + 1, n);
            Some((String::from_str(stem), String::from_str(ext)))
        },
        _ => Some((String::from_str(name), String::new())),
    }
}

/// The name of the directory that `path` leads to: its last segment once the
/// `/` characters that end it are removed. `None` when nothing is left.
pub fn repo_name_of(path: &str) -> (r: Option<String>)
    ensures
        match r {
            Some(name) => dir_name(path@) == Some(name@),
            None => dir_name(path@) is None,
        },
{
    let mut end = path.unicode_len();
    assert(path@.take(end as int) =~= path@);
    while end > 0 && path.get_char(end - 1) == '/'
        invariant
            end <= path@.len(),
            trim_trailing_slashes(path@) == trim_trailing_slashes(path@.take(end as int)),
        decreases end,
    {
        assert(path@.take(end as int).drop_last() =~= path@.take(end - 1));
        end = end - 1;
    }
    let trimmed = path.substring_char(0, end);
    assert(trimmed@ =~= path@.take(end as int));
    assert(trim_trailing_slashes(trimmed@) == trimmed@);
    proof {
        lemma_last_index_bounds(trimmed@, '/');
    }
    let start: usize = match find_last(trimmed, '/') {
        Some(k) => k + 1,
        None => 0,
    };
    let name = trimmed.substring_char(start, end);
    if name.unicode_len() == 0 {
        None
    } else {
        Some(String::from_str(name))
    }
}

} // verus!
