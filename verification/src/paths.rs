//! File paths as texts, with `/` between their parts.
use vstd::prelude::*;

use crate::text::{cat2, cat3, ends_in, lower_ends_with, lowered};

verus! {

/// The last place of a character in a text, or -1.
pub open spec fn last_place(s: Seq<char>, c: char) -> int
    decreases s.len(),
{
    if s.len() == 0 {
        -1
    } else if s.last() == c {
        s.len() - 1
    } else {
        last_place(s.drop_last(), c)
    }
}

/// The last place of a character is its last place.
pub proof fn last_place_is_last(s: Seq<char>, c: char)
    ensures
        -1 <= last_place(s, c) < s.len(),
        last_place(s, c) >= 0 ==> s[last_place(s, c)] == c,
        forall|i: int| last_place(s, c) < i < s.len() ==> s[i] != c,
    decreases s.len(),
{
    if s.len() > 0 && s.last() != c {
        last_place_is_last(s.drop_last(), c);
        assert forall|i: int| last_place(s, c) < i < s.len() implies s[i] != c by {
            if i < s.len() - 1 {
                assert(s.drop_last()[i] == s[i]);
            }
        }
    }
}

/// The last part of a path.
pub open spec fn file_name(path: Seq<char>) -> Seq<char> {
    path.subrange(last_place(path, '/') + 1, path.len() as int)
}

/// The last part of a path, without its extension. A leading dot begins no extension.
pub open spec fn file_stem(path: Seq<char>) -> Seq<char> {
    let name = file_name(path);
    let dot = last_place(name, '.');
    if dot > 0 {
        name.subrange(0, dot)
    } else {
        name
    }
}

/// The path that a file lies in; empty where the path has one part.
pub open spec fn parent_dir(path: Seq<char>) -> Seq<char> {
    let slash = last_place(path, '/');
    if slash > 0 {
        path.subrange(0, slash)
    } else if slash == 0 {
        path.subrange(0, 1)
    } else {
        Seq::empty()
    }
}

/// A name inside a directory. A name that starts at the root stands for itself.
pub open spec fn joined_path(dir: Seq<char>, name: Seq<char>) -> Seq<char> {
    if name.len() > 0 && name[0] == '/' || dir.len() == 0 {
        name
    } else if dir.last() == '/' {
        dir + name
    } else {
        dir + "/"@ + name
    }
}

/// Where the last `c` of a text stands, counted from one; zero where there is none.
fn after_last(s: &str, c: char) -> (r: usize)
    ensures
        r == last_place(s@, c) + 1,
        r <= s@.len(),
{
    let mut n: usize = s.unicode_len();
    assert(s@.subrange(0, n as int) =~= s@);
    while n > 0 && s.get_char(n - 1) != c
        invariant
            n <= s@.len(),
            last_place(s@, c) == last_place(s@.subrange(0, n as int), c),
        ensures
            n <= s@.len(),
            last_place(s@, c) == n - 1,
        decreases n,
    {
        assert(s@.subrange(0, n as int).drop_last() =~= s@.subrange(0, n - 1));
        n -= 1;
    }
    n
}

/// The last part of a path.
pub fn file_name_of(path: &str) -> (r: &str)
    ensures
        r@ == file_name(path@),
{
    let k: usize = after_last(path, '/');
    path.substring_char(k, path.unicode_len())
}

/// The last part of a path, without its extension.
pub fn file_stem_of(path: &str) -> (r: &str)
    ensures
        r@ == file_stem(path@),
{
    let name = file_name_of(path);
    let k: usize = after_last(name, '.');
    if k > 1 {
        name.substring_char(0, k - 1)
    } else {
        name
    }
}

/// The path that a file lies in.
pub fn parent_of(path: &str) -> (r: &str)
    ensures
        r@ == parent_dir(path@),
{
    let k: usize = after_last(path, '/');
    if k > 1 {
        path.substring_char(0, k - 1)
    } else if k == 1 {
        path.substring_char(0, 1)
    } else {
        let r = path.substring_char(0, 0);
        assert(r@ =~= Seq::<char>::empty());
        r
    }
}

/// A name inside a directory.
pub fn join_path(dir: &str, name: &str) -> (r: String)
    ensures
        r@ == joined_path(dir@, name@),
{
    let n: usize = dir.unicode_len();
    if n == 0 || name.unicode_len() > 0 && name.get_char(0) == '/' {
        String::from_str(name)
    } else if dir.get_char(n - 1) == '/' {
        cat2(dir, name)
    } else {
        cat3(dir, "/", name)
    }
}

/// The formats a drawing is read from, by the extension of its path.
#[derive(Clone, Copy, Debug, PartialEq, Eq, Structural)]
pub enum Format {
    Dxf,
    Rsm,
    Dwg,
}

/// The format that a path's extension stands for, in either case of letters.
pub open spec fn format_of(path: Seq<char>) -> Option<Format> {
    if ends_in(lowered(path), ".dxf"@) {
        Some(Format::Dxf)
    } else if ends_in(lowered(path), ".rsm"@) {
        Some(Format::Rsm)
    } else if ends_in(lowered(path), ".dwg"@) {
        Some(Format::Dwg)
    } else {
        None
    }
}

/// The format that a path's extension stands for.
pub fn path_format(path: &str) -> (r: Option<Format>)
    ensures
        r == format_of(path@),
{
    if lower_ends_with(path, ".dxf") {
        Some(Format::Dxf)
    } else if lower_ends_with(path, ".rsm") {
        Some(Format::Rsm)
    } else if lower_ends_with(path, ".dwg") {
        Some(Format::Dwg)
    } else {
        None
    }
}

/// The name of a file in a directory is the name, and the directory is the one it was put in.
pub proof fn joined_path_comes_apart(dir: Seq<char>, name: Seq<char>)
    requires
        name.len() > 0,
        !name.contains('/'),
    ensures
        file_name(joined_path(dir, name)) == name,
        dir.len() == 0 ==> parent_dir(joined_path(dir, name)) == dir,
        dir.len() > 0 && dir.last() != '/' ==> parent_dir(joined_path(dir, name)) == dir,
        dir.len() > 1 && dir.last() == '/' ==> parent_dir(joined_path(dir, name)) == dir.drop_last(),
        dir == seq!['/'] ==> parent_dir(joined_path(dir, name)) == dir,
{
    reveal_strlit("/");
    let p = joined_path(dir, name);
    last_place_is_last(p, '/');
    assert(name[0] != '/') by {
        assert(name.contains(name[0]));
    }
    let at = p.len() - name.len();
    assert forall|i: int| at <= i < p.len() implies p[i] != '/' by {
        assert(p[i] == name[i - at]);
        assert(name.contains(name[i - at]));
    }
    if dir.len() > 0 {
        assert(p[at - 1] == '/');
        assert(last_place(p, '/') == at - 1);
    } else {
        assert(last_place(p, '/') == -1);
    }
    assert(file_name(p) =~= name);
    if dir.len() > 0 && dir.last() != '/' {
        assert(p.subrange(0, at - 1) =~= dir);
    } else if dir.len() > 1 {
        assert(p.subrange(0, at - 1) =~= dir.drop_last());
    } else if dir.len() == 1 {
        assert(p.subrange(0, 1) =~= dir);
    }
}

/// A file's stem with its extension behind it is its name, and the extension holds no second dot.
/// Only a name that begins with its one dot, or has none, has no extension.
pub proof fn stem_and_extension_make_the_name(path: Seq<char>)
    ensures
        !file_name(path).contains('/'),
        file_stem(path).len() <= file_name(path).len(),
        file_stem(path) == file_name(path).subrange(0, file_stem(path).len() as int),
        file_stem(path).len() < file_name(path).len() ==> file_stem(path).len() > 0 && file_name(
            path,
        )[file_stem(path).len() as int] == '.' && forall|i: int|
            file_stem(path).len() < i < file_name(path).len() ==> #[trigger] file_name(path)[i]
                != '.',
        file_stem(path).len() == file_name(path).len() ==> forall|i: int|
            0 < i < file_name(path).len() ==> #[trigger] file_name(path)[i] != '.',
{
    let name = file_name(path);
    last_place_is_last(path, '/');
    last_place_is_last(name, '.');
    assert(name.subrange(0, name.len() as int) =~= name);
    assert forall|i: int| 0 <= i < name.len() implies name[i] != '/' by {
        assert(name[i] == path[last_place(path, '/') + 1 + i]);
    }
}

/// The format of a file goes by its extension, in capitals or not.
pub proof fn format_goes_by_the_extension(stem: Seq<char>, ext: Seq<char>)
    requires
        lowered(ext) == ".dxf"@ || lowered(ext) == ".rsm"@ || lowered(ext) == ".dwg"@,
    ensures
        format_of(stem + ext) == (if lowered(ext) == ".dxf"@ {
            Some(Format::Dxf)
        } else if lowered(ext) == ".rsm"@ {
            Some(Format::Rsm)
        } else {
            Some(Format::Dwg)
        }),
{
    reveal_strlit(".dxf");
    reveal_strlit(".rsm");
    reveal_strlit(".dwg");
    let p = lowered(stem + ext);
    let e = lowered(ext);
    assert(p.subrange(p.len() - 4, p.len() as int) =~= e);
    assert(".dxf"@[1] == 'd' && ".dxf"@[2] == 'x');
    assert(".rsm"@[1] == 'r');
    assert(".dwg"@[1] == 'd' && ".dwg"@[2] == 'w');
}

} // verus!
