//! Paths as text, in the POSIX layout: components separated by `/`, a leading
//! `/` for an absolute path.
//!
//! The home directory is always a parameter. Whoever calls reads it from the
//! environment and passes an empty text where there is none.

use vstd::prelude::*;
use crate::text::{extend, from_chars, slice, to_chars};

verus! {

/// `p` starts at the root.
pub open spec fn is_absolute(p: Seq<char>) -> bool {
    p.len() > 0 && p[0] == '/'
}

/// `part` put under `base`: an absolute `part` stands for itself, otherwise it
/// follows `base`, after one `/` unless `base` is empty or ends in one.
pub open spec fn joined(base: Seq<char>, part: Seq<char>) -> Seq<char> {
    if is_absolute(part) {
        part
    } else if base.len() > 0 && base.last() != '/' {
        base + seq!['/'] + part
    } else {
        base + part
    }
}

/// Where the desktop entries live, below the home directory.
pub open spec fn applications_dir() -> Seq<char> {
    ".local/share/applications"@
}

/// The per-user data directory, below the home directory.
pub open spec fn data_home_dir() -> Seq<char> {
    ".local/share"@
}

/// The icon directory of a native install, below the home directory.
pub open spec fn native_icons_dir() -> Seq<char> {
    ".local/share/icons"@
}

/// The icon directory of a sandboxed install, below the home directory.
pub open spec fn sandboxed_icons_dir() -> Seq<char> {
    ".var/app/io.github.elevenhsoft.WebApps/data/icons"@
}

/// The folder of the icons that the user chose, below the icon directory.
pub open spec fn user_icons_folder() -> Seq<char> {
    "MyIcons"@
}

/// The path of the desktop entry `filename` for the user at `home`.
pub open spec fn desktop_path(home: Seq<char>, filename: Seq<char>) -> Seq<char> {
    joined(joined(home, applications_dir()), filename)
}

/// The icon directory for the user at `home`.
pub open spec fn icons_dir(home: Seq<char>, sandboxed: bool) -> Seq<char> {
    if sandboxed {
        joined(home, sandboxed_icons_dir())
    } else {
        joined(home, native_icons_dir())
    }
}

/// Where the last component of `p` starts: right after its last `/`.
pub open spec fn segment_start(p: Seq<char>) -> int
    decreases p.len(),
{
    if p.len() == 0 {
        0
    } else if p.last() == '/' {
        p.len() as int
    } else {
        segment_start(p.drop_last())
    }
}

/// The name that `p` ends in: its last component, where trailing `/` and
/// components `.` are passed over. There is none for an empty path, the root,
/// or a path that ends in `..`.
pub open spec fn path_file_name(p: Seq<char>) -> Option<Seq<char>>
    decreases p.len(),
{
    if p.len() == 0 {
        None
    } else if p.last() == '/' {
        path_file_name(p.drop_last())
    } else {
        let name = p.skip(segment_start(p));
        if name == seq!['.'] {
            path_file_name(p.drop_last())
        } else if name == seq!['.', '.'] {
            None
        } else {
            Some(name)
        }
    }
}

/// The position of the last `.` in `name`, or -1.
pub open spec fn last_dot(name: Seq<char>) -> int
    decreases name.len(),
{
    if name.len() == 0 {
        -1
    } else if name.last() == '.' {
        name.len() - 1
    } else {
        last_dot(name.drop_last())
    }
}

/// The extension of `p`: what follows the last `.` of its file name. There is
/// none without a file name, without a `.` in it, or where the only `.` leads
/// the name.
pub open spec fn path_extension(p: Seq<char>) -> Option<Seq<char>> {
    match path_file_name(p) {
        None => None,
        Some(name) => {
            let dot = last_dot(name);
            if dot <= 0 {
                None
            } else {
                Some(name.skip(dot + 1))
            }
        },
    }
}

/// What an optional string holds.
pub open spec fn optional_text(o: Option<String>) -> Option<Seq<char>> {
    match o {
        Some(s) => Some(s@),
        None => None,
    }
}

/// What an optional character vector holds.
pub open spec fn optional_chars(o: Option<Vec<char>>) -> Option<Seq<char>> {
    match o {
        Some(s) => Some(s@),
        None => None,
    }
}

/// The last component starts within the path.
pub proof fn lemma_segment_start_bounds(p: Seq<char>)
    ensures
        0 <= segment_start(p) <= p.len(),
    decreases p.len(),
{
    if p.len() > 0 && p.last() != '/' {
        lemma_segment_start_bounds(p.drop_last());
    }
}

/// `part` put under `base`, on character vectors.
pub fn join_chars(base: &Vec<char>, part: &Vec<char>) -> (r: Vec<char>)
    ensures
        r@ == joined(base@, part@),
{
    let mut r: Vec<char> = Vec::new();
    if part.len() > 0 && part[0] == '/' {
        extend(&mut r, part);
        assert(r@ =~= part@);
    } else {
        extend(&mut r, base);
        if base.len() > 0 && base[base.len() - 1] != '/' {
            r.push('/');
        }
        extend(&mut r, part);
        assert(r@ =~= joined(base@, part@));
    }
    r
}

/// `part` put under `base`.
pub fn join_path(base: &str, part: &str) -> (r: String)
    ensures
        r@ == joined(base@, part@),
{
    let b = to_chars(base);
    let p = to_chars(part);
    let r = join_chars(&b, &p);
    from_chars(&r)
}

/// The path of the desktop entry `filename` for the user at `home`.
pub fn desktop_filepath(home: &str, filename: &str) -> (r: String)
    ensures
        r@ == desktop_path(home@, filename@),
{
    let dir = join_path(home, ".local/share/applications");
    join_path(dir.as_str(), filename)
}

/// The icon directory for the user at `home`; `sandboxed` tells whether the
/// program runs from a sandboxed package.
pub fn icons_location(home: &str, sandboxed: bool) -> (r: String)
    ensures
        r@ == icons_dir(home@, sandboxed),
{
    if sandboxed {
        join_path(home, ".var/app/io.github.elevenhsoft.WebApps/data/icons")
    } else {
        join_path(home, ".local/share/icons")
    }
}

/// The folder under `icons` that holds the icons the user chose.
pub fn user_icons_location(icons: &str) -> (r: String)
    ensures
        r@ == joined(icons@, user_icons_folder()),
{
    join_path(icons, "MyIcons")
}

/// Where the last component of the first `end` characters of `p` starts.
fn find_segment_start(p: &Vec<char>, end: usize) -> (r: usize)
    requires
        end <= p.len(),
    ensures
        r == segment_start(p@.take(end as int)),
        r <= end,
{
    let mut i: usize = end;
    while i > 0 && p[i - 1] != '/'
        invariant
            i <= end <= p.len(),
            segment_start(p@.take(i as int)) == segment_start(p@.take(end as int)),
        decreases i,
    {
        assert(p@.take(i as int).drop_last() =~= p@.take(i - 1));
        i -= 1;
    }
    i
}

/// The file name of `p`, on character vectors.
pub fn file_name_chars(p: &Vec<char>) -> (r: Option<Vec<char>>)
    ensures
        optional_chars(r) == path_file_name(p@),
{
    let mut end: usize = p.len();
    assert(p@.take(end as int) =~= p@);
    while end > 0
        invariant
            end <= p.len(),
            path_file_name(p@.take(end as int)) == path_file_name(p@),
        decreases end,
    {
        let ghost head = p@.take(end as int);
        assert(head.drop_last() =~= p@.take(end - 1));
        if p[end - 1] == '/' {
            end -= 1;
        } else {
            let start = find_segment_start(p, end);
            let ghost name = head.skip(start as int);
            assert(name =~= p@.subrange(start as int, end as int));
            if end - start == 1 && p[start] == '.' {
                assert(name =~= seq!['.']);
                end -= 1;
            } else if end - start == 2 && p[start] == '.' && p[start + 1] == '.' {
                assert(name =~= seq!['.', '.']);
                return None;
            } else {
                assert(start < end) by {
                    if start == end {
                        assert(segment_start(head) == head.len());
                        lemma_segment_start_bounds(head.drop_last());
                    }
                }
                assert(name != seq!['.']) by {
                    if name == seq!['.'] {
                        assert(name.len() == 1);
                        assert(name[0] == '.');
                    }
                }
                assert(name != seq!['.', '.']) by {
                    if name == seq!['.', '.'] {
                        assert(name.len() == 2);
                        assert(name[0] == '.' && name[1] == '.');
                    }
                }
                return Some(slice(p, start, end));
            }
        }
    }
    None
}

/// The position of the last `.` in `name`, if it has one.
fn find_last_dot(name: &Vec<char>) -> (r: Option<usize>)
    ensures
        match r {
            Some(i) => last_dot(name@) == i && i < name.len(),
            None => last_dot(name@) == -1,
        },
{
    let mut i: usize = name.len();
    assert(name@.take(i as int) =~= name@);
    while i > 0
        invariant
            i <= name.len(),
            last_dot(name@.take(i as int)) == last_dot(name@),
        decreases i,
    {
        if name[i - 1] == '.' {
            return Some(i - 1);
        }
        assert(name@.take(i as int).drop_last() =~= name@.take(i - 1));
        i -= 1;
    }
    None
}

/// The extension of `p`, on character vectors.
pub fn extension_chars(p: &Vec<char>) -> (r: Option<Vec<char>>)
    ensures
        optional_chars(r) == path_extension(p@),
{
    match file_name_chars(p) {
        None => None,
        Some(name) => match find_last_dot(&name) {
            None => None,
            Some(dot) => {
                if dot == 0 {
                    None
                } else {
                    let ext = slice(&name, dot + 1, name.len());
                    assert(ext@ =~= name@.skip(dot + 1));
                    Some(ext)
                }
            },
        },
    }
}

/// The file name of `path`.
pub fn file_name(path: &str) -> (r: Option<String>)
    ensures
        optional_text(r) == path_file_name(path@),
{
    let p = to_chars(path);
    match file_name_chars(&p) {
        None => None,
        Some(name) => Some(from_chars(&name)),
    }
}

/// The extension of `path`.
pub fn extension(path: &str) -> (r: Option<String>)
    ensures
        optional_text(r) == path_extension(path@),
{
    let p = to_chars(path);
    match extension_chars(&p) {
        None => None,
        Some(ext) => Some(from_chars(&ext)),
    }
}

} // verus!
