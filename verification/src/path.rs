//! File system paths as the pieces they are joined from.

use crate::outside::{path_file_name, path_is_absolute};
use crate::text::{chars_of, has_part, opt_str, part_at, texts};
use vstd::prelude::*;

verus! {

/// A path, given by its pieces: each piece is joined to those before it, by
/// the rules of the platform that the path is used on.
#[derive(Debug)]
pub struct PathParts {
    pub parts: Vec<String>,
}

impl View for PathParts {
    type V = Seq<Seq<char>>;

    open spec fn view(&self) -> Seq<Seq<char>> {
        texts(self.parts@)
    }
}

impl Clone for PathParts {
    fn clone(&self) -> (r: Self)
        ensures
            r@ == self@,
    {
        PathParts { parts: crate::text::copy_list(&self.parts) }
    }
}

impl PathParts {
    /// The path that `part` spells.
    pub fn from_text(part: &str) -> (r: Self)
        ensures
            r@ == seq![part@],
    {
        let mut parts: Vec<String> = Vec::new();
        parts.push(part.to_owned());
        let r = PathParts { parts };
        assert(r@ =~= seq![part@]);
        r
    }

    /// This path with `part` joined to it.
    pub fn join(&self, part: &str) -> (r: Self)
        ensures
            r@ == self@.push(part@),
    {
        let mut parts = crate::text::copy_list(&self.parts);
        parts.push(part.to_owned());
        let r = PathParts { parts };
        assert(r@ =~= self@.push(part@));
        r
    }
}

/// What stands behind the last slash of a path.
pub open spec fn last_part(path: Seq<char>) -> Seq<char>
    decreases path.len(),
{
    if path.len() == 0 || path.last() == '/' {
        Seq::empty()
    } else {
        last_part(path.drop_last()).push(path.last())
    }
}

/// A slash or a backslash.
pub open spec fn is_separator(c: char) -> bool {
    c == '/' || c == '\\'
}

/// What stands behind the last slash or backslash of a path.
pub open spec fn last_piece(path: Seq<char>) -> Seq<char>
    decreases path.len(),
{
    if path.len() == 0 || is_separator(path.last()) {
        Seq::empty()
    } else {
        last_piece(path.drop_last()).push(path.last())
    }
}

/// A path with no drive and no server in front.
pub open spec fn unprefixed(path: Seq<char>) -> bool {
    path.len() > 1 ==> path[1] != ':' && !(is_separator(path[0]) && is_separator(path[1]))
}

/// A path that ends in a name: in neither a separator nor a dot.
pub open spec fn ends_in_name(path: Seq<char>) -> bool {
    path.len() > 0 && !is_separator(path.last()) && path.last() != '.'
}

/// A path that slashes part on every platform: it has no backslash, no drive and
/// no server in front.
pub open spec fn plain_path(path: Seq<char>) -> bool {
    !path.contains('\\') && unprefixed(path)
}

/// The final component of a path that slashes part, or nothing if it has none or
/// leads upwards. A slash at the end does not count, nor does a `.` behind a
/// slash.
pub open spec fn final_part(path: Seq<char>) -> Seq<char>
    decreases path.len(),
{
    if path.len() == 0 {
        Seq::empty()
    } else if path.last() == '/' {
        final_part(path.drop_last())
    } else if last_part(path) == "."@ {
        if path.len() == 1 {
            Seq::empty()
        } else {
            final_part(path.drop_last())
        }
    } else if last_part(path) == ".."@ {
        Seq::empty()
    } else {
        last_part(path)
    }
}

/// The final component of a path that slashes part, if it has one.
pub open spec fn final_component(path: Seq<char>) -> Option<Seq<char>> {
    if final_part(path).len() == 0 {
        None
    } else {
        Some(final_part(path))
    }
}

/// A path that is relative on every platform.
pub open spec fn plainly_relative(path: Seq<char>) -> bool {
    path.len() > 0 && path[0] != '/' && path[0] != '\\' && !path.contains(':')
}

/// A path that starts at the root.
pub open spec fn from_root(path: Seq<char>) -> bool {
    path.len() > 0 && path[0] == '/'
}

/// `name` is the final component of `path`, or nothing if that has none, as far as
/// all platforms agree on it. Where only slashes part components, that is exact.
/// Where a path without a prefix ends in a name, it is what stands behind the last
/// separator, a backslash being one or not.
pub open spec fn names_file(path: Seq<char>, name: Seq<char>) -> bool {
    &&& has_part(path, name)
    &&& !path.contains('\\') ==> !name.contains('/')
    &&& plain_path(path) ==> name == final_part(path)
    &&& unprefixed(path) && ends_in_name(path) ==> name.len() > 0 && (name == last_part(path)
        || name == last_piece(path))
}

/// The final component of `path`, or nothing if it has none. What parts the
/// components of a path with a backslash or a prefix is the platform's rule.
pub fn file_name(path: &str) -> (r: String)
    ensures
        names_file(path@, r@),
{
    match path_file_name(path) {
        Some(name) => name,
        None => {
            let empty = String::new();
            assert(path@.subrange(0, 0) =~= empty@);
            assert(part_at(path@, empty@, 0));
            assert(plain_path(path@) ==> final_part(path@) =~= empty@);
            empty
        },
    }
}

/// Where `path` leads: itself if it is absolute, else it is joined to
/// `base_dir`, or without one to the current directory, or if that is not
/// known to `.`.
pub open spec fn resolved(
    path: Seq<char>,
    absolute: bool,
    base_dir: Option<Seq<char>>,
    current_dir: Option<Seq<char>>,
) -> Seq<Seq<char>> {
    if absolute {
        seq![path]
    } else {
        match (base_dir, current_dir) {
            (Some(base), _) => seq![base, path],
            (None, Some(dir)) => seq![dir, path],
            (None, None) => seq!["."@, path],
        }
    }
}

/// The letter of a drive.
pub open spec fn is_drive_letter(c: char) -> bool {
    'a' <= c <= 'z' || 'A' <= c <= 'Z'
}

/// A separator at `i` parts a server from a share: two separators, a server, a
/// separator and a share stand in front of the path.
pub open spec fn share_at(path: Seq<char>, i: int) -> bool {
    &&& 3 <= i < path.len() - 1
    &&& is_separator(path[0]) && is_separator(path[1])
    &&& forall|k: int| 2 <= k < i ==> !is_separator(#[trigger] path[k])
    &&& is_separator(path[i])
    &&& !is_separator(path[i + 1])
}

/// A server and a share stand in front of the path.
pub open spec fn names_share(path: Seq<char>) -> bool {
    exists|i: int| share_at(path, i)
}

/// Whether a path is absolute where paths have drives: it is if it names a drive
/// and starts at its root, or if it names a share. Nothing is said of a path that
/// starts with two separators otherwise, or with another prefix.
pub open spec fn absolute_on_drive(path: Seq<char>) -> Option<bool> {
    if path.len() == 0 {
        Some(false)
    } else if is_separator(path[0]) {
        if names_share(path) {
            Some(true)
        } else if path.len() > 1 && (is_separator(path[1]) || path[1] == '?') {
            None
        } else {
            Some(false)
        }
    } else if path.len() > 1 && path[1] == ':' {
        if is_drive_letter(path[0]) {
            Some(path.len() > 2 && is_separator(path[2]))
        } else {
            None
        }
    } else {
        Some(false)
    }
}

/// Whether a path is absolute, `windows` saying whether the platform's paths have
/// drives. Where they have none, a path is absolute if it starts at the root.
pub open spec fn absolute_rule(path: Seq<char>, windows: bool) -> Option<bool> {
    if windows {
        absolute_on_drive(path)
    } else {
        Some(from_root(path))
    }
}

/// `r` is where `path` leads; where no rule says whether it is absolute, it leads
/// where the platform says.
pub open spec fn leads_to(
    path: Seq<char>,
    base_dir: Option<Seq<char>>,
    current_dir: Option<Seq<char>>,
    windows: bool,
    r: Seq<Seq<char>>,
) -> bool {
    match absolute_rule(path, windows) {
        Some(absolute) => r == resolved(path, absolute, base_dir, current_dir),
        None => r == resolved(path, true, base_dir, current_dir) || r == resolved(
            path,
            false,
            base_dir,
            current_dir,
        ),
    }
}

/// Where `path` leads, `absolute` saying whether it is absolute.
pub fn resolve_path(
    path: &str,
    absolute: bool,
    base_dir: Option<&str>,
    current_dir: Option<&str>,
) -> (r: PathParts)
    ensures
        r@ == resolved(path@, absolute, opt_str(base_dir), opt_str(current_dir)),
{
    if absolute {
        return PathParts::from_text(path);
    }
    let r = match base_dir {
        Some(base) => PathParts::from_text(base).join(path),
        None => match current_dir {
            Some(dir) => PathParts::from_text(dir).join(path),
            None => PathParts::from_text(".").join(path),
        },
    };
    assert(r@ =~= resolved(path@, absolute, opt_str(base_dir), opt_str(current_dir)));
    r
}

fn separator(c: char) -> (r: bool)
    ensures
        r == is_separator(c),
{
    c == '/' || c == '\\'
}

fn has_share(cs: &Vec<char>) -> (r: bool)
    ensures
        r == names_share(cs@),
{
    if cs.len() < 5 || !separator(cs[0]) || !separator(cs[1]) {
        return false;
    }
    let mut i: usize = 2;
    while i < cs.len() && !separator(cs[i])
        invariant
            2 <= i <= cs.len(),
            forall|k: int| 2 <= k < i ==> !is_separator(#[trigger] cs@[k]),
        decreases cs.len() - i,
    {
        i += 1;
    }
    let r = i >= 3 && i < cs.len() - 1 && !separator(cs[i + 1]);
    proof {
        if r {
            assert(share_at(cs@, i as int));
        } else if names_share(cs@) {
            let j = choose|j: int| share_at(cs@, j);
            if i < j {
                assert(!is_separator(cs@[i as int]));
            } else if j < i {
                assert(!is_separator(cs@[j]));
            }
        }
    }
    r
}

/// Whether `path` is absolute, `windows` saying whether the platform's paths have
/// drives. Of a path that starts with two separators but names no share, or with
/// another prefix, the platform says.
pub fn is_absolute(path: &str, windows: bool) -> (r: bool)
    ensures
        absolute_rule(path@, windows) matches Some(absolute) ==> r == absolute,
{
    let cs = chars_of(path);
    if cs.len() == 0 {
        return false;
    }
    if !windows {
        return cs[0] == '/';
    }
    if separator(cs[0]) {
        if has_share(&cs) {
            return true;
        }
        if cs.len() > 1 && (separator(cs[1]) || cs[1] == '?') {
            return path_is_absolute(path);
        }
        return false;
    }
    if cs.len() > 1 && cs[1] == ':' {
        let c = cs[0];
        if ('a' <= c && c <= 'z') || ('A' <= c && c <= 'Z') {
            return cs.len() > 2 && separator(cs[2]);
        }
        return path_is_absolute(path);
    }
    false
}

/// Where `path` leads, `windows` saying whether the platform's paths have drives.
/// Of a path that starts with two separators but names no share, or with another
/// prefix, the platform says.
pub fn ensure_absolute_path(
    path: &str,
    base_dir: Option<&str>,
    current_dir: Option<&str>,
    windows: bool,
) -> (r: PathParts)
    ensures
        leads_to(path@, opt_str(base_dir), opt_str(current_dir), windows, r@),
{
    resolve_path(path, is_absolute(path, windows), base_dir, current_dir)
}

} // verus!
