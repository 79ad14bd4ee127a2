//! Where the programs `ffmpeg` and `ffprobe` are found.

use crate::path::PathParts;
use vstd::prelude::*;

verus! {

/// What was seen of a directory that may hold the programs.
#[derive(Clone, Copy, Debug, PartialEq, Eq, Structural)]
pub struct ToolDir {
    pub exists: bool,
    pub has_ffmpeg: bool,
    pub has_ffprobe: bool,
}

impl ToolDir {
    /// The directory is there and holds both programs.
    pub open spec fn is_usable(self) -> bool {
        self.exists && self.has_ffmpeg && self.has_ffprobe
    }
}

/// The directories that may hold the programs, in the order in which they are
/// looked at: those next to the executable, the one next to its directory,
/// and those in the current directory.
pub open spec fn tool_dirs_of(exe_dir: Seq<char>, exe_parent: Seq<char>) -> Seq<Seq<Seq<char>>> {
    seq![
        seq![exe_dir, "tools"@],
        seq![exe_dir, "bin"@],
        seq![exe_parent, "tools"@],
        seq!["tools"@],
        seq!["bin"@],
    ]
}

/// The first usable directory from position `i` on; without one the current
/// directory.
pub open spec fn first_usable(
    dirs: Seq<Seq<Seq<char>>>,
    seen: Seq<ToolDir>,
    i: int,
) -> Seq<Seq<char>>
    decreases seen.len() - i,
{
    if i >= seen.len() {
        seq!["."@]
    } else if seen[i].is_usable() {
        dirs[i]
    } else {
        first_usable(dirs, seen, i + 1)
    }
}

/// The views of the paths in a list.
pub open spec fn path_views(paths: Seq<PathParts>) -> Seq<Seq<Seq<char>>> {
    paths.map_values(|p: PathParts| p@)
}

/// The directories that may hold the programs.
pub fn tool_dirs(exe_dir: &str, exe_parent: &str) -> (r: Vec<PathParts>)
    ensures
        path_views(r@) == tool_dirs_of(exe_dir@, exe_parent@),
{
    let mut r: Vec<PathParts> = Vec::new();
    r.push(PathParts::from_text(exe_dir).join("tools"));
    r.push(PathParts::from_text(exe_dir).join("bin"));
    r.push(PathParts::from_text(exe_parent).join("tools"));
    r.push(PathParts::from_text("tools"));
    r.push(PathParts::from_text("bin"));
    proof {
        let want = tool_dirs_of(exe_dir@, exe_parent@);
        assert(r@[0]@ =~= want[0]);
        assert(r@[1]@ =~= want[1]);
        assert(r@[2]@ =~= want[2]);
        assert(r@[3]@ =~= want[3]);
        assert(r@[4]@ =~= want[4]);
        assert(path_views(r@) =~= want);
    }
    r
}

/// The directory that holds the programs, `seen[i]` being what was seen of
/// `dirs[i]`: the first that holds both, or the current one.
pub fn get_binary_path(dirs: &Vec<PathParts>, seen: &Vec<ToolDir>) -> (r: PathParts)
    requires
        dirs.len() == seen.len(),
    ensures
        r@ == first_usable(path_views(dirs@), seen@, 0),
{
    let mut i: usize = 0;
    while i < seen.len()
        invariant
            dirs.len() == seen.len(),
            i <= seen.len(),
            first_usable(path_views(dirs@), seen@, 0) == first_usable(
                path_views(dirs@),
                seen@,
                i as int,
            ),
        decreases seen.len() - i,
    {
        let s = seen[i];
        if s.exists && s.has_ffmpeg && s.has_ffprobe {
            return dirs[i].clone();
        }
        i += 1;
    }
    PathParts::from_text(".")
}

/// The file name of `ffmpeg`.
pub open spec fn ffmpeg_file(windows: bool) -> Seq<char> {
    if windows {
        "ffmpeg.exe"@
    } else {
        "ffmpeg"@
    }
}

/// The file name of `ffprobe`.
pub open spec fn ffprobe_file(windows: bool) -> Seq<char> {
    if windows {
        "ffprobe.exe"@
    } else {
        "ffprobe"@
    }
}

/// The file name of `ffmpeg`, `windows` saying whether programs have an
/// extension.
pub fn get_ffmpeg_name(windows: bool) -> (r: &'static str)
    ensures
        r@ == ffmpeg_file(windows),
{
    if windows {
        "ffmpeg.exe"
    } else {
        "ffmpeg"
    }
}

/// The file name of `ffprobe`.
pub fn get_ffprobe_name(windows: bool) -> (r: &'static str)
    ensures
        r@ == ffprobe_file(windows),
{
    if windows {
        "ffprobe.exe"
    } else {
        "ffprobe"
    }
}

/// The path of `ffmpeg` in `dir`.
pub fn get_ffmpeg_path(dir: &PathParts, windows: bool) -> (r: PathParts)
    ensures
        r@ == dir@.push(ffmpeg_file(windows)),
{
    dir.join(get_ffmpeg_name(windows))
}

/// The path of `ffprobe` in `dir`.
pub fn get_ffprobe_path(dir: &PathParts, windows: bool) -> (r: PathParts)
    ensures
        r@ == dir@.push(ffprobe_file(windows)),
{
    dir.join(get_ffprobe_name(windows))
}

} // verus!
