//! Resolving the directory that the configuration files are written to.
use vstd::prelude::*;

verus! {

/// What `relative_path` makes of `path` when it normalizes it as text:
/// `.` segments dropped, each `..` taking back the segment before it,
/// segments joined by `/` with no leading separator.
pub uninterp spec fn lexical_normal(path: Seq<char>) -> Seq<char>;

/// Relies on `relative_path::RelativePath::normalize`, which works on the
/// text alone (no file system access), and on `RelativePathBuf::into_string`,
/// which hands back the normalized text.
#[verifier::external_body]
fn normalize_path(path: &str) -> (r: String)
    ensures
        r@ == lexical_normal(path@),
{
    relative_path::RelativePath::new(path).normalize().into_string()
}

/// The absolute path of `dir` taken relative to `current_dir`, with `.`
/// and `..` resolved as text.
pub open spec fn target_dir_of(current_dir: Seq<char>, dir: Seq<char>) -> Seq<char> {
    seq!['/'] + lexical_normal(current_dir + seq!['/'] + dir)
}

/// Joins `dir` to the working directory `current_dir` and normalizes the
/// result lexically, without touching the file system.
pub fn get_target_dir(current_dir: &str, dir: &str) -> (r: String)
    ensures
        r@ == target_dir_of(current_dir@, dir@),
{
    proof {
        reveal_strlit("/");
        assert("/"@ =~= seq!['/']);
    }
    let mut joined = current_dir.to_owned();
    joined.append("/");
    joined.append(dir);
    assert(joined@ =~= current_dir@ + seq!['/'] + dir@);
    let normal = normalize_path(joined.as_str());
    rooted(normal)
}

/// `normal`, a path normalized relative to the file system root, made
/// absolute.
pub fn rooted(normal: String) -> (r: String)
    ensures
        r@ == seq!['/'] + normal@,
{
    proof {
        reveal_strlit("/");
        assert("/"@ =~= seq!['/']);
    }
    let mut r = "/".to_owned();
    r.append(normal.as_str());
    r
}

/// The directory to write into, and whether it has to be created first.
pub struct TargetDir {
    pub path: String,
    pub create: bool,
}

/// Resolves the user's directory `dir`. `canonical` is the canonical path
/// of `dir` when it exists: that path is used as it is. Otherwise the path
/// is built lexically from the working directory `current_dir`, and the
/// directory is to be created.
pub fn resolve_target_dir(current_dir: &str, dir: &str, canonical: Option<String>) -> (r:
    TargetDir)
    ensures
        match canonical {
            Some(path) => r.path@ == path@ && !r.create,
            None => r.path@ == target_dir_of(current_dir@, dir@) && r.create,
        },
{
    match canonical {
        Some(path) => TargetDir { path, create: false },
        None => TargetDir { path: get_target_dir(current_dir, dir), create: true },
    }
}

} // verus!
