use vstd::prelude::*;

use crate::error::WgError;

verus! {

/// A path is absolute when it starts at the root (Unix targets).
pub open spec fn is_absolute_path(p: Seq<char>) -> bool {
    p.len() > 0 && p[0] == '/'
}

/// `rel` appended to `base` (Unix targets): an absolute `rel` replaces the
/// base; otherwise a separator is put between them unless the base is empty
/// or already ends with one.
pub open spec fn joined(base: Seq<char>, rel: Seq<char>) -> Seq<char> {
    if is_absolute_path(rel) {
        rel
    } else if base.len() == 0 || base.last() == '/' {
        base + rel
    } else {
        base + seq!['/'] + rel
    }
}

/// Relies on `camino::Utf8Path::is_absolute`, which on Unix holds exactly when
/// the path starts with the root `/`.
#[verifier::external_body]
fn path_is_absolute(p: &str) -> (r: bool)
    ensures
        r == is_absolute_path(p@),
{
    camino::Utf8Path::new(p).is_absolute()
}

/// Relies on `camino::Utf8Path::join` (std's `PathBuf::push` on Unix): the
/// path `rel` appended to `base`.
#[verifier::external_body]
fn join_path(base: &str, rel: &str) -> (r: String)
    ensures
        r@ == joined(base@, rel@),
{
    camino::Utf8Path::new(base).join(rel).into_string()
}

/// The working directory as the process found it.
#[derive(Debug, Clone, PartialEq, Eq)]
pub enum WorkDir {
    /// It is available as text.
    Text(String),
    /// It exists but is not valid text.
    NotText,
    /// It could not be read; the system's report.
    Unreadable(String),
}

/// The path that `path` resolves to from the working directory `cwd`.
pub open spec fn resolved_root(path: Seq<char>, cwd: Seq<char>) -> Seq<char> {
    if is_absolute_path(path) {
        path
    } else {
        joined(cwd, path)
    }
}

/// An absolute input is kept as it is; a relative one is joined onto the
/// working directory, which must then be readable and available as text.
pub fn resolve_path(input: &str, cwd: &WorkDir) -> (r: Result<String, WgError>)
    ensures
        is_absolute_path(input@) ==> (r matches Ok(p) && p@ == input@),
        !is_absolute_path(input@) && cwd is Text ==> (r matches Ok(p) && p@ == joined(
            cwd->Text_0@,
            input@,
        )),
        !is_absolute_path(input@) && cwd is NotText ==> (r matches Err(WgError::InvalidPath(p))
            && p@ == input@),
        !is_absolute_path(input@) && cwd is Unreadable ==> (r matches Err(WgError::Io(m)) && m@
            == "failed to read current directory: "@ + cwd->Unreadable_0@),
{
    if path_is_absolute(input) {
        return Ok(String::from_str(input));
    }
    match cwd {
        WorkDir::Text(dir) => Ok(join_path(dir.as_str(), input)),
        WorkDir::NotText => Err(WgError::InvalidPath(String::from_str(input))),
        WorkDir::Unreadable(report) => {
            let mut m = String::from_str("failed to read current directory: ");
            m.append(report.as_str());
            Err(WgError::Io(m))
        },
    }
}

/// The path of the entry `name` inside the directory `root`.
pub fn entry_path(root: &str, name: &str) -> (r: String)
    ensures
        r@ == joined(root@, name@),
{
    join_path(root, name)
}

/// From an absolute working directory every path resolves to an absolute
/// path, and resolving that path again gives it back unchanged.
pub proof fn lemma_resolve_again(path: Seq<char>, cwd: Seq<char>)
    requires
        is_absolute_path(cwd),
    ensures
        is_absolute_path(resolved_root(path, cwd)),
        resolved_root(resolved_root(path, cwd), cwd) == resolved_root(path, cwd),
{
    let r = resolved_root(path, cwd);
    if !is_absolute_path(path) {
        if cwd.last() == '/' {
            assert(r[0] == cwd[0]);
        } else {
            assert(r[0] == cwd[0]);
        }
    }
}

/// Two different relative names give two different entries of one directory.
pub proof fn lemma_entries_differ(root: Seq<char>, a: Seq<char>, b: Seq<char>)
    requires
        !is_absolute_path(a),
        !is_absolute_path(b),
        a != b,
    ensures
        joined(root, a) != joined(root, b),
{
    let pre = if root.len() == 0 || root.last() == '/' {
        root
    } else {
        root + seq!['/']
    };
    assert(joined(root, a) == pre + a);
    assert(joined(root, b) == pre + b);
    if pre + a == pre + b {
        assert((pre + a).subrange(pre.len() as int, (pre + a).len() as int) =~= a);
        assert((pre + b).subrange(pre.len() as int, (pre + b).len() as int) =~= b);
    }
}

} // verus!
