use vstd::prelude::*;

use crate::invocation::strings_view;
use crate::outcome::LaunchError;

verus! {

/// The two families of build targets, which lay the bundled interpreter out
/// differently.
#[derive(Clone, Copy, Debug, PartialEq, Eq, Structural)]
pub enum Platform {
    Windows,
    Other,
}

/// The interpreter's place below the launcher's grandparent directory on
/// Windows targets.
pub open spec fn windows_subpath() -> Seq<Seq<char>> {
    seq![seq!['p', 'y', 't', 'h', 'o', 'n'], seq!['p', 'y', 't', 'h', 'o', 'n', '.', 'e', 'x', 'e']]
}

/// The interpreter's place below the launcher's grandparent directory on all
/// other targets.
pub open spec fn other_subpath() -> Seq<Seq<char>> {
    seq![
        seq!['p', 'y', 't', 'h', 'o', 'n'],
        seq!['b', 'i', 'n'],
        seq!['p', 'y', 't', 'h', 'o', 'n', '3'],
    ]
}

/// The subpath that a platform uses.
pub open spec fn subpath_of(p: Platform) -> Seq<Seq<char>> {
    match p {
        Platform::Windows => windows_subpath(),
        Platform::Other => other_subpath(),
    }
}

/// Each platform uses exactly one of the two interpreter subpaths, and the
/// two differ, so no target can use both or neither.
pub proof fn lemma_platform_selects_one_subpath(p: Platform)
    ensures
        windows_subpath() != other_subpath(),
        subpath_of(p) == windows_subpath() || subpath_of(p) == other_subpath(),
        !(subpath_of(p) == windows_subpath() && subpath_of(p) == other_subpath()),
        p == Platform::Windows <==> subpath_of(p) == windows_subpath(),
{
    assert(windows_subpath().len() != other_subpath().len());
}

/// The launcher's own path, split the way a path splits into components:
/// `root` holds the prefix and root-directory components, which no parent
/// walk can remove, and `parts` the components after them.
pub struct ExePath<C> {
    pub root: Vec<C>,
    pub parts: Vec<C>,
}

/// Where the interpreter lies: the components of `root`, then of `base`, then
/// the names of `subpath`, joined in that order.
pub struct InterpreterPath<C> {
    pub root: Vec<C>,
    pub base: Vec<C>,
    pub subpath: Vec<String>,
}

/// Whether two parent steps can be taken from the launcher's path.
pub open spec fn has_grandparent<C>(exe: ExePath<C>) -> bool {
    exe.parts@.len() >= 2
}

/// The interpreter's path: two directory levels above the launcher, then the
/// platform's subpath.
pub open spec fn is_interpreter_path<C>(ip: InterpreterPath<C>, exe: ExePath<C>, p: Platform) -> bool {
    &&& ip.root@ == exe.root@
    &&& ip.base@ == exe.parts@.take(exe.parts@.len() - 2)
    &&& strings_view(ip.subpath@) == subpath_of(p)
}

/// The names of the platform's interpreter subpath, outermost first.
pub fn interpreter_subpath(p: Platform) -> (r: Vec<String>)
    ensures
        strings_view(r@) == subpath_of(p),
{
    let mut r: Vec<String> = Vec::new();
    let dir = String::from_str("python");
    proof {
        reveal_strlit("python");
        assert(dir@ =~= seq!['p', 'y', 't', 'h', 'o', 'n']);
    }
    r.push(dir);
    match p {
        Platform::Windows => {
            let exe = String::from_str("python.exe");
            proof {
                reveal_strlit("python.exe");
                assert(exe@ =~= seq!['p', 'y', 't', 'h', 'o', 'n', '.', 'e', 'x', 'e']);
            }
            r.push(exe);
        },
        Platform::Other => {
            let bin = String::from_str("bin");
            let exe = String::from_str("python3");
            proof {
                reveal_strlit("bin");
                reveal_strlit("python3");
                assert(bin@ =~= seq!['b', 'i', 'n']);
                assert(exe@ =~= seq!['p', 'y', 't', 'h', 'o', 'n', '3']);
            }
            r.push(bin);
            r.push(exe);
        },
    }
    assert(strings_view(r@) =~= subpath_of(p));
    r
}

/// Walks two directory levels up from the launcher's path and appends the
/// platform's subpath; fails when the walk runs out of components.
pub fn resolve_interpreter<C>(exe: ExePath<C>, p: Platform) -> (r: Result<InterpreterPath<C>, LaunchError>)
    ensures
        r is Ok <==> has_grandparent(exe),
        r is Err ==> r == Err::<InterpreterPath<C>, LaunchError>(LaunchError::NoParentDir),
        r matches Ok(ip) ==> is_interpreter_path(ip, exe, p),
{
    let ExePath { root, mut parts } = exe;
    if parts.len() < 2 {
        return Err(LaunchError::NoParentDir);
    }
    let keep = parts.len() - 2;
    parts.truncate(keep);
    Ok(InterpreterPath { root, base: parts, subpath: interpreter_subpath(p) })
}

} // verus!
