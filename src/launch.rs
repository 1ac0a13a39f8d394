use vstd::prelude::*;

use crate::invocation::{
    child_args, child_args_of, forwarded_args, forwarded_of, module_run_prefix, strings_view,
};
use crate::layout::{has_grandparent, is_interpreter_path, resolve_interpreter, ExePath, InterpreterPath, Platform};
use crate::outcome::LaunchError;

verus! {

/// What to start: the interpreter and the arguments to hand it.
pub struct Launch<C> {
    pub program: InterpreterPath<C>,
    pub args: Vec<String>,
}

/// The launch for a launcher whose path lookup gave `exe` and which was
/// invoked with `argv` (program name first).
pub open spec fn is_launch_for<C>(l: Launch<C>, exe: ExePath<C>, p: Platform, argv: Seq<String>) -> bool {
    &&& is_interpreter_path(l.program, exe, p)
    &&& strings_view(l.args@) == child_args_of(forwarded_of(strings_view(argv)))
}

/// Decides what to start, or why nothing can be: an unknown own path and a
/// path without a grandparent directory are failures, and only a successful
/// plan yields something to start.
pub fn plan_launch<C>(exe: Result<ExePath<C>, String>, p: Platform, argv: Vec<String>) -> (r: Result<Launch<C>, LaunchError>)
    ensures
        exe matches Err(d) ==> r == Err::<Launch<C>, LaunchError>(LaunchError::ExePathUnknown(d)),
        exe matches Ok(e) ==> {
            &&& !has_grandparent(e) ==> r == Err::<Launch<C>, LaunchError>(LaunchError::NoParentDir)
            &&& has_grandparent(e) ==> (r matches Ok(l) && is_launch_for(l, e, p, argv@))
        },
{
    let exe = match exe {
        Ok(e) => e,
        Err(d) => {
            return Err(LaunchError::ExePathUnknown(d));
        },
    };
    let program = match resolve_interpreter(exe, p) {
        Ok(ip) => ip,
        Err(e) => {
            return Err(e);
        },
    };
    let args = child_args(forwarded_args(argv));
    Ok(Launch { program, args })
}

/// The child's argument list is the module-run prefix followed by exactly
/// the launcher's arguments after its program name, none added, dropped or
/// moved.
pub proof fn lemma_arguments_forwarded(argv: Seq<Seq<char>>)
    ensures
        argv.len() == 0 ==> child_args_of(forwarded_of(argv)) == module_run_prefix(),
        argv.len() >= 1 ==> child_args_of(forwarded_of(argv)).len() == argv.len() + 1,
        child_args_of(forwarded_of(argv)).take(2) == module_run_prefix(),
        forall|i: int| 1 <= i < argv.len() ==> #[trigger] child_args_of(forwarded_of(argv))[i + 1] == argv[i],
{
    assert(child_args_of(forwarded_of(argv)).take(2) =~= module_run_prefix());
    if argv.len() == 0 {
        assert(child_args_of(forwarded_of(argv)) =~= module_run_prefix());
    }
}

} // verus!
