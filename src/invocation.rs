use vstd::prelude::*;

verus! {

/// The module that the interpreter is told to run.
pub open spec fn module_name() -> Seq<char> {
    seq!['c', 'f', 's', 'a', 'i']
}

/// The two arguments that put the interpreter in "run a library module" mode.
pub open spec fn module_run_prefix() -> Seq<Seq<char>> {
    seq![seq!['-', 'm'], module_name()]
}

/// The character sequences of a list of strings.
pub open spec fn strings_view(v: Seq<String>) -> Seq<Seq<char>> {
    v.map_values(|s: String| s@)
}

/// What the launcher forwards of its own argument vector: everything after
/// the program name.
pub open spec fn forwarded_of(argv: Seq<Seq<char>>) -> Seq<Seq<char>> {
    if argv.len() == 0 {
        argv
    } else {
        argv.drop_first()
    }
}

/// The child's argument list for forwarded arguments `user`.
pub open spec fn child_args_of(user: Seq<Seq<char>>) -> Seq<Seq<char>> {
    module_run_prefix() + user
}

/// Drops the program name from the launcher's argument vector; the rest is
/// kept in order and unchanged.
pub fn forwarded_args(argv: Vec<String>) -> (r: Vec<String>)
    ensures
        strings_view(r@) == forwarded_of(strings_view(argv@)),
{
    let ghost given = argv@;
    let mut argv = argv;
    if argv.len() > 0 {
        let _program = argv.remove(0);
        assert(strings_view(argv@) =~= strings_view(given).drop_first());
    }
    argv
}

/// The child's arguments: the module-run prefix followed by `user`, in order.
pub fn child_args(user: Vec<String>) -> (r: Vec<String>)
    ensures
        strings_view(r@) == child_args_of(strings_view(user@)),
{
    let ghost given = user@;
    let mut user = user;
    let dash_m = String::from_str("-m");
    let module = String::from_str("cfsai");
    proof {
        reveal_strlit("-m");
        reveal_strlit("cfsai");
        assert(dash_m@ =~= seq!['-', 'm']);
        assert(module@ =~= module_name());
    }
    let mut r: Vec<String> = Vec::new();
    r.push(dash_m);
    r.push(module);
    r.append(&mut user);
    assert(strings_view(r@) =~= child_args_of(strings_view(given)));
    r
}

/// The environment variables that could point the bundled interpreter at
/// another home directory or module search path.
pub open spec fn is_cleared_name(k: Seq<char>) -> bool {
    ||| k == seq!['P', 'Y', 'T', 'H', 'O', 'N', 'H', 'O', 'M', 'E']
    ||| k == seq!['P', 'Y', 'T', 'H', 'O', 'N', 'P', 'A', 'T', 'H']
}

/// An environment as a sequence of (name, value) pairs of characters.
pub open spec fn env_view(e: Seq<(String, String)>) -> Seq<(Seq<char>, Seq<char>)> {
    e.map_values(|p: (String, String)| (p.0@, p.1@))
}

/// Whether an entry survives into the child's environment.
pub open spec fn kept_entry(p: (Seq<char>, Seq<char>)) -> bool {
    !is_cleared_name(p.0)
}

/// The child's environment: the parent's, in order, without the cleared names.
pub open spec fn child_env_of(e: Seq<(Seq<char>, Seq<char>)>) -> Seq<(Seq<char>, Seq<char>)> {
    e.filter(|p: (Seq<char>, Seq<char>)| kept_entry(p))
}

/// The names that are taken out of the child's environment.
pub fn cleared_vars() -> (r: Vec<String>)
    ensures
        r@.len() == 2,
        forall|i: int| 0 <= i < r@.len() ==> is_cleared_name(#[trigger] r@[i]@),
        forall|k: Seq<char>| is_cleared_name(k) ==> exists|i: int| 0 <= i < r@.len() && r@[i]@ == k,
{
    let home = String::from_str("PYTHONHOME");
    let path = String::from_str("PYTHONPATH");
    proof {
        reveal_strlit("PYTHONHOME");
        reveal_strlit("PYTHONPATH");
        assert(home@ =~= seq!['P', 'Y', 'T', 'H', 'O', 'N', 'H', 'O', 'M', 'E']);
        assert(path@ =~= seq!['P', 'Y', 'T', 'H', 'O', 'N', 'P', 'A', 'T', 'H']);
    }
    let mut r: Vec<String> = Vec::new();
    r.push(home);
    r.push(path);
    assert forall|k: Seq<char>| is_cleared_name(k) implies exists|i: int|
        0 <= i < r@.len() && r@[i]@ == k by {
        if k == r@[0]@ {
            assert(r@[0]@ == k);
        } else {
            assert(r@[1]@ == k);
        }
    }
    r
}

/// Whether `name` is one of the cleared environment variables.
pub fn is_cleared_var(name: &String) -> (r: bool)
    ensures
        r == is_cleared_name(name@),
{
    let names = cleared_vars();
    let mut i: usize = 0;
    while i < names.len()
        invariant
            i <= names@.len(),
            names@.len() == 2,
            forall|j: int| 0 <= j < names@.len() ==> is_cleared_name(#[trigger] names@[j]@),
            forall|k: Seq<char>| is_cleared_name(k) ==> exists|j: int| 0 <= j < names@.len() && names@[j]@ == k,
            forall|j: int| 0 <= j < i ==> names@[j]@ != name@,
        decreases names@.len() - i,
    {
        if *name == names[i] {
            return true;
        }
        i = i + 1;
    }
    false
}

/// The child's environment built from the parent's: every entry whose name is
/// cleared is left out, whatever its value, and the rest is kept in order.
pub fn child_env(parent: &Vec<(String, String)>) -> (r: Vec<(String, String)>)
    ensures
        env_view(r@) == child_env_of(env_view(parent@)),
        forall|i: int| 0 <= i < r@.len() ==> !is_cleared_name(#[trigger] r@[i].0@),
{
    let mut r: Vec<(String, String)> = Vec::new();
    let mut i: usize = 0;
    while i < parent.len()
        invariant
            i <= parent@.len(),
            env_view(r@) == child_env_of(env_view(parent@).take(i as int)),
            forall|j: int| 0 <= j < r@.len() ==> !is_cleared_name(#[trigger] r@[j].0@),
        decreases parent@.len() - i,
    {
        let ghost e = env_view(parent@);
        assert(e.take(i + 1).drop_last() =~= e.take(i as int));
        assert(e.take(i + 1).last() == e[i as int]);
        reveal_with_fuel(Seq::filter, 1);
        if !is_cleared_var(&parent[i].0) {
            let name = parent[i].0.clone();
            let value = parent[i].1.clone();
            r.push((name, value));
            assert(env_view(r@) =~= child_env_of(e.take(i as int)).push(e[i as int]));
        } else {
            assert(child_env_of(e.take(i + 1)) == child_env_of(e.take(i as int)));
        }
        i = i + 1;
    }
    assert(env_view(parent@).take(parent@.len() as int) =~= env_view(parent@));
    r
}

} // verus!
