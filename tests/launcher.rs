use cfsai_launcher::invocation::{child_args, child_env, cleared_vars, forwarded_args, is_cleared_var};
use cfsai_launcher::launch::plan_launch;
use cfsai_launcher::layout::{interpreter_subpath, resolve_interpreter, ExePath, Platform};
use cfsai_launcher::outcome::{exit_code, LaunchError};

fn strings(v: &[&str]) -> Vec<String> {
    v.iter().map(|s| s.to_string()).collect()
}

fn exe(root: &[&str], parts: &[&str]) -> ExePath<String> {
    ExePath { root: strings(root), parts: strings(parts) }
}

#[test]
fn forwards_example_invocation_on_other_targets() {
    let argv = strings(&["launcher", "foo", "--bar=baz"]);
    let plan = plan_launch(Ok(exe(&["/"], &["opt", "cfs", "bin", "launcher"])), Platform::Other, argv);
    let launch = plan.expect("a launch");
    assert_eq!(launch.program.root, strings(&["/"]));
    assert_eq!(launch.program.base, strings(&["opt", "cfs"]));
    assert_eq!(launch.program.subpath, strings(&["python", "bin", "python3"]));
    assert_eq!(launch.args, strings(&["-m", "cfsai", "foo", "--bar=baz"]));
    assert_eq!(exit_code(Some(7)), 7);
}

#[test]
fn windows_layout_uses_python_exe() {
    let plan = plan_launch(
        Ok(exe(&["C:", "\\"], &["tools", "cfs", "bin", "launcher.exe"])),
        Platform::Windows,
        strings(&["launcher.exe"]),
    );
    let launch = plan.expect("a launch");
    assert_eq!(launch.program.root, strings(&["C:", "\\"]));
    assert_eq!(launch.program.base, strings(&["tools", "cfs"]));
    assert_eq!(launch.program.subpath, strings(&["python", "python.exe"]));
    assert_eq!(launch.args, strings(&["-m", "cfsai"]));
}

#[test]
fn each_platform_has_its_own_subpath() {
    let win = interpreter_subpath(Platform::Windows);
    let other = interpreter_subpath(Platform::Other);
    assert_eq!(win, strings(&["python", "python.exe"]));
    assert_eq!(other, strings(&["python", "bin", "python3"]));
    assert_ne!(win, other);
}

#[test]
fn two_components_reach_the_root() {
    let ip = resolve_interpreter(exe(&["/"], &["bin", "launcher"]), Platform::Other).expect("a path");
    assert!(ip.base.is_empty());
    assert_eq!(ip.root, strings(&["/"]));
}

#[test]
fn launcher_at_root_has_no_grandparent() {
    let r = plan_launch(Ok(exe(&["/"], &["launcher"])), Platform::Other, strings(&["launcher", "x"]));
    let err = r.err().expect("an error");
    assert!(matches!(err, LaunchError::NoParentDir));
    assert_eq!(err.message(), "Error: Unable to determine parent directory of executable.");
    assert_eq!(err.exit_code(), 1);
}

#[test]
fn empty_path_has_no_grandparent() {
    let r = resolve_interpreter(exe(&[], &[]), Platform::Windows);
    assert!(matches!(r, Err(LaunchError::NoParentDir)));
}

#[test]
fn unknown_exe_path_is_reported() {
    let r = plan_launch::<String>(Err("no such file".to_string()), Platform::Other, strings(&["launcher"]));
    let err = r.err().expect("an error");
    assert!(matches!(err, LaunchError::ExePathUnknown(ref d) if d == "no such file"));
    assert_eq!(err.message(), "Error determining executable path: no such file");
    assert_eq!(err.exit_code(), 1);
}

#[test]
fn spawn_failure_message_and_status() {
    let err = LaunchError::SpawnFailed("permission denied".to_string());
    assert_eq!(err.message(), "Failed to start Python process: permission denied");
    assert_eq!(err.exit_code(), 1);
}

#[test]
fn child_exit_codes_are_mirrored() {
    assert_eq!(exit_code(Some(0)), 0);
    assert_eq!(exit_code(Some(1)), 1);
    assert_eq!(exit_code(Some(42)), 42);
    assert_eq!(exit_code(Some(255)), 255);
}

#[test]
fn abnormal_child_end_gives_one() {
    assert_eq!(exit_code(None), 1);
}

#[test]
fn arguments_keep_order_and_content() {
    let argv = strings(&["prog", "b", "a", "", "--x", "a"]);
    let fwd = forwarded_args(argv);
    assert_eq!(fwd, strings(&["b", "a", "", "--x", "a"]));
    assert_eq!(child_args(fwd), strings(&["-m", "cfsai", "b", "a", "", "--x", "a"]));
}

#[test]
fn empty_argument_vector_forwards_nothing() {
    assert!(forwarded_args(Vec::new()).is_empty());
    assert_eq!(child_args(forwarded_args(strings(&["prog"]))), strings(&["-m", "cfsai"]));
}

#[test]
fn cleared_names_are_exactly_the_two() {
    assert_eq!(cleared_vars(), strings(&["PYTHONHOME", "PYTHONPATH"]));
    assert!(is_cleared_var(&"PYTHONHOME".to_string()));
    assert!(is_cleared_var(&"PYTHONPATH".to_string()));
    assert!(!is_cleared_var(&"pythonhome".to_string()));
    assert!(!is_cleared_var(&"PYTHONPATH2".to_string()));
    assert!(!is_cleared_var(&"".to_string()));
}

#[test]
fn child_env_drops_cleared_vars_whatever_their_value() {
    let pair = |k: &str, v: &str| (k.to_string(), v.to_string());
    let parent = vec![
        pair("PATH", "/usr/bin"),
        pair("PYTHONHOME", ""),
        pair("HOME", "/root"),
        pair("PYTHONPATH", "/elsewhere"),
        pair("PYTHONSTARTUP", "x.py"),
    ];
    let env = child_env(&parent);
    assert_eq!(
        env,
        vec![pair("PATH", "/usr/bin"), pair("HOME", "/root"), pair("PYTHONSTARTUP", "x.py")]
    );
}

#[test]
fn child_env_of_empty_parent_is_empty() {
    assert!(child_env(&Vec::new()).is_empty());
}
