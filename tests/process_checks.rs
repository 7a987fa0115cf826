use sky_install::error::InstallError;
use sky_install::layout::{copy_built_core, copy_built_rts, copy_recursive, copy_source_named, get_default_install_dir, get_dot_scaii_dir, remove_tree};
use sky_install::ops::{checkout, judge_output, verify_git_clone_success, Command, Op, OutputCheck};
use sky_install::paths::FsPath;
use sky_install::process::{command_outcome, path_text, protoc_hack, run_command, Platform};

fn parts(p: &FsPath) -> Vec<String> {
    let mut v = Vec::new();
    for i in 0..p.len() {
        v.push(p.part(i).to_string());
    }
    v
}

#[test]
fn clone_output_is_judged_by_its_start() {
    assert!(verify_git_clone_success("Cloning into 'SCAII'...").is_ok());
    assert!(verify_git_clone_success("").is_ok());
    let e = verify_git_clone_success("fatal: repository not found").unwrap_err();
    assert_eq!(e.description(), "ERROR - git pull failed : fatal: repository not found");
    let e = verify_git_clone_success("error: x").unwrap_err();
    assert_eq!(e.description(), "ERROR - git pull failed : error: x");
    assert!(verify_git_clone_success("note: error later").is_ok());
}

#[test]
fn checkout_output_is_judged_by_its_start() {
    assert!(checkout("dev", "Switched to branch 'dev'").is_ok());
    let e = checkout("dev", "error: pathspec 'dev' did not match").unwrap_err();
    assert_eq!(
        e.description(),
        "ERROR - problem checking out branch dev : error: pathspec 'dev' did not match"
    );
    let e = checkout("dev", "fatal: not a git repository").unwrap_err();
    assert_eq!(
        e.description(),
        "ERROR - problem checking out branch dev : fatal: not a git repository"
    );
    assert!(checkout("dev", "Already on 'dev', no error").is_ok());
}

#[test]
fn protoc_hack_unquotes_only_that_name() {
    assert_eq!(protoc_hack("\"protoc\"".to_string()), "protoc");
    assert_eq!(protoc_hack("protoc".to_string()), "protoc");
    assert_eq!(protoc_hack("\"git\"".to_string()), "\"git\"");
}

#[test]
fn judge_output_by_check() {
    assert!(judge_output(&OutputCheck::Ignore, Ok("anything".to_string())).is_ok());
    assert!(judge_output(&OutputCheck::Empty("ERR ".to_string()), Ok(String::new())).is_ok());
    let e = judge_output(&OutputCheck::Empty("ERR ".to_string()), Ok("oops".to_string())).unwrap_err();
    assert_eq!(e.description(), "ERR oops");
    let e = judge_output(&OutputCheck::BuildText, Ok("warning\nerror[E0308]".to_string())).unwrap_err();
    assert_eq!(e.description(), "ERROR - cargo build failed \"warning\\nerror[E0308]\"");
    let e = judge_output(&OutputCheck::BuildText, Ok("error".to_string())).unwrap_err();
    assert_eq!(e.description(), "ERROR - cargo build failed \"error\"");
    assert!(judge_output(&OutputCheck::BuildText, Ok("Finished release".to_string())).is_ok());
    assert!(judge_output(&OutputCheck::CloneText, Ok("fatal: no".to_string())).is_err());
    assert!(judge_output(&OutputCheck::CheckoutText("b".to_string()), Ok("error".to_string())).is_err());
    let e = judge_output(&OutputCheck::Ignore, Err(InstallError::new("launch".to_string()))).unwrap_err();
    assert_eq!(e.description(), "launch");
}

#[test]
fn command_outcome_cases() {
    assert_eq!(command_outcome(true, Some("out".to_string()), "e".to_string()).unwrap(), "out");
    let e = command_outcome(true, None, "e".to_string()).unwrap_err();
    assert_eq!(e.description(), "problem converting command result from utf8");
    let e = command_outcome(false, Some("out".to_string()), "bad exit".to_string()).unwrap_err();
    assert_eq!(e.description(), "bad exit");
}

#[test]
fn paths_are_written_per_platform() {
    let p = FsPath::from_root("/home/u").join(".scaii").join("git");
    assert_eq!(path_text(Platform::Linux, &p), "/home/u/.scaii/git");
    let w = FsPath::from_root("C:\\Users\\u").join(".scaii");
    assert_eq!(path_text(Platform::Windows, &w), "C:\\Users\\u\\.scaii");
}

#[test]
fn commands_are_wrapped_on_windows() {
    let cmd = Command {
        program: "\"protoc\"".to_string(),
        args: vec!["a".to_string(), "b".to_string()],
        dir: None,
        check: OutputCheck::Ignore,
    };
    let (prog, args) = run_command(Platform::Windows, &cmd);
    assert_eq!(prog, "cmd");
    assert_eq!(args, vec!["/C", "protoc", "a", "b"]);
    let (prog, args) = run_command(Platform::Linux, &cmd);
    assert_eq!(prog, "protoc");
    assert_eq!(args, vec!["a", "b"]);
}

#[test]
fn install_layout() {
    let home = FsPath::from_root("/home/u");
    assert_eq!(parts(&get_dot_scaii_dir(&home)), vec!["/home/u", ".scaii"]);
    assert_eq!(parts(&get_default_install_dir(&home)), vec!["/home/u", ".scaii", "git"]);
}

fn copy_names(op: &Op) -> (Vec<String>, Vec<String>) {
    match op {
        Op::CopyFile(a, b) => (parts(a), parts(b)),
        other => panic!("not a copy: {:?}", other),
    }
}

#[test]
fn artifacts_are_named_per_platform() {
    let src = FsPath::from_root("s");
    let dst = FsPath::from_root("d");
    let (a, b) = copy_names(&copy_built_core(Platform::Linux, src.duplicate(), dst.duplicate()));
    assert_eq!((a, b), (vec!["s".to_string(), "libscaii_core.so".to_string()], vec!["d".to_string(), "libscaii_core.so".to_string()]));
    let (a, b) = copy_names(&copy_built_core(Platform::MacOs, src.duplicate(), dst.duplicate()));
    assert_eq!((a[1].as_str(), b[1].as_str()), ("libscaii_core.dylib", "scaii_core.dylib"));
    let (a, b) = copy_names(&copy_built_core(Platform::Windows, src.duplicate(), dst.duplicate()));
    assert_eq!((a[1].as_str(), b[1].as_str()), ("scaii_core.dll", "scaii_core.dll"));
    let (a, b) = copy_names(&copy_built_rts(Platform::Linux, src.duplicate(), dst.duplicate()));
    assert_eq!((a[1].as_str(), b[1].as_str()), ("libbackend.so", "libsky-rts.so"));
    let (a, b) = copy_names(&copy_built_rts(Platform::MacOs, src.duplicate(), dst.duplicate()));
    assert_eq!((a[1].as_str(), b[1].as_str()), ("libbackend.dylib", "sky-rts.dylib"));
    let (a, b) = copy_names(&copy_built_rts(Platform::Windows, src.duplicate(), dst.duplicate()));
    assert_eq!((a[1].as_str(), b[1].as_str()), ("backend.dll", "backend.dll"));
    let (a, b) = copy_names(&copy_source_named(src, dst, "x", "y"));
    assert_eq!((a, b), (vec!["s".to_string(), "x".to_string()], vec!["d".to_string(), "y".to_string()]));
}

#[test]
fn tree_commands_per_platform() {
    let p = FsPath::from_root("/t").join("x");
    let c = remove_tree(Platform::Linux, &p);
    assert_eq!(c.program, "rm");
    assert_eq!(c.args, vec!["-rf", "/t/x"]);
    let e = judge_output(&c.check, Ok("busy".to_string())).unwrap_err();
    assert_eq!(e.description(), "ERROR trying to delete files busy");
    let c = remove_tree(Platform::Windows, &p);
    assert_eq!(c.program, "rmdir");
    assert_eq!(c.args, vec!["/t\\x", "/s", "/q"]);
    let q = FsPath::from_root("/u");
    let c = copy_recursive(Platform::MacOs, &p, &q);
    assert_eq!(c.program, "cp");
    assert_eq!(c.args, vec!["-a", "/t/x", "/u"]);
    let e = judge_output(&c.check, Ok("denied".to_string())).unwrap_err();
    assert_eq!(e.description(), "ERROR - problem copying files denied");
    let c = copy_recursive(Platform::Windows, &p, &q);
    assert_eq!(c.program, "xcopy");
    assert_eq!(c.args, vec!["/t\\x", "/i", "/s", "/u"]);
    assert!(judge_output(&c.check, Ok("1 File(s) copied".to_string())).is_ok());
}
