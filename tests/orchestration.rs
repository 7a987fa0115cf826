use sky_install::commands::{
    closure_install_failure, closure_library_path, ensure_google_closure_lib_installed,
    install_google_closure_library, parse_args,
    plan_command, step_task, try_clean_core_all, try_clean_sky_rts_all, CommandPlan, Component, Step,
    CLEAN_ATTEMPTS,
};
use sky_install::error::InstallError;
use sky_install::ops::{Op, OutputCheck};
use sky_install::paths::FsPath;
use sky_install::process::Platform;
use sky_install::runner::{Pipeline, Retry, RetryAction};
use sky_install::steps::{build_core, build_sky_rts, get_core, get_sky_rts, shallow_clean};

fn parts(p: &FsPath) -> Vec<String> {
    let mut v = Vec::new();
    for i in 0..p.len() {
        v.push(p.part(i).to_string());
    }
    v
}

fn args(v: &[&str]) -> Vec<String> {
    v.iter().map(|s| s.to_string()).collect()
}

fn steps(plan: CommandPlan) -> Vec<Step> {
    match plan {
        CommandPlan::Steps(v) => v,
        other => panic!("no steps: {:?}", other),
    }
}

#[test]
fn missing_branch_defaults_to_dev() {
    let a = parse_args(&args(&["sky-install", "install"])).unwrap();
    assert!(a.flag_branch());
    assert_eq!(a.branch_name(), "dev");
    assert!(a.branch_defaulted());
    assert_eq!(a.compile_type(), "");
}

#[test]
fn given_branch_and_variant_are_kept() {
    let a = parse_args(&args(&["sky-install", "install", "feature", "debug"])).unwrap();
    assert_eq!(a.branch_name(), "feature");
    assert_eq!(a.compile_type(), "debug");
    assert!(!a.branch_defaulted());
    assert!(parse_args(&args(&["sky-install"])).is_none());
    assert!(parse_args(&args(&[])).is_none());
}

#[test]
fn install_runs_clean_fetch_build_in_order() {
    let s = steps(plan_command("install", false));
    assert_eq!(
        s,
        vec![
            Step::CleanAll(Component::Core),
            Step::CleanAll(Component::SkyRts),
            Step::Fetch(Component::Core),
            Step::Fetch(Component::SkyRts),
            Step::Build(Component::Core),
            Step::Build(Component::SkyRts),
        ]
    );
    assert_eq!(steps(plan_command("full-install", true)).len(), 6);
}

#[test]
fn install_stops_at_the_failing_step_with_its_message() {
    let s = steps(plan_command("install", false));
    let mut p = Pipeline::new(s.len());
    let mut performed = Vec::new();
    while let Some(i) = p.next() {
        performed.push(s[i]);
        let outcome = if s[i] == Step::Fetch(Component::Core) {
            Err(InstallError::new("ERROR - git pull failed : fatal: no network".to_string()))
        } else {
            Ok(())
        };
        p.record(outcome);
    }
    assert_eq!(
        performed,
        vec![Step::CleanAll(Component::Core), Step::CleanAll(Component::SkyRts), Step::Fetch(Component::Core)]
    );
    let e = p.result().unwrap_err();
    assert_eq!(e.description(), "ERROR - git pull failed : fatal: no network");
}

#[test]
fn pipeline_succeeds_when_every_item_does() {
    let mut p = Pipeline::new(3);
    let mut n = 0;
    while let Some(i) = p.next() {
        assert_eq!(i, n);
        n += 1;
        p.record(Ok(()));
    }
    assert_eq!(n, 3);
    assert!(p.result().is_ok());
    let empty = Pipeline::new(0);
    assert!(empty.next().is_none());
    assert!(empty.result().is_ok());
}

#[test]
fn reinstall_without_installation_does_nothing() {
    assert!(matches!(plan_command("reinstall", false), CommandPlan::NothingToReinstall));
    assert!(matches!(plan_command("re-install", false), CommandPlan::NothingToReinstall));
    assert_eq!(
        steps(plan_command("reinstall", true)),
        vec![Step::ShallowClean, Step::Build(Component::Core), Step::Build(Component::SkyRts)]
    );
}

#[test]
fn unknown_and_single_commands() {
    assert!(matches!(plan_command("frobnicate", true), CommandPlan::Unknown));
    assert!(matches!(plan_command("", true), CommandPlan::Unknown));
    assert_eq!(steps(plan_command("get-core", false)), vec![Step::Fetch(Component::Core)]);
    assert_eq!(steps(plan_command("get-sky-rts", false)), vec![Step::Fetch(Component::SkyRts)]);
    assert_eq!(steps(plan_command("build-core", false)), vec![Step::Build(Component::Core)]);
    assert_eq!(steps(plan_command("build-sky-rts", false)), vec![Step::Build(Component::SkyRts)]);
    assert_eq!(steps(plan_command("clean-core-all", false)), vec![Step::CleanAll(Component::Core)]);
    assert_eq!(steps(plan_command("clean-core-build", false)), vec![Step::CleanBuild(Component::Core)]);
    assert_eq!(steps(plan_command("clean-sky-rts-all", false)), vec![Step::CleanAll(Component::SkyRts)]);
    assert_eq!(steps(plan_command("clean-sky-rts-build", false)), vec![Step::CleanBuild(Component::SkyRts)]);
}

fn only_removals(ops: &[Op]) -> bool {
    ops.iter().all(|o| matches!(o, Op::RemoveTree(_) | Op::RemoveFile(_)))
}

#[test]
fn full_clean_twice_plans_only_removals_both_times() {
    let home = FsPath::from_root("/home/u");
    for _ in 0..2 {
        let s = steps(plan_command("full-clean", true));
        assert_eq!(s, vec![Step::CleanAll(Component::Core), Step::CleanAll(Component::SkyRts)]);
        for step in s {
            let t = step_task(Platform::Linux, &home, step, "dev");
            assert_eq!(t.attempts, 3);
            assert!(only_removals(&t.ops));
        }
    }
    let u = steps(plan_command("uninstall", true));
    assert_eq!(u.len(), 2);
}

#[test]
fn clean_tasks_target_the_installation() {
    let home = FsPath::from_root("/h");
    let t = try_clean_core_all(Platform::Linux, &home);
    assert_eq!(t.attempts, CLEAN_ATTEMPTS);
    assert_eq!(t.ops.len(), 3);
    match &t.ops[0] {
        Op::RemoveTree(p) => assert_eq!(parts(p), vec!["/h", ".scaii", "git", "SCAII"]),
        o => panic!("{:?}", o),
    }
    match &t.ops[1] {
        Op::RemoveFile(p) => assert_eq!(parts(p), vec!["/h", ".scaii", "bin", "libscaii_core.so"]),
        o => panic!("{:?}", o),
    }
    let t = try_clean_sky_rts_all(Platform::MacOs, &home);
    match &t.ops[0] {
        Op::RemoveTree(p) => assert_eq!(parts(p), vec!["/h", ".scaii", "git", "Sky-RTS"]),
        o => panic!("{:?}", o),
    }
    match &t.ops[1] {
        Op::RemoveFile(p) => assert_eq!(parts(p), vec!["/h", ".scaii", "backends", "bin", "sky-rts.dylib"]),
        o => panic!("{:?}", o),
    }
    assert_eq!(shallow_clean(&home).len(), 3);
}

#[test]
fn retry_succeeds_on_the_first_success() {
    let mut r = Retry::new(3);
    assert!(matches!(r.record(Err(InstallError::new("a".to_string()))), RetryAction::Again));
    assert!(matches!(r.record(Ok(())), RetryAction::Stop(Ok(()))));
    let mut r = Retry::new(3);
    assert!(matches!(r.record(Ok(())), RetryAction::Stop(Ok(()))));
}

#[test]
fn retry_gives_up_after_three_with_the_last_error() {
    let mut r = Retry::new(3);
    let mut calls = 0;
    let result = loop {
        calls += 1;
        let msg = format!("fail {}", calls);
        match r.record(Err(InstallError::new(msg))) {
            RetryAction::Again => continue,
            RetryAction::Stop(res) => break res,
        }
    };
    assert_eq!(calls, 3);
    assert_eq!(result.unwrap_err().description(), "fail 3");
    let mut once = Retry::new(1);
    assert!(matches!(once.record(Err(InstallError::new("x".to_string()))), RetryAction::Stop(Err(_))));
}

#[test]
fn build_checks_for_sources_before_the_toolchain() {
    let home = FsPath::from_root("/h");
    let ops = build_core(Platform::Linux, &home);
    match &ops[0] {
        Op::Require(p, m) => {
            assert_eq!(parts(p), vec!["/h", ".scaii", "git", "SCAII"]);
            assert_eq!(m, "scaii core has not been installed - run 'get-core' command first.");
        }
        o => panic!("{:?}", o),
    }
    match &ops[1] {
        Op::Run(c) => {
            assert_eq!(c.program, "cargo");
            assert_eq!(c.args, vec!["build", "--release"]);
            assert!(matches!(c.check, OutputCheck::BuildText));
        }
        o => panic!("{:?}", o),
    }
    let ops = build_sky_rts(Platform::Windows, &home);
    match &ops[0] {
        Op::Require(p, m) => {
            assert_eq!(parts(p), vec!["/h", ".scaii", "git", "Sky-RTS"]);
            assert_eq!(m, "Sky-RTS has not been installed - run 'get-sky-rts' command first.");
        }
        o => panic!("{:?}", o),
    }
    match &ops[1] {
        Op::Run(c) => {
            assert_eq!(c.program, "cargo");
            assert_eq!(parts(c.dir.as_ref().unwrap()), vec!["/h", ".scaii", "git", "Sky-RTS", "backends"]);
        }
        o => panic!("{:?}", o),
    }
    match &ops[5] {
        Op::CopyFile(a, b) => {
            assert_eq!(
                parts(a),
                vec!["/h", ".scaii", "git", "Sky-RTS", "backends", "target", "release", "backend.dll"]
            );
            assert_eq!(parts(b), vec!["/h", ".scaii", "backends", "bin", "backend.dll"]);
        }
        o => panic!("{:?}", o),
    }
    match &ops[6] {
        Op::CopyTree(a, b) => {
            assert_eq!(
                parts(a),
                vec!["/h", ".scaii", "git", "Sky-RTS", "backends", "sky-rts", "glue", "python", "."]
            );
            assert_eq!(parts(b), vec!["/h", ".scaii", "glue", "python", "scaii", "env"]);
        }
        o => panic!("{:?}", o),
    }
    assert_eq!(ops.len(), 8);
}

#[test]
fn fetch_clones_then_checks_out() {
    let home = FsPath::from_root("/h");
    let ops = get_core(&home, "dev");
    match &ops[2] {
        Op::Run(c) => {
            assert_eq!(c.program, "git");
            assert_eq!(c.args, vec!["clone", "https://github.com/SCAII/SCAII.git"]);
            assert_eq!(parts(c.dir.as_ref().unwrap()), vec!["/h", ".scaii", "git"]);
        }
        o => panic!("{:?}", o),
    }
    match &ops[3] {
        Op::Run(c) => {
            assert_eq!(c.args, vec!["checkout", "dev"]);
            assert_eq!(parts(c.dir.as_ref().unwrap()), vec!["/h", ".scaii", "git", "SCAII"]);
        }
        o => panic!("{:?}", o),
    }
    assert!(matches!(&ops[4], Op::InstallClosureLibrary(_)));
    assert_eq!(ops.len(), 8);
    let ops = get_sky_rts(&home, "main");
    assert_eq!(ops.len(), 4);
}

#[test]
fn closure_library_is_fetched_only_when_missing() {
    let root = FsPath::from_root("/h").join("SCAII");
    assert!(ensure_google_closure_lib_installed(Platform::Linux, &root, true).is_empty());
    let ops = ensure_google_closure_lib_installed(Platform::Linux, &root, false);
    assert_eq!(ops.len(), 6);
    match &ops[0] {
        Op::Download(url, p) => {
            assert_eq!(url, "https://github.com/google/closure-library/archive/v20171112.zip");
            assert_eq!(parts(p), vec!["/h", "SCAII", "viz", "js", "v20171112.zip"]);
        }
        o => panic!("{:?}", o),
    }
    match &ops[3] {
        Op::Rename(a, b) => {
            assert_eq!(parts(a), vec!["/h", "SCAII", "viz", "js", "closure-library-20171112"]);
            assert_eq!(parts(b), vec!["/h", "SCAII", "viz", "js", "closure-library"]);
        }
        o => panic!("{:?}", o),
    }
    match &ops[1] {
        Op::Require(_, m) => assert_eq!(
            m,
            "google closure library download appears to have failed - file not present \"/h/SCAII/viz/js/v20171112.zip\""
        ),
        o => panic!("{:?}", o),
    }
    match &ops[4] {
        Op::Require(_, m) => assert_eq!(
            m,
            "\"/h/SCAII/viz/js/closure-library\" does not exist after unzipping closure bundle."
        ),
        o => panic!("{:?}", o),
    }
    assert_eq!(parts(&closure_library_path(&root)), vec!["/h", "SCAII", "viz", "js", "closure-library"]);
    let e = closure_install_failure(&InstallError::new("x".to_string()));
    assert_eq!(e.description(), "google closure library download appears to have failed: \"x\"");
    let (ops, lib) = install_google_closure_library(Platform::Windows, &FsPath::from_root("C:").join("js"), "u", "f.zip", "d");
    assert_eq!(ops.len(), 6);
    assert_eq!(parts(&lib), vec!["C:", "js", "closure-library"]);
    match &ops[4] {
        Op::Require(_, m) => assert_eq!(m, "\"C:\\\\js\\\\closure-library\" does not exist after unzipping closure bundle."),
        o => panic!("{:?}", o),
    }
}
