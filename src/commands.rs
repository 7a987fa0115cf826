use vstd::prelude::*;
use crate::error::InstallError;
use crate::ops::{op_views, texts, Op, OpModel};
use crate::paths::FsPath;
use crate::process::{joined, path_text, separator_of, Platform};
use crate::steps::{
    build_core, build_core_ops, build_sky_rts, build_sky_rts_ops, clean_core_all, clean_core_all_ops,
    clean_core_build, clean_core_build_ops, clean_sky_rts_all, clean_sky_rts_all_ops,
    clean_sky_rts_build, clean_sky_rts_build_ops, get_core, get_core_ops, get_sky_rts,
    get_sky_rts_ops, js_dir, shallow_clean, shallow_clean_ops,
};
use crate::text::{append_text, debug_form, debug_text, same_text};

verus! {

/// How many times a cleanup is attempted before its failure stands.
pub const CLEAN_ATTEMPTS: u32 = 3;

/// One of the two modules that are fetched and built.
#[derive(Clone, Copy, Debug, PartialEq, Eq, Structural)]
pub enum Component {
    Core,
    SkyRts,
}

/// One step of a command.
#[derive(Clone, Copy, Debug, PartialEq, Eq, Structural)]
pub enum Step {
    /// Remove the checkout and everything built from it.
    CleanAll(Component),
    /// Remove what was built, keeping the checkout.
    CleanBuild(Component),
    /// Clone the sources and check out the branch.
    Fetch(Component),
    /// Build and place the artifacts.
    Build(Component),
    /// Remove all build outputs at once, keeping the checkouts.
    ShallowClean,
}

/// The operations of a step and how many attempts it gets.
#[derive(Debug)]
pub struct Task {
    pub ops: Vec<Op>,
    pub attempts: u32,
}

/// Steps that only delete.
pub open spec fn is_cleanup(s: Step) -> bool {
    match s {
        Step::CleanAll(_) | Step::CleanBuild(_) | Step::ShallowClean => true,
        _ => false,
    }
}

/// Cleanups may fail for a moment (a file held open) and are retried;
/// everything else gets one attempt.
pub open spec fn step_attempts(s: Step) -> u32 {
    if is_cleanup(s) {
        CLEAN_ATTEMPTS
    } else {
        1
    }
}

/// The operations a step stands for.
pub open spec fn step_ops(p: Platform, h: Seq<Seq<char>>, s: Step, branch: Seq<char>) -> Seq<OpModel> {
    match s {
        Step::CleanAll(Component::Core) => clean_core_all_ops(p, h),
        Step::CleanAll(Component::SkyRts) => clean_sky_rts_all_ops(p, h),
        Step::CleanBuild(Component::Core) => clean_core_build_ops(p, h),
        Step::CleanBuild(Component::SkyRts) => clean_sky_rts_build_ops(p, h),
        Step::Fetch(Component::Core) => get_core_ops(h, branch),
        Step::Fetch(Component::SkyRts) => get_sky_rts_ops(h, branch),
        Step::Build(Component::Core) => build_core_ops(p, h),
        Step::Build(Component::SkyRts) => build_sky_rts_ops(p, h),
        Step::ShallowClean => shallow_clean_ops(h),
    }
}

/// The full clean of the core, attempted up to three times.
pub fn try_clean_core_all(p: Platform, home: &FsPath) -> (r: Task)
    ensures
        op_views(r.ops@) == clean_core_all_ops(p, home@),
        r.attempts == CLEAN_ATTEMPTS,
{
    Task { ops: clean_core_all(p, home), attempts: CLEAN_ATTEMPTS }
}

/// The full clean of the backend, attempted up to three times.
pub fn try_clean_sky_rts_all(p: Platform, home: &FsPath) -> (r: Task)
    ensures
        op_views(r.ops@) == clean_sky_rts_all_ops(p, home@),
        r.attempts == CLEAN_ATTEMPTS,
{
    Task { ops: clean_sky_rts_all(p, home), attempts: CLEAN_ATTEMPTS }
}

/// The operations of a step, and its attempts.
pub fn step_task(p: Platform, home: &FsPath, s: Step, branch: &str) -> (r: Task)
    ensures
        op_views(r.ops@) == step_ops(p, home@, s, branch@),
        r.attempts == step_attempts(s),
        r.attempts >= 1,
{
    match s {
        Step::CleanAll(Component::Core) => try_clean_core_all(p, home),
        Step::CleanAll(Component::SkyRts) => try_clean_sky_rts_all(p, home),
        Step::CleanBuild(Component::Core) => Task { ops: clean_core_build(p, home), attempts: CLEAN_ATTEMPTS },
        Step::CleanBuild(Component::SkyRts) => Task {
            ops: clean_sky_rts_build(p, home),
            attempts: CLEAN_ATTEMPTS,
        },
        Step::Fetch(Component::Core) => Task { ops: get_core(home, branch), attempts: 1 },
        Step::Fetch(Component::SkyRts) => Task { ops: get_sky_rts(home, branch), attempts: 1 },
        Step::Build(Component::Core) => Task { ops: build_core(p, home), attempts: 1 },
        Step::Build(Component::SkyRts) => Task { ops: build_sky_rts(p, home), attempts: 1 },
        Step::ShallowClean => Task { ops: shallow_clean(home), attempts: CLEAN_ATTEMPTS },
    }
}

/// Where the visualization library lives in a core checkout.
pub open spec fn closure_library_dir(root: Seq<Seq<char>>) -> Seq<Seq<char>> {
    js_dir(root).push("closure-library"@)
}

/// Downloading and unpacking the visualization library's archive into `dir`.
pub open spec fn closure_install_ops(
    p: Platform,
    dir: Seq<Seq<char>>,
    url: Seq<char>,
    filename: Seq<char>,
    unzipped: Seq<char>,
) -> Seq<OpModel> {
    seq![
        OpModel::Download(url, dir.push(filename)),
        OpModel::Require(
            dir.push(filename),
            "google closure library download appears to have failed - file not present "@
                + debug_form(joined(dir.push(filename), separator_of(p))),
        ),
        OpModel::Extract(dir.push(filename), dir),
        OpModel::Rename(dir.push(unzipped), dir.push("closure-library"@)),
        OpModel::Require(
            dir.push("closure-library"@),
            debug_form(joined(dir.push("closure-library"@), separator_of(p)))
                + " does not exist after unzipping closure bundle."@,
        ),
        OpModel::RemoveFile(dir.push(filename)),
    ]
}

/// Downloads the library's archive into `closure_install_dir`, unpacks it,
/// renames the unpacked directory to `closure-library` and deletes the
/// archive; also gives the path the library ends up at.
pub fn install_google_closure_library(
    p: Platform,
    closure_install_dir: &FsPath,
    url: &str,
    filename: &str,
    orig_unzipped_dir_name: &str,
) -> (r: (Vec<Op>, FsPath))
    ensures
        r.1@ == closure_install_dir@.push("closure-library"@),
        op_views(r.0@) == closure_install_ops(
            p,
            closure_install_dir@,
            url@,
            filename@,
            orig_unzipped_dir_name@,
        ),
{
    let dir = closure_install_dir;
    let zip = dir.join(filename);
    let mut r: Vec<Op> = Vec::new();
    r.push(Op::Download(url.to_owned(), zip.duplicate()));
    let zip_text = debug_text(path_text(p, &zip).as_str());
    r.push(
        Op::Require(
            zip.duplicate(),
            append_text(
                "google closure library download appears to have failed - file not present ",
                zip_text.as_str(),
            ),
        ),
    );
    r.push(Op::Extract(zip.duplicate(), dir.duplicate()));
    r.push(Op::Rename(dir.join(orig_unzipped_dir_name), dir.join("closure-library")));
    let library = dir.join("closure-library");
    let library_text = debug_text(path_text(p, &library).as_str());
    r.push(
        Op::Require(
            library.duplicate(),
            append_text(library_text.as_str(), " does not exist after unzipping closure bundle."),
        ),
    );
    r.push(Op::RemoveFile(zip));
    assert(op_views(r@) =~= closure_install_ops(
        p,
        closure_install_dir@,
        url@,
        filename@,
        orig_unzipped_dir_name@,
    ));
    (r, library)
}

/// What makes sure the visualization library is in the core checkout at
/// `scaii_root`: nothing when it is already there (`present`), otherwise
/// the download of a fixed release.
pub fn ensure_google_closure_lib_installed(p: Platform, scaii_root: &FsPath, present: bool) -> (r: Vec<Op>)
    ensures
        present ==> r@.len() == 0,
        !present ==> op_views(r@) == closure_install_ops(
            p,
            js_dir(scaii_root@),
            "https://github.com/google/closure-library/archive/v20171112.zip"@,
            "v20171112.zip"@,
            "closure-library-20171112"@,
        ),
{
    if present {
        Vec::new()
    } else {
        let dir = scaii_root.join("viz").join("js");
        install_google_closure_library(
            p,
            &dir,
            "https://github.com/google/closure-library/archive/v20171112.zip",
            "v20171112.zip",
            "closure-library-20171112",
        ).0
    }
}

/// The directory whose presence means the visualization library is there.
pub fn closure_library_path(scaii_root: &FsPath) -> (r: FsPath)
    ensures
        r@ == closure_library_dir(scaii_root@),
{
    scaii_root.join("viz").join("js").join("closure-library")
}

/// The failure to hand back when installing the visualization library
/// failed: the inner message in its debug form.
pub fn closure_install_failure(e: &InstallError) -> (r: InstallError)
    ensures
        r@ == "google closure library download appears to have failed: "@ + debug_form(e@),
{
    let quoted = debug_text(e.description());
    InstallError::new(append_text("google closure library download appears to have failed: ", quoted.as_str()))
}

/// What a command asks for.
#[derive(Debug)]
pub enum CommandPlan {
    /// Run these steps in order, stopping at the first failure.
    Steps(Vec<Step>),
    /// A reinstall was asked for but nothing is installed.
    NothingToReinstall,
    /// The command is not known.
    Unknown,
}

/// A clean installation: clean, fetch and build both components.
pub open spec fn install_steps() -> Seq<Step> {
    seq![
        Step::CleanAll(Component::Core),
        Step::CleanAll(Component::SkyRts),
        Step::Fetch(Component::Core),
        Step::Fetch(Component::SkyRts),
        Step::Build(Component::Core),
        Step::Build(Component::SkyRts),
    ]
}

/// A rebuild from the existing checkouts.
pub open spec fn reinstall_steps() -> Seq<Step> {
    seq![Step::ShallowClean, Step::Build(Component::Core), Step::Build(Component::SkyRts)]
}

/// Removing both components.
pub open spec fn uninstall_steps() -> Seq<Step> {
    seq![Step::CleanAll(Component::Core), Step::CleanAll(Component::SkyRts)]
}

/// The names of the rebuild command.
pub open spec fn is_reinstall(name: Seq<char>) -> bool {
    name == "reinstall"@ || name == "re-install"@
}

/// The steps each known command stands for.
pub open spec fn command_steps(name: Seq<char>) -> Option<Seq<Step>> {
    if name == "install"@ || name == "full-install"@ {
        Some(install_steps())
    } else if is_reinstall(name) {
        Some(reinstall_steps())
    } else if name == "uninstall"@ || name == "full-clean"@ {
        Some(uninstall_steps())
    } else if name == "get-core"@ {
        Some(seq![Step::Fetch(Component::Core)])
    } else if name == "get-sky-rts"@ {
        Some(seq![Step::Fetch(Component::SkyRts)])
    } else if name == "build-core"@ {
        Some(seq![Step::Build(Component::Core)])
    } else if name == "build-sky-rts"@ {
        Some(seq![Step::Build(Component::SkyRts)])
    } else if name == "clean-core-all"@ {
        Some(seq![Step::CleanAll(Component::Core)])
    } else if name == "clean-core-build"@ {
        Some(seq![Step::CleanBuild(Component::Core)])
    } else if name == "clean-sky-rts-all"@ {
        Some(seq![Step::CleanAll(Component::SkyRts)])
    } else if name == "clean-sky-rts-build"@ {
        Some(seq![Step::CleanBuild(Component::SkyRts)])
    } else {
        None
    }
}

fn steps_of(s: &[Step]) -> (r: Vec<Step>)
    ensures
        r@ == s@,
{
    let mut r: Vec<Step> = Vec::new();
    let mut i: usize = 0;
    while i < s.len()
        invariant
            i <= s@.len(),
            r@ == s@.take(i as int),
        decreases s@.len() - i,
    {
        r.push(s[i]);
        assert(r@ =~= s@.take(i + 1));
        i = i + 1;
    }
    assert(s@.take(i as int) =~= s@);
    r
}

/// What `command` asks for. A reinstall needs an existing installation
/// (`installed`); without one nothing is done.
pub fn plan_command(command: &str, installed: bool) -> (r: CommandPlan)
    ensures
        match r {
            CommandPlan::Steps(v) => command_steps(command@) == Some(v@) && (is_reinstall(command@)
                ==> installed),
            CommandPlan::NothingToReinstall => is_reinstall(command@) && !installed,
            CommandPlan::Unknown => command_steps(command@) is None,
        },
{
    proof {
        reveal_strlit("reinstall");
        reveal_strlit("re-install");
        reveal_strlit("install");
        reveal_strlit("full-install");
        reveal_strlit("uninstall");
        reveal_strlit("full-clean");
        reveal_strlit("get-core");
        reveal_strlit("get-sky-rts");
        reveal_strlit("build-core");
        reveal_strlit("build-sky-rts");
        reveal_strlit("clean-core-all");
        reveal_strlit("clean-core-build");
        reveal_strlit("clean-sky-rts-all");
        reveal_strlit("clean-sky-rts-build");
        assert("uninstall"@[0] != "reinstall"@[0]);
        assert("get-core"@[0] != "re-install"@[0]);
    }
    if same_text(command, "install") || same_text(command, "full-install") {
        let v = steps_of(
            &[
                Step::CleanAll(Component::Core),
                Step::CleanAll(Component::SkyRts),
                Step::Fetch(Component::Core),
                Step::Fetch(Component::SkyRts),
                Step::Build(Component::Core),
                Step::Build(Component::SkyRts),
            ],
        );
        assert(v@ =~= install_steps());
        CommandPlan::Steps(v)
    } else if same_text(command, "reinstall") || same_text(command, "re-install") {
        if !installed {
            CommandPlan::NothingToReinstall
        } else {
            let v = steps_of(
                &[Step::ShallowClean, Step::Build(Component::Core), Step::Build(Component::SkyRts)],
            );
            assert(v@ =~= reinstall_steps());
            CommandPlan::Steps(v)
        }
    } else if same_text(command, "uninstall") || same_text(command, "full-clean") {
        let v = steps_of(&[Step::CleanAll(Component::Core), Step::CleanAll(Component::SkyRts)]);
        assert(v@ =~= uninstall_steps());
        CommandPlan::Steps(v)
    } else if same_text(command, "get-core") {
        CommandPlan::Steps(vec![Step::Fetch(Component::Core)])
    } else if same_text(command, "get-sky-rts") {
        CommandPlan::Steps(vec![Step::Fetch(Component::SkyRts)])
    } else if same_text(command, "build-core") {
        CommandPlan::Steps(vec![Step::Build(Component::Core)])
    } else if same_text(command, "build-sky-rts") {
        CommandPlan::Steps(vec![Step::Build(Component::SkyRts)])
    } else if same_text(command, "clean-core-all") {
        CommandPlan::Steps(vec![Step::CleanAll(Component::Core)])
    } else if same_text(command, "clean-core-build") {
        CommandPlan::Steps(vec![Step::CleanBuild(Component::Core)])
    } else if same_text(command, "clean-sky-rts-all") {
        CommandPlan::Steps(vec![Step::CleanAll(Component::SkyRts)])
    } else if same_text(command, "clean-sky-rts-build") {
        CommandPlan::Steps(vec![Step::CleanBuild(Component::SkyRts)])
    } else {
        CommandPlan::Unknown
    }
}

/// The request made on the command line: the branch to fetch and the
/// build variant.
#[derive(Debug)]
pub struct Args {
    flag_branch: bool,
    arg_branch_name: String,
    compile_type: String,
    branch_defaulted: bool,
}

/// The branch a request asks for: the third argument, `dev` without one.
pub open spec fn effective_branch(arguments: Seq<Seq<char>>) -> Seq<char> {
    if arguments.len() > 2 {
        arguments[2]
    } else {
        "dev"@
    }
}

/// The build variant a request names: the fourth argument, empty without one.
pub open spec fn build_variant(arguments: Seq<Seq<char>>) -> Seq<char> {
    if arguments.len() > 3 {
        arguments[3]
    } else {
        Seq::empty()
    }
}

impl Args {
    pub closed spec fn branch(&self) -> Seq<char> {
        self.arg_branch_name@
    }

    pub closed spec fn variant(&self) -> Seq<char> {
        self.compile_type@
    }

    pub closed spec fn defaulted(&self) -> bool {
        self.branch_defaulted
    }

    pub closed spec fn has_branch(&self) -> bool {
        self.flag_branch
    }

    /// Whether a branch is to be checked out.
    pub fn flag_branch(&self) -> (r: bool)
        ensures
            r == self.has_branch(),
    {
        self.flag_branch
    }

    /// The branch to check out.
    pub fn branch_name(&self) -> (r: &str)
        ensures
            r@ == self.branch(),
    {
        self.arg_branch_name.as_str()
    }

    /// The build variant (`debug` or `release`), empty when none was given.
    pub fn compile_type(&self) -> (r: &str)
        ensures
            r@ == self.variant(),
    {
        self.compile_type.as_str()
    }

    /// Whether no branch was given and `dev` was put in its place.
    pub fn branch_defaulted(&self) -> (r: bool)
        ensures
            r == self.defaulted(),
    {
        self.branch_defaulted
    }
}

/// Reads the request from the process arguments (the program name first,
/// then the command): none without a command; the branch is the third
/// argument, `dev` when there is none; the build variant is the fourth.
pub fn parse_args(arguments: &Vec<String>) -> (r: Option<Args>)
    ensures
        arguments@.len() < 2 <==> r is None,
        r matches Some(a) ==> {
            &&& a.has_branch()
            &&& a.branch() == effective_branch(texts(arguments@))
            &&& a.variant() == build_variant(texts(arguments@))
            &&& a.defaulted() == (arguments@.len() == 2)
        },
{
    if arguments.len() < 2 {
        return None;
    }
    let defaulted = arguments.len() == 2;
    let branch = if arguments.len() > 2 {
        arguments[2].clone()
    } else {
        "dev".to_owned()
    };
    let variant = if arguments.len() > 3 {
        arguments[3].clone()
    } else {
        String::new()
    };
    Some(
        Args {
            flag_branch: true,
            arg_branch_name: branch,
            compile_type: variant,
            branch_defaulted: defaulted,
        },
    )
}

} // verus!
