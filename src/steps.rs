use vstd::prelude::*;
use crate::error::InstallError;
use crate::layout::{
    backend_artifact, backend_artifact_names, copy_built_core, copy_built_rts, core_artifact,
    core_artifact_names, dot_dir,
    get_default_install_dir, get_dot_scaii_dir, install_dir,
};
use crate::ops::{op_views, texts, CheckModel, Command, CommandModel, Op, OpModel, OutputCheck};
use crate::paths::FsPath;
use crate::process::Platform;
use crate::text::append_text;

verus! {

/// The core's source checkout.
pub open spec fn core_checkout(h: Seq<Seq<char>>) -> Seq<Seq<char>> {
    install_dir(h).push("SCAII"@)
}

/// The backend's own source checkout.
pub open spec fn backend_checkout(h: Seq<Seq<char>>) -> Seq<Seq<char>> {
    install_dir(h).push("Sky-RTS"@)
}

/// Where the backend is built: its `backends` tree.
pub open spec fn backend_build_dir(h: Seq<Seq<char>>) -> Seq<Seq<char>> {
    backend_checkout(h).push("backends"@)
}

/// Where the core's built library goes.
pub open spec fn bin_dir(h: Seq<Seq<char>>) -> Seq<Seq<char>> {
    dot_dir(h).push("bin"@)
}

/// Where the language-interop shims go.
pub open spec fn glue_dir(h: Seq<Seq<char>>) -> Seq<Seq<char>> {
    dot_dir(h).push("glue"@)
}

/// Where backends and their assets go.
pub open spec fn backends_dir(h: Seq<Seq<char>>) -> Seq<Seq<char>> {
    dot_dir(h).push("backends"@)
}

/// The toolchain's output directory inside a source tree.
pub open spec fn release_dir(src: Seq<Seq<char>>) -> Seq<Seq<char>> {
    src.push("target"@).push("release"@)
}

/// A `git` command run in `dir`.
pub open spec fn git_op(args: Seq<Seq<char>>, dir: Seq<Seq<char>>, check: CheckModel) -> OpModel {
    OpModel::Run(CommandModel { program: "git"@, args, dir: Some(dir), check })
}

/// A release build with the toolchain in `dir`.
pub open spec fn cargo_build_op(dir: Seq<Seq<char>>) -> OpModel {
    OpModel::Run(
        CommandModel {
            program: "cargo"@,
            args: seq!["build"@, "--release"@],
            dir: Some(dir),
            check: CheckModel::BuildText,
        },
    )
}

/// Removing the core's built library, under the name it was placed under,
/// and its shims.
pub open spec fn clean_core_build_ops(p: Platform, h: Seq<Seq<char>>) -> Seq<OpModel> {
    seq![
        OpModel::RemoveFile(bin_dir(h).push(core_artifact(p).1)),
        OpModel::RemoveTree(glue_dir(h)),
    ]
}

/// Removing the core's checkout, then what it built.
pub open spec fn clean_core_all_ops(p: Platform, h: Seq<Seq<char>>) -> Seq<OpModel> {
    seq![OpModel::RemoveTree(core_checkout(h))] + clean_core_build_ops(p, h)
}

/// Removing the backend's built library, under the name it was placed
/// under, and its assets.
pub open spec fn clean_sky_rts_build_ops(p: Platform, h: Seq<Seq<char>>) -> Seq<OpModel> {
    seq![
        OpModel::RemoveFile(backends_dir(h).push("bin"@).push(backend_artifact(p).1)),
        OpModel::RemoveTree(backends_dir(h).push("sky-rts"@)),
    ]
}

/// Removing the backend's checkout, then what it built.
pub open spec fn clean_sky_rts_all_ops(p: Platform, h: Seq<Seq<char>>) -> Seq<OpModel> {
    seq![OpModel::RemoveTree(backend_checkout(h))] + clean_sky_rts_build_ops(p, h)
}

/// Removing every build output, keeping the checkouts.
pub open spec fn shallow_clean_ops(h: Seq<Seq<char>>) -> Seq<OpModel> {
    seq![
        OpModel::RemoveTree(backends_dir(h)),
        OpModel::RemoveTree(bin_dir(h)),
        OpModel::RemoveTree(glue_dir(h)),
    ]
}

/// The JavaScript directory of a core checkout.
pub open spec fn js_dir(root: Seq<Seq<char>>) -> Seq<Seq<char>> {
    root.push("viz"@).push("js"@)
}

/// Vendoring the protocol-buffer JavaScript runtime into a core checkout.
pub open spec fn protobuf_ops(root: Seq<Seq<char>>) -> Seq<OpModel> {
    let js = js_dir(root);
    seq![
        git_op(seq!["clone"@, "https://github.com/google/protobuf"@], js, CheckModel::CloneText),
        OpModel::CopyTree(js.push("protobuf"@).push("js"@), js.push("protobuf_js"@)),
        OpModel::RemoveTree(js.push("protobuf"@)),
    ]
}

/// Fetching the core on `branch`, with its third-party JavaScript libraries.
pub open spec fn get_core_ops(h: Seq<Seq<char>>, branch: Seq<char>) -> Seq<OpModel> {
    seq![
        OpModel::EnsureDir(dot_dir(h)),
        OpModel::EnsureDir(install_dir(h)),
        git_op(
            seq!["clone"@, "https://github.com/SCAII/SCAII.git"@],
            install_dir(h),
            CheckModel::CloneText,
        ),
        git_op(seq!["checkout"@, branch], core_checkout(h), CheckModel::CheckoutText(branch)),
        OpModel::InstallClosureLibrary(core_checkout(h)),
    ] + protobuf_ops(core_checkout(h))
}

/// Fetching the backend on `branch`.
pub open spec fn get_sky_rts_ops(h: Seq<Seq<char>>, branch: Seq<char>) -> Seq<OpModel> {
    seq![
        OpModel::EnsureDir(dot_dir(h)),
        OpModel::EnsureDir(install_dir(h)),
        git_op(
            seq!["clone"@, "https://github.com/SCAII/Sky-RTS.git"@],
            install_dir(h),
            CheckModel::CloneText,
        ),
        git_op(seq!["checkout"@, branch], backend_checkout(h), CheckModel::CheckoutText(branch)),
    ]
}

/// The failure of building the core before fetching it.
pub open spec fn core_missing_message() -> Seq<char> {
    "scaii core has not been installed - run 'get-core' command first."@
}

/// The failure of building the backend before fetching it.
pub open spec fn backend_missing_message() -> Seq<char> {
    "Sky-RTS has not been installed - run 'get-sky-rts' command first."@
}

/// Building the core and placing its library and shims.
pub open spec fn build_core_ops(p: Platform, h: Seq<Seq<char>>) -> Seq<OpModel> {
    let src = core_checkout(h);
    seq![
        OpModel::Require(src, core_missing_message()),
        cargo_build_op(src),
        OpModel::EnsureDir(bin_dir(h)),
        OpModel::CopyFile(
            release_dir(src).push(core_artifact(p).0),
            bin_dir(h).push(core_artifact(p).1),
        ),
        OpModel::CopyTree(src.push("glue"@), glue_dir(h)),
    ]
}

/// The directory that receives the backend's Python shims.
pub open spec fn env_glue_dir(h: Seq<Seq<char>>) -> Seq<Seq<char>> {
    glue_dir(h).push("python"@).push("scaii"@).push("env"@)
}

/// Building the backend and placing its library, shims and maps.
pub open spec fn build_sky_rts_ops(p: Platform, h: Seq<Seq<char>>) -> Seq<OpModel> {
    let build = backend_build_dir(h);
    let maps = backends_dir(h).push("sky-rts"@).push("maps"@);
    seq![
        OpModel::Require(backend_checkout(h), backend_missing_message()),
        cargo_build_op(build),
        OpModel::EnsureDir(backends_dir(h).push("bin"@)),
        OpModel::EnsureDir(maps),
        OpModel::EnsureDir(env_glue_dir(h)),
        OpModel::CopyFile(
            release_dir(build).push(backend_artifact(p).0),
            backends_dir(h).push("bin"@).push(backend_artifact(p).1),
        ),
        OpModel::CopyTree(
            build.push("sky-rts"@).push("glue"@).push("python"@).push("."@),
            env_glue_dir(h),
        ),
        OpModel::CopyTree(build.push("sky-rts"@).push("lua"@).push("."@), maps),
    ]
}

/// A `git` command run in `dir`.
fn git_command(args: Vec<String>, dir: FsPath, check: OutputCheck) -> (r: Op)
    ensures
        r@ == git_op(texts(args@), dir@, check@),
{
    Op::Run(Command { program: "git".to_owned(), args, dir: Some(dir), check })
}

/// A release build in `dir`.
fn cargo_build(dir: FsPath) -> (r: Op)
    ensures
        r@ == cargo_build_op(dir@),
{
    let args = vec!["build".to_owned(), "--release".to_owned()];
    let r = Op::Run(
        Command { program: "cargo".to_owned(), args, dir: Some(dir), check: OutputCheck::BuildText },
    );
    assert(texts(args@) =~= seq!["build"@, "--release"@]);
    r
}

/// The core's source checkout under the home directory.
pub fn core_checkout_dir(home: &FsPath) -> (r: FsPath)
    ensures
        r@ == core_checkout(home@),
{
    get_default_install_dir(home).join("SCAII")
}

/// Removes the core's built library and its shims.
pub fn clean_core_build(p: Platform, home: &FsPath) -> (r: Vec<Op>)
    ensures
        op_views(r@) == clean_core_build_ops(p, home@),
{
    let dot = get_dot_scaii_dir(home);
    let (_, placed) = core_artifact_names(p);
    let mut r: Vec<Op> = Vec::new();
    r.push(Op::RemoveFile(dot.join("bin").join(placed)));
    r.push(Op::RemoveTree(dot.join("glue")));
    assert(op_views(r@) =~= clean_core_build_ops(p, home@));
    r
}

/// Removes the core's checkout and everything it built.
pub fn clean_core_all(p: Platform, home: &FsPath) -> (r: Vec<Op>)
    ensures
        op_views(r@) == clean_core_all_ops(p, home@),
{
    let mut r: Vec<Op> = Vec::new();
    r.push(Op::RemoveTree(core_checkout_dir(home)));
    extend(&mut r, clean_core_build(p, home));
    assert(op_views(r@) =~= clean_core_all_ops(p, home@));
    r
}

/// Appends `rest` to `ops`.
fn extend(ops: &mut Vec<Op>, rest: Vec<Op>)
    ensures
        final(ops)@ == old(ops)@ + rest@,
{
    let mut rest = rest;
    ops.append(&mut rest);
}

/// Removes the backend's built library and its assets.
pub fn clean_sky_rts_build(p: Platform, home: &FsPath) -> (r: Vec<Op>)
    ensures
        op_views(r@) == clean_sky_rts_build_ops(p, home@),
{
    let backends = get_dot_scaii_dir(home).join("backends");
    let (_, placed) = backend_artifact_names(p);
    let mut r: Vec<Op> = Vec::new();
    r.push(Op::RemoveFile(backends.join("bin").join(placed)));
    r.push(Op::RemoveTree(backends.join("sky-rts")));
    assert(op_views(r@) =~= clean_sky_rts_build_ops(p, home@));
    r
}

/// Removes the backend's checkout and everything it built.
pub fn clean_sky_rts_all(p: Platform, home: &FsPath) -> (r: Vec<Op>)
    ensures
        op_views(r@) == clean_sky_rts_all_ops(p, home@),
{
    let mut r: Vec<Op> = Vec::new();
    r.push(Op::RemoveTree(get_default_install_dir(home).join("Sky-RTS")));
    extend(&mut r, clean_sky_rts_build(p, home));
    assert(op_views(r@) =~= clean_sky_rts_all_ops(p, home@));
    r
}

/// Removes the build outputs (backends, binaries, shims) but keeps the
/// source checkouts.
pub fn shallow_clean(home: &FsPath) -> (r: Vec<Op>)
    ensures
        op_views(r@) == shallow_clean_ops(home@),
{
    let dot = get_dot_scaii_dir(home);
    let mut r: Vec<Op> = Vec::new();
    r.push(Op::RemoveTree(dot.join("backends")));
    r.push(Op::RemoveTree(dot.join("bin")));
    r.push(Op::RemoveTree(dot.join("glue")));
    assert(op_views(r@) =~= shallow_clean_ops(home@));
    r
}

/// Vendors the protocol-buffer JavaScript runtime into a core checkout:
/// clone its repository, keep only its JavaScript part, drop the rest.
pub fn install_protobuf_javascript_lib(install_dir: &FsPath) -> (r: Vec<Op>)
    ensures
        op_views(r@) == protobuf_ops(install_dir@),
{
    let js = install_dir.join("viz").join("js");
    let args = vec!["clone".to_owned(), "https://github.com/google/protobuf".to_owned()];
    assert(texts(args@) =~= seq!["clone"@, "https://github.com/google/protobuf"@]);
    let mut r: Vec<Op> = Vec::new();
    r.push(git_command(args, js.duplicate(), OutputCheck::CloneText));
    r.push(Op::CopyTree(js.join("protobuf").join("js"), js.join("protobuf_js")));
    r.push(Op::RemoveTree(js.join("protobuf")));
    assert(op_views(r@) =~= protobuf_ops(install_dir@));
    r
}

/// Clones the core into the install directory, checks out `branch`, and
/// brings in its third-party JavaScript libraries.
pub fn get_core(home: &FsPath, branch: &str) -> (r: Vec<Op>)
    ensures
        op_views(r@) == get_core_ops(home@, branch@),
{
    let install = get_default_install_dir(home);
    let scaii = core_checkout_dir(home);
    let clone_args = vec!["clone".to_owned(), "https://github.com/SCAII/SCAII.git".to_owned()];
    assert(texts(clone_args@) =~= seq!["clone"@, "https://github.com/SCAII/SCAII.git"@]);
    let checkout_args = vec!["checkout".to_owned(), branch.to_owned()];
    assert(texts(checkout_args@) =~= seq!["checkout"@, branch@]);
    let mut r: Vec<Op> = Vec::new();
    r.push(Op::EnsureDir(get_dot_scaii_dir(home)));
    r.push(Op::EnsureDir(install.duplicate()));
    r.push(git_command(clone_args, install, OutputCheck::CloneText));
    r.push(git_command(checkout_args, scaii.duplicate(), OutputCheck::CheckoutText(branch.to_owned())));
    r.push(Op::InstallClosureLibrary(scaii.duplicate()));
    extend(&mut r, install_protobuf_javascript_lib(&scaii));
    assert(op_views(r@) =~= get_core_ops(home@, branch@));
    r
}

/// Clones the backend into the install directory and checks out `branch`.
pub fn get_sky_rts(home: &FsPath, branch: &str) -> (r: Vec<Op>)
    ensures
        op_views(r@) == get_sky_rts_ops(home@, branch@),
{
    let install = get_default_install_dir(home);
    let clone_args = vec!["clone".to_owned(), "https://github.com/SCAII/Sky-RTS.git".to_owned()];
    assert(texts(clone_args@) =~= seq!["clone"@, "https://github.com/SCAII/Sky-RTS.git"@]);
    let checkout_args = vec!["checkout".to_owned(), branch.to_owned()];
    assert(texts(checkout_args@) =~= seq!["checkout"@, branch@]);
    let mut r: Vec<Op> = Vec::new();
    r.push(Op::EnsureDir(get_dot_scaii_dir(home)));
    r.push(Op::EnsureDir(install.duplicate()));
    r.push(git_command(clone_args, install.duplicate(), OutputCheck::CloneText));
    r.push(
        git_command(checkout_args, install.join("Sky-RTS"), OutputCheck::CheckoutText(branch.to_owned())),
    );
    assert(op_views(r@) =~= get_sky_rts_ops(home@, branch@));
    r
}

/// Builds the core from its checkout and places the library and shims.
/// The first operation fails when the core has not been fetched, before the
/// toolchain is started.
pub fn build_core(p: Platform, home: &FsPath) -> (r: Vec<Op>)
    ensures
        op_views(r@) == build_core_ops(p, home@),
{
    let src = core_checkout_dir(home);
    let dot = get_dot_scaii_dir(home);
    let bin = dot.join("bin");
    let mut r: Vec<Op> = Vec::new();
    r.push(
        Op::Require(
            src.duplicate(),
            "scaii core has not been installed - run 'get-core' command first.".to_owned(),
        ),
    );
    r.push(cargo_build(src.duplicate()));
    r.push(Op::EnsureDir(bin.duplicate()));
    r.push(copy_built_core(p, src.join("target").join("release"), bin));
    r.push(Op::CopyTree(src.join("glue"), dot.join("glue")));
    assert(op_views(r@) =~= build_core_ops(p, home@));
    r
}

/// Builds the backend in its own checkout and places the library, shims
/// and maps. The first operation fails when that checkout is missing,
/// before the toolchain is started.
pub fn build_sky_rts(p: Platform, home: &FsPath) -> (r: Vec<Op>)
    ensures
        op_views(r@) == build_sky_rts_ops(p, home@),
{
    let checkout = get_default_install_dir(home).join("Sky-RTS");
    let src = checkout.join("backends");
    let backends = get_dot_scaii_dir(home).join("backends");
    let maps = backends.join("sky-rts").join("maps");
    let env = get_dot_scaii_dir(home).join("glue").join("python").join("scaii").join("env");
    let sky = src.join("sky-rts");
    let mut r: Vec<Op> = Vec::new();
    r.push(
        Op::Require(
            checkout,
            "Sky-RTS has not been installed - run 'get-sky-rts' command first.".to_owned(),
        ),
    );
    r.push(cargo_build(src.duplicate()));
    r.push(Op::EnsureDir(backends.join("bin")));
    r.push(Op::EnsureDir(maps.duplicate()));
    r.push(Op::EnsureDir(env.duplicate()));
    r.push(copy_built_rts(p, src.join("target").join("release"), backends.join("bin")));
    r.push(Op::CopyTree(sky.join("glue").join("python").join("."), env));
    r.push(Op::CopyTree(sky.join("lua").join("."), maps));
    assert(op_views(r@) =~= build_sky_rts_ops(p, home@));
    r
}

} // verus!
