use vstd::prelude::*;
use crate::ops::{texts, CheckModel, Command, CommandModel, Op, OpModel, OutputCheck};
use crate::paths::FsPath;
use crate::process::{joined, path_text, separator_of, Platform};

verus! {

/// The per-user installation root under the home directory `h`.
pub open spec fn dot_dir(h: Seq<Seq<char>>) -> Seq<Seq<char>> {
    h.push(".scaii"@)
}

/// Where source checkouts are placed.
pub open spec fn install_dir(h: Seq<Seq<char>>) -> Seq<Seq<char>> {
    dot_dir(h).push("git"@)
}

/// Where a built artifact is copied from and to, and under which names.
pub open spec fn core_artifact(p: Platform) -> (Seq<char>, Seq<char>) {
    match p {
        Platform::Linux => ("libscaii_core.so"@, "libscaii_core.so"@),
        Platform::MacOs => ("libscaii_core.dylib"@, "scaii_core.dylib"@),
        Platform::Windows => ("scaii_core.dll"@, "scaii_core.dll"@),
    }
}

/// The same for the backend's library.
pub open spec fn backend_artifact(p: Platform) -> (Seq<char>, Seq<char>) {
    match p {
        Platform::Linux => ("libbackend.so"@, "libsky-rts.so"@),
        Platform::MacOs => ("libbackend.dylib"@, "sky-rts.dylib"@),
        Platform::Windows => ("backend.dll"@, "backend.dll"@),
    }
}

/// The command that deletes a tree: `rm -rf` where a shell utility is
/// reliable, `rmdir /s /q` on Windows; empty output is success.
pub open spec fn remove_tree_command(p: Platform, dir: Seq<Seq<char>>) -> CommandModel {
    let d = joined(dir, separator_of(p));
    CommandModel {
        program: match p {
            Platform::Windows => "rmdir"@,
            _ => "rm"@,
        },
        args: match p {
            Platform::Windows => seq![d, "/s"@, "/q"@],
            _ => seq!["-rf"@, d],
        },
        dir: None,
        check: CheckModel::Empty("ERROR trying to delete files "@),
    }
}

/// The command that copies a tree: `cp -a`, where empty output is
/// success, or `xcopy /i /s` on Windows, whose output is not inspected.
pub open spec fn copy_tree_command(p: Platform, src: Seq<Seq<char>>, dest: Seq<Seq<char>>) -> CommandModel {
    let s = joined(src, separator_of(p));
    let d = joined(dest, separator_of(p));
    CommandModel {
        program: match p {
            Platform::Windows => "xcopy"@,
            _ => "cp"@,
        },
        args: match p {
            Platform::Windows => seq![s, "/i"@, "/s"@, d],
            _ => seq!["-a"@, s, d],
        },
        dir: None,
        check: match p {
            Platform::Windows => CheckModel::Ignore,
            _ => CheckModel::Empty("ERROR - problem copying files "@),
        },
    }
}

/// The installation root under the home directory.
pub fn get_dot_scaii_dir(home: &FsPath) -> (r: FsPath)
    ensures
        r@ == dot_dir(home@),
{
    home.join(".scaii")
}

/// The directory that holds source checkouts.
pub fn get_default_install_dir(home: &FsPath) -> (r: FsPath)
    ensures
        r@ == install_dir(home@),
{
    get_dot_scaii_dir(home).join("git")
}

/// Copies `source_filename` out of one directory into another under
/// `dest_filename`.
pub fn copy_source_named(
    source_dir: FsPath,
    target_dir: FsPath,
    source_filename: &str,
    dest_filename: &str,
) -> (r: Op)
    ensures
        r@ == OpModel::CopyFile(source_dir@.push(source_filename@), target_dir@.push(dest_filename@)),
{
    let mut source = source_dir;
    source.push(source_filename);
    let mut target = target_dir;
    target.push(dest_filename);
    Op::CopyFile(source, target)
}

/// Copies the core's built library into the binary directory under its
/// platform's name.
pub fn copy_built_core(p: Platform, source_dir: FsPath, target: FsPath) -> (r: Op)
    ensures
        r@ == OpModel::CopyFile(
            source_dir@.push(core_artifact(p).0),
            target@.push(core_artifact(p).1),
        ),
{
    match p {
        Platform::Linux => copy_source_named(source_dir, target, "libscaii_core.so", "libscaii_core.so"),
        Platform::MacOs => copy_source_named(source_dir, target, "libscaii_core.dylib", "scaii_core.dylib"),
        Platform::Windows => copy_source_named(source_dir, target, "scaii_core.dll", "scaii_core.dll"),
    }
}

/// Copies the backend's built library into its binary directory under its
/// platform's name.
pub fn copy_built_rts(p: Platform, source_dir: FsPath, target: FsPath) -> (r: Op)
    ensures
        r@ == OpModel::CopyFile(
            source_dir@.push(backend_artifact(p).0),
            target@.push(backend_artifact(p).1),
        ),
{
    match p {
        Platform::Linux => copy_source_named(source_dir, target, "libbackend.so", "libsky-rts.so"),
        Platform::MacOs => copy_source_named(source_dir, target, "libbackend.dylib", "sky-rts.dylib"),
        Platform::Windows => copy_source_named(source_dir, target, "backend.dll", "backend.dll"),
    }
}

/// The names the core's library is built under and placed under.
pub fn core_artifact_names(p: Platform) -> (r: (&'static str, &'static str))
    ensures
        (r.0@, r.1@) == core_artifact(p),
{
    match p {
        Platform::Linux => ("libscaii_core.so", "libscaii_core.so"),
        Platform::MacOs => ("libscaii_core.dylib", "scaii_core.dylib"),
        Platform::Windows => ("scaii_core.dll", "scaii_core.dll"),
    }
}

/// The names the backend's library is built under and placed under.
pub fn backend_artifact_names(p: Platform) -> (r: (&'static str, &'static str))
    ensures
        (r.0@, r.1@) == backend_artifact(p),
{
    match p {
        Platform::Linux => ("libbackend.so", "libsky-rts.so"),
        Platform::MacOs => ("libbackend.dylib", "sky-rts.dylib"),
        Platform::Windows => ("backend.dll", "backend.dll"),
    }
}

/// The command that deletes the tree at `dir`.
pub fn remove_tree(p: Platform, dir: &FsPath) -> (r: Command)
    ensures
        r@ == remove_tree_command(p, dir@),
{
    let d = path_text(p, dir);
    match p {
        Platform::Windows => {
            let args = vec![d, "/s".to_owned(), "/q".to_owned()];
            let r = Command {
                program: "rmdir".to_owned(),
                args,
                dir: None,
                check: OutputCheck::Empty("ERROR trying to delete files ".to_owned()),
            };
            assert(texts(r.args@) =~= remove_tree_command(p, dir@).args);
            r
        },
        _ => {
            let args = vec!["-rf".to_owned(), d];
            let r = Command {
                program: "rm".to_owned(),
                args,
                dir: None,
                check: OutputCheck::Empty("ERROR trying to delete files ".to_owned()),
            };
            assert(texts(r.args@) =~= remove_tree_command(p, dir@).args);
            r
        },
    }
}

/// The command that copies the tree at `source` to `dest`.
pub fn copy_recursive(p: Platform, source: &FsPath, dest: &FsPath) -> (r: Command)
    ensures
        r@ == copy_tree_command(p, source@, dest@),
{
    let s = path_text(p, source);
    let d = path_text(p, dest);
    match p {
        Platform::Windows => {
            let args = vec![s, "/i".to_owned(), "/s".to_owned(), d];
            let r = Command { program: "xcopy".to_owned(), args, dir: None, check: OutputCheck::Ignore };
            assert(texts(r.args@) =~= copy_tree_command(p, source@, dest@).args);
            r
        },
        _ => {
            let args = vec!["-a".to_owned(), s, d];
            let r = Command {
                program: "cp".to_owned(),
                args,
                dir: None,
                check: OutputCheck::Empty("ERROR - problem copying files ".to_owned()),
            };
            assert(texts(r.args@) =~= copy_tree_command(p, source@, dest@).args);
            r
        },
    }
}

} // verus!
