use vstd::prelude::*;
use crate::error::InstallError;
use crate::paths::FsPath;
use crate::text::{append_text, contains, debug_form, debug_text, has_prefix, occurs_in, starts_with};

verus! {

/// How the text a command printed decides whether it succeeded.
#[derive(Debug)]
pub enum OutputCheck {
    /// Any output is accepted.
    Ignore,
    /// Only empty output is accepted; otherwise the message is this
    /// prefix followed by the output.
    Empty(String),
    /// The output of a repository clone.
    CloneText,
    /// The output of checking out the named branch.
    CheckoutText(String),
    /// The output of the build toolchain.
    BuildText,
}

/// An external program to run, in a given directory or in the current one,
/// and how to judge its output.
#[derive(Debug)]
pub struct Command {
    pub program: String,
    pub args: Vec<String>,
    pub dir: Option<FsPath>,
    pub check: OutputCheck,
}

/// One operation for the caller to carry out.
#[derive(Debug)]
pub enum Op {
    /// Create the directory and its missing ancestors.
    EnsureDir(FsPath),
    /// Fail with the message when the path does not exist.
    Require(FsPath, String),
    /// Remove the tree at the path if it exists.
    RemoveTree(FsPath),
    /// Remove the file at the path if it exists.
    RemoveFile(FsPath),
    /// Copy one file, replacing the destination.
    CopyFile(FsPath, FsPath),
    /// Copy a directory tree into a destination.
    CopyTree(FsPath, FsPath),
    /// Run an external program.
    Run(Command),
    /// Fetch the URL into the file.
    Download(String, FsPath),
    /// Unpack the archive file into the directory.
    Extract(FsPath, FsPath),
    /// Rename the first path to the second.
    Rename(FsPath, FsPath),
    /// Make sure the visualization library is present under the checkout.
    InstallClosureLibrary(FsPath),
    /// Write the bytes to the file, replacing it.
    WriteFile(FsPath, Vec<u8>),
}

pub enum CheckModel {
    Ignore,
    Empty(Seq<char>),
    CloneText,
    CheckoutText(Seq<char>),
    BuildText,
}

pub struct CommandModel {
    pub program: Seq<char>,
    pub args: Seq<Seq<char>>,
    pub dir: Option<Seq<Seq<char>>>,
    pub check: CheckModel,
}

pub enum OpModel {
    EnsureDir(Seq<Seq<char>>),
    Require(Seq<Seq<char>>, Seq<char>),
    RemoveTree(Seq<Seq<char>>),
    RemoveFile(Seq<Seq<char>>),
    CopyFile(Seq<Seq<char>>, Seq<Seq<char>>),
    CopyTree(Seq<Seq<char>>, Seq<Seq<char>>),
    Run(CommandModel),
    Download(Seq<char>, Seq<Seq<char>>),
    Extract(Seq<Seq<char>>, Seq<Seq<char>>),
    Rename(Seq<Seq<char>>, Seq<Seq<char>>),
    InstallClosureLibrary(Seq<Seq<char>>),
    WriteFile(Seq<Seq<char>>, Seq<u8>),
}

/// The views of a sequence of strings.
pub open spec fn texts(v: Seq<String>) -> Seq<Seq<char>> {
    v.map_values(|s: String| s@)
}

impl OutputCheck {
    pub open spec fn view(&self) -> CheckModel {
        match self {
            OutputCheck::Ignore => CheckModel::Ignore,
            OutputCheck::Empty(m) => CheckModel::Empty(m@),
            OutputCheck::CloneText => CheckModel::CloneText,
            OutputCheck::CheckoutText(b) => CheckModel::CheckoutText(b@),
            OutputCheck::BuildText => CheckModel::BuildText,
        }
    }
}

impl Command {
    pub open spec fn view(&self) -> CommandModel {
        CommandModel {
            program: self.program@,
            args: texts(self.args@),
            dir: match self.dir {
                Some(d) => Some(d@),
                None => None,
            },
            check: self.check@,
        }
    }
}

impl Op {
    pub open spec fn view(&self) -> OpModel {
        match self {
            Op::EnsureDir(p) => OpModel::EnsureDir(p@),
            Op::Require(p, m) => OpModel::Require(p@, m@),
            Op::RemoveTree(p) => OpModel::RemoveTree(p@),
            Op::RemoveFile(p) => OpModel::RemoveFile(p@),
            Op::CopyFile(a, b) => OpModel::CopyFile(a@, b@),
            Op::CopyTree(a, b) => OpModel::CopyTree(a@, b@),
            Op::Run(c) => OpModel::Run(c@),
            Op::Download(u, p) => OpModel::Download(u@, p@),
            Op::Extract(a, b) => OpModel::Extract(a@, b@),
            Op::Rename(a, b) => OpModel::Rename(a@, b@),
            Op::InstallClosureLibrary(p) => OpModel::InstallClosureLibrary(p@),
            Op::WriteFile(p, d) => OpModel::WriteFile(p@, d@),
        }
    }
}

/// The views of a sequence of operations.
pub open spec fn op_views(v: Seq<Op>) -> Seq<OpModel> {
    v.map_values(|o: Op| o@)
}

/// What a clone's output means: text that begins with `error` or `fatal`
/// is a failure.
pub open spec fn clone_verdict(out: Seq<char>) -> Result<(), Seq<char>> {
    if has_prefix(out, "error"@) || has_prefix(out, "fatal"@) {
        Err("ERROR - git pull failed : "@ + out)
    } else {
        Ok(())
    }
}

/// What a branch checkout's output means: as for a clone, text that
/// begins with `error` or `fatal` is a failure.
pub open spec fn checkout_verdict(branch: Seq<char>, out: Seq<char>) -> Result<(), Seq<char>> {
    if has_prefix(out, "error"@) || has_prefix(out, "fatal"@) {
        Err("ERROR - problem checking out branch "@ + branch + " : "@ + out)
    } else {
        Ok(())
    }
}

/// What the build toolchain's output means: any mention of `error` is a
/// failure, whose message carries the output in its debug form.
pub open spec fn build_verdict(out: Seq<char>) -> Result<(), Seq<char>> {
    if occurs_in(out, "error"@) {
        Err("ERROR - cargo build failed "@ + debug_form(out))
    } else {
        Ok(())
    }
}

/// What a command's printed output means under a check.
pub open spec fn output_verdict(check: CheckModel, out: Seq<char>) -> Result<(), Seq<char>> {
    match check {
        CheckModel::Ignore => Ok(()),
        CheckModel::Empty(prefix) => if out.len() == 0 {
            Ok(())
        } else {
            Err(prefix + out)
        },
        CheckModel::CloneText => clone_verdict(out),
        CheckModel::CheckoutText(b) => checkout_verdict(b, out),
        CheckModel::BuildText => build_verdict(out),
    }
}

/// Decides from a clone's output whether it succeeded.
pub fn verify_git_clone_success(result_string: &str) -> (r: Result<(), InstallError>)
    ensures
        crate::error::outcome_view(r) == clone_verdict(result_string@),
{
    if starts_with(result_string, "error") || starts_with(result_string, "fatal") {
        return Err(InstallError::new(append_text("ERROR - git pull failed : ", result_string)));
    }
    Ok(())
}

/// Decides from a checkout's output whether switching to `branch`
/// succeeded.
pub fn checkout(branch: &str, result_string: &str) -> (r: Result<(), InstallError>)
    ensures
        crate::error::outcome_view(r) == checkout_verdict(branch@, result_string@),
{
    if !(starts_with(result_string, "error") || starts_with(result_string, "fatal")) {
        Ok(())
    } else {
        let head = append_text("ERROR - problem checking out branch ", branch);
        let head = append_text(head.as_str(), " : ");
        Err(InstallError::new(append_text(head.as_str(), result_string)))
    }
}

/// The failure of a build whose output, in its debug form, is
/// `quoted_output`.
pub fn build_failed(quoted_output: &str) -> (r: InstallError)
    ensures
        r@ == "ERROR - cargo build failed "@ + quoted_output@,
{
    InstallError::new(append_text("ERROR - cargo build failed ", quoted_output))
}

/// Judges a finished command: a failure to run it stands as it is; output
/// that ran is judged by the check.
pub fn judge_output(check: &OutputCheck, ran: Result<String, InstallError>) -> (r: Result<(), InstallError>)
    ensures
        crate::error::outcome_view(r) == match ran {
            Ok(out) => output_verdict(check@, out@),
            Err(e) => Err(e@),
        },
{
    match ran {
        Err(e) => Err(e),
        Ok(out) => match check {
            OutputCheck::Ignore => Ok(()),
            OutputCheck::Empty(prefix) => {
                if out.as_str().unicode_len() == 0 {
                    Ok(())
                } else {
                    Err(InstallError::new(append_text(prefix.as_str(), out.as_str())))
                }
            },
            OutputCheck::CloneText => verify_git_clone_success(out.as_str()),
            OutputCheck::CheckoutText(b) => checkout(b.as_str(), out.as_str()),
            OutputCheck::BuildText => {
                if contains(out.as_str(), "error") {
                    Err(build_failed(debug_text(out.as_str()).as_str()))
                } else {
                    Ok(())
                }
            },
        },
    }
}

} // verus!
