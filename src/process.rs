use vstd::prelude::*;
use crate::error::InstallError;
use crate::ops::{texts, Command};
use crate::paths::FsPath;
use crate::text::{append_text, same_text};

verus! {

/// The operating-system family the tool runs on.
#[derive(Clone, Copy, Debug, PartialEq, Eq, Structural)]
pub enum Platform {
    Linux,
    MacOs,
    Windows,
}

/// The components of a path written out with `sep` between them.
pub open spec fn joined(parts: Seq<Seq<char>>, sep: Seq<char>) -> Seq<char>
    decreases parts.len(),
{
    if parts.len() == 0 {
        Seq::empty()
    } else if parts.len() == 1 {
        parts[0]
    } else {
        joined(parts.drop_last(), sep) + sep + parts.last()
    }
}

pub open spec fn separator_of(p: Platform) -> Seq<char> {
    match p {
        Platform::Windows => "\\"@,
        _ => "/"@,
    }
}

/// The name a program is invoked under: one tool name may arrive wrapped
/// in double quotes, which are dropped.
pub open spec fn unquoted_program(command: Seq<char>) -> Seq<char> {
    if command == "\"protoc\""@ {
        "protoc"@
    } else {
        command
    }
}

/// How a command is started on a platform: through `cmd /C` on Windows,
/// directly elsewhere; on every platform the program name is unquoted.
pub open spec fn invocation(p: Platform, program: Seq<char>, args: Seq<Seq<char>>) -> (
    Seq<char>,
    Seq<Seq<char>>,
) {
    match p {
        Platform::Windows => ("cmd"@, seq!["/C"@, unquoted_program(program)] + args),
        _ => (unquoted_program(program), args),
    }
}

impl Platform {
    /// The text placed between path components.
    pub fn separator(&self) -> (r: &'static str)
        ensures
            r@ == separator_of(*self),
    {
        match self {
            Platform::Windows => "\\",
            _ => "/",
        }
    }
}

/// Drops the quotes from a program name that arrived as `"protoc"`.
pub fn protoc_hack(command: String) -> (r: String)
    ensures
        r@ == unquoted_program(command@),
{
    if same_text(command.as_str(), "\"protoc\"") {
        "protoc".to_owned()
    } else {
        command
    }
}

/// The path written out for the platform.
pub fn path_text(p: Platform, path: &FsPath) -> (r: String)
    ensures
        r@ == joined(path@, separator_of(p)),
{
    let sep = p.separator();
    let n = path.len();
    if n == 0 {
        return String::new();
    }
    let mut r = path.part(0).to_owned();
    let mut i: usize = 1;
    while i < n
        invariant
            n == path@.len(),
            1 <= i <= n,
            sep@ == separator_of(p),
            r@ == joined(path@.take(i as int), separator_of(p)),
        decreases n - i,
    {
        let with_sep = append_text(r.as_str(), sep);
        r = append_text(with_sep.as_str(), path.part(i));
        assert(path@.take(i + 1).drop_last() =~= path@.take(i as int));
        i = i + 1;
    }
    assert(path@.take(n as int) =~= path@);
    r
}

/// The program and arguments that start `cmd` on the platform.
pub fn run_command(p: Platform, cmd: &Command) -> (r: (String, Vec<String>))
    ensures
        (r.0@, texts(r.1@)) == invocation(p, cmd@.program, cmd@.args),
{
    match p {
        Platform::Windows => {
            let mut args: Vec<String> = Vec::new();
            args.push("/C".to_owned());
            args.push(protoc_hack(cmd.program.clone()));
            let mut i: usize = 0;
            while i < cmd.args.len()
                invariant
                    i <= cmd.args@.len(),
                    texts(args@) == seq!["/C"@, unquoted_program(cmd.program@)] + texts(
                        cmd.args@,
                    ).take(i as int),
                decreases cmd.args@.len() - i,
            {
                let a = cmd.args[i].clone();
                assert(a@ == texts(cmd.args@)[i as int]);
                let ghost before = args@;
                args.push(a);
                assert(texts(args@) =~= texts(before).push(a@));
                assert(texts(args@) =~= seq!["/C"@, unquoted_program(cmd.program@)] + texts(
                    cmd.args@,
                ).take(i + 1));
                i = i + 1;
            }
            assert(texts(cmd.args@).take(i as int) =~= texts(cmd.args@));
            ("cmd".to_owned(), args)
        },
        _ => {
            let mut args: Vec<String> = Vec::new();
            let mut i: usize = 0;
            while i < cmd.args.len()
                invariant
                    i <= cmd.args@.len(),
                    texts(args@) == texts(cmd.args@).take(i as int),
                decreases cmd.args@.len() - i,
            {
                let a = cmd.args[i].clone();
                assert(a@ == texts(cmd.args@)[i as int]);
                let ghost before = args@;
                args.push(a);
                assert(texts(args@) =~= texts(before).push(a@));
                assert(texts(args@) =~= texts(cmd.args@).take(i + 1));
                i = i + 1;
            }
            assert(texts(cmd.args@).take(i as int) =~= texts(cmd.args@));
            (protoc_hack(cmd.program.clone()), args)
        },
    }
}

/// What a finished process amounts to: its standard output when it exited
/// successfully and that output is text; otherwise a failure.
pub open spec fn process_result(exited_ok: bool, stdout: Option<Seq<char>>, stderr: Seq<char>) -> Result<
    Seq<char>,
    Seq<char>,
> {
    if exited_ok {
        match stdout {
            Some(out) => Ok(out),
            None => Err("problem converting command result from utf8"@),
        }
    } else {
        Err(stderr)
    }
}

/// Turns a finished process into its output or a failure: a non-zero exit
/// fails with the error output, and output that is not text fails too.
pub fn command_outcome(exited_ok: bool, stdout: Option<String>, stderr: String) -> (r: Result<
    String,
    InstallError,
>)
    ensures
        match r {
            Ok(s) => process_result(exited_ok, match stdout {
                Some(o) => Some(o@),
                None => None,
            }, stderr@) == Ok::<Seq<char>, Seq<char>>(s@),
            Err(e) => process_result(exited_ok, match stdout {
                Some(o) => Some(o@),
                None => None,
            }, stderr@) == Err::<Seq<char>, Seq<char>>(e@),
        },
{
    if exited_ok {
        match stdout {
            Some(out) => Ok(out),
            None => Err(InstallError::new("problem converting command result from utf8".to_owned())),
        }
    } else {
        Err(InstallError::new(stderr))
    }
}

} // verus!
