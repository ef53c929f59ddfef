//! External commands: how a command line is adapted to the environment it
//! runs from, which flatpak-builder is used, and what a finished command's
//! exit status means.

use vstd::prelude::*;

verus! {

/// Exit status of a command stopped by an interrupt (128 + SIGINT).
pub const EXIT_CODE_INTERRUPTED: i32 = 130;

/// A command was stopped by the user's interrupt rather than failing.
#[derive(Debug, Clone, Copy, PartialEq, Eq, Structural)]
pub struct InterruptedError;

impl InterruptedError {
    /// What the interruption reports to the user.
    pub fn message(&self) -> (r: String)
        ensures
            r@ == "Command interrupted"@,
    {
        String::from_str("Command interrupted")
    }
}

/// Why running an external command did not succeed.
#[derive(Debug, Clone, Copy, PartialEq, Eq, Structural)]
pub enum CommandError {
    Interrupted(InterruptedError),
    /// The command exited unsuccessfully, with this exit code.
    Failed { code: i32 },
    /// Neither a native flatpak-builder nor the Flatpak app is installed.
    BuilderNotFound,
}

pub fn is_interrupted_error(error: &CommandError) -> (r: bool)
    ensures
        r == (*error is Interrupted),
{
    match error {
        CommandError::Interrupted(_) => true,
        _ => false,
    }
}

/// What a finished command amounts to. `code` is its exit code (`None` when
/// it was ended by a signal, which counts as code 1) and `interrupted`
/// whether an interrupt reached this process meanwhile.
pub open spec fn command_outcome_spec(success: bool, code: Option<i32>, interrupted: bool) -> Result<
    (),
    CommandError,
> {
    if success {
        Ok(())
    } else {
        let c = match code {
            Some(c) => c,
            None => 1,
        };
        if c == EXIT_CODE_INTERRUPTED || interrupted {
            Err(CommandError::Interrupted(InterruptedError))
        } else {
            Err(CommandError::Failed { code: c })
        }
    }
}

pub fn command_outcome(success: bool, code: Option<i32>, interrupted: bool) -> (r: Result<
    (),
    CommandError,
>)
    ensures
        r == command_outcome_spec(success, code, interrupted),
{
    if success {
        return Ok(());
    }
    let c = match code {
        Some(c) => c,
        None => 1,
    };
    if c == EXIT_CODE_INTERRUPTED || interrupted {
        Err(CommandError::Interrupted(InterruptedError))
    } else {
        Err(CommandError::Failed { code: c })
    }
}

pub open spec fn views(v: Seq<String>) -> Seq<Seq<char>> {
    v.map_values(|s: String| s@)
}

/// A program and its arguments.
pub struct Invocation {
    pub program: String,
    pub args: Vec<String>,
}

fn append_all(dst: &mut Vec<String>, src: &Vec<String>)
    ensures
        views(final(dst)@) == views(old(dst)@) + views(src@),
{
    let ghost start = dst@;
    let mut i: usize = 0;
    while i < src.len()
        invariant
            i <= src@.len(),
            views(dst@) =~= views(start) + views(src@.take(i as int)),
        decreases src@.len() - i,
    {
        let ghost before = dst@;
        let item = src[i].clone();
        dst.push(item);
        assert(dst@ == before.push(src@[i as int]));
        assert(src@.take(i + 1) =~= src@.take(i as int).push(src@[i as int]));
        assert(views(dst@) =~= views(before).push(src@[i as int]@));
        assert(views(src@.take(i + 1)) =~= views(src@.take(i as int)).push(src@[i as int]@));
        assert(views(dst@) =~= views(start) + views(src@.take(i + 1)));
        i = i + 1;
    }
    assert(src@.take(src@.len() as int) =~= src@);
}

/// Turns off rofiles-fuse, which fails inside containers.
pub const ROFILES_FUSE_FLAG: &'static str = "--disable-rofiles-fuse";

/// The arguments of `command` once the container workaround is applied:
/// flatpak-builder run inside a container gets the rofiles-fuse flag, unless
/// it already has it.
pub open spec fn container_args(
    command: Seq<char>,
    args: Seq<Seq<char>>,
    inside_container: bool,
) -> Seq<Seq<char>> {
    if command == "flatpak-builder"@ && inside_container && !args.contains(ROFILES_FUSE_FLAG@) {
        args.push(ROFILES_FUSE_FLAG@)
    } else {
        args
    }
}

/// The program and arguments that actually run `command`: from inside a
/// Flatpak sandbox the command is spawned on the host, through host-spawn
/// when it is available and flatpak-spawn otherwise.
pub open spec fn invocation_spec(
    command: Seq<char>,
    args: Seq<Seq<char>>,
    inside_container: bool,
    sandboxed: bool,
    host_spawn_available: bool,
) -> (Seq<char>, Seq<Seq<char>>) {
    let a = container_args(command, args, inside_container);
    if sandboxed {
        if host_spawn_available {
            ("host-spawn"@, seq![command] + a)
        } else {
            (
                "flatpak-spawn"@,
                seq!["--host"@, "--watch-bus"@, "--env=TERM=xterm-256color"@, command] + a,
            )
        }
    } else {
        (command, a)
    }
}

fn contains_string(v: &Vec<String>, s: &String) -> (r: bool)
    ensures
        r == views(v@).contains(s@),
{
    let mut i: usize = 0;
    while i < v.len()
        invariant
            i <= v@.len(),
            forall|k: int| 0 <= k < i ==> views(v@)[k] != s@,
        decreases v@.len() - i,
    {
        if v[i] == *s {
            assert(views(v@)[i as int] == s@);
            return true;
        }
        i = i + 1;
    }
    assert(!views(v@).contains(s@)) by {
        if views(v@).contains(s@) {
            let k = choose|k: int| 0 <= k < views(v@).len() && views(v@)[k] == s@;
            assert(views(v@)[k] != s@);
        }
    }
    false
}

/// Adapts `command args` to the environment: `inside_container` and
/// `sandboxed` say where this process runs, `host_spawn_available` whether
/// host-spawn can be used (consulted only when sandboxed).
pub fn command_invocation(
    command: &str,
    args: &Vec<String>,
    inside_container: bool,
    sandboxed: bool,
    host_spawn_available: bool,
) -> (r: Invocation)
    ensures
        (r.program@, views(r.args@)) == invocation_spec(
            command@,
            views(args@),
            inside_container,
            sandboxed,
            host_spawn_available,
        ),
{
    let command_string = String::from_str(command);
    let flag = String::from_str(ROFILES_FUSE_FLAG);
    let mut a: Vec<String> = Vec::new();
    append_all(&mut a, args);
    assert(views(a@) =~= views(args@));
    if command_string == String::from_str("flatpak-builder") && inside_container && !contains_string(
        args,
        &flag,
    ) {
        a.push(flag);
        assert(views(a@) =~= views(args@).push(ROFILES_FUSE_FLAG@));
    }
    if sandboxed {
        if host_spawn_available {
            let mut full: Vec<String> = Vec::new();
            full.push(command_string);
            append_all(&mut full, &a);
            assert(views(full@) =~= seq![command@] + views(a@));
            Invocation { program: String::from_str("host-spawn"), args: full }
        } else {
            let mut full: Vec<String> = Vec::new();
            full.push(String::from_str("--host"));
            full.push(String::from_str("--watch-bus"));
            full.push(String::from_str("--env=TERM=xterm-256color"));
            full.push(command_string);
            append_all(&mut full, &a);
            assert(views(full@) =~= seq![
                "--host"@,
                "--watch-bus"@,
                "--env=TERM=xterm-256color"@,
                command@,
            ] + views(a@));
            Invocation { program: String::from_str("flatpak-spawn"), args: full }
        }
    } else {
        Invocation { program: command_string, args: a }
    }
}

/// The Flatpak app that provides flatpak-builder.
pub const BUILDER_APP_ID: &'static str = "org.flatpak.Builder";

/// How flatpak-builder is run with `args`: the native binary when it is
/// installed, else the Flatpak app; `None` when neither is.
pub open spec fn builder_spec(
    args: Seq<Seq<char>>,
    native_available: bool,
    app_available: bool,
) -> Option<(Seq<char>, Seq<Seq<char>>)> {
    if native_available {
        Some(("flatpak-builder"@, args))
    } else if app_available {
        Some(("flatpak"@, seq!["run"@, BUILDER_APP_ID@] + args))
    } else {
        None
    }
}

/// Chooses how flatpak-builder runs with `args`. `native_available` and
/// `app_available` say whether the native binary and the Flatpak app answer.
pub fn flatpak_builder(args: &Vec<String>, native_available: bool, app_available: bool) -> (r:
    Result<Invocation, CommandError>)
    ensures
        match r {
            Ok(inv) => builder_spec(views(args@), native_available, app_available) == Some(
                (inv.program@, views(inv.args@)),
            ),
            Err(e) => builder_spec(views(args@), native_available, app_available) is None && e
                == CommandError::BuilderNotFound,
        },
{
    if native_available {
        let mut a: Vec<String> = Vec::new();
        append_all(&mut a, args);
        assert(views(a@) =~= views(args@));
        Ok(Invocation { program: String::from_str("flatpak-builder"), args: a })
    } else if app_available {
        let mut a: Vec<String> = Vec::new();
        a.push(String::from_str("run"));
        a.push(String::from_str(BUILDER_APP_ID));
        append_all(&mut a, args);
        assert(views(a@) =~= seq!["run"@, BUILDER_APP_ID@] + views(args@));
        Ok(Invocation { program: String::from_str("flatpak"), args: a })
    } else {
        Err(CommandError::BuilderNotFound)
    }
}

/// The tools that a build needs and that are missing, in the order they are
/// reported: git, flatpak, and a flatpak-builder of either kind. Each flag
/// says whether the tool could be started.
pub open spec fn missing_tools_spec(
    git: bool,
    flatpak: bool,
    native_builder: bool,
    builder_app: bool,
) -> Seq<Seq<char>> {
    (if git {
        seq![]
    } else {
        seq!["git"@]
    }) + (if flatpak {
        seq![]
    } else {
        seq!["flatpak"@]
    }) + (if native_builder || builder_app {
        seq![]
    } else {
        seq!["flatpak-builder or org.flatpak.Builder"@]
    })
}

pub fn missing_dependencies(git: bool, flatpak: bool, native_builder: bool, builder_app: bool) -> (r:
    Vec<String>)
    ensures
        views(r@) == missing_tools_spec(git, flatpak, native_builder, builder_app),
{
    let mut r: Vec<String> = Vec::new();
    if !git {
        r.push(String::from_str("git"));
    }
    if !flatpak {
        r.push(String::from_str("flatpak"));
    }
    if !native_builder && !builder_app {
        r.push(String::from_str("flatpak-builder or org.flatpak.Builder"));
    }
    assert(views(r@) =~= missing_tools_spec(git, flatpak, native_builder, builder_app));
    r
}

} // verus!
