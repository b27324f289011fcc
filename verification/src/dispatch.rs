//! The entry dispatcher: what a launch of the executable has to do.
//!
//! The decisions are made here from plain values. The caller supplies the
//! command line and what it could learn about the running executable, carries
//! out the [`Route`] that comes back, and ends the process with the [`Exit`]
//! that [`conclude`] computes from the command's outcome.

use vstd::prelude::*;

use crate::text::{join, same_text, starts_with, texts};

verus! {

/// The legacy subcommand that is still accepted but announced as deprecated.
pub const DEPRECATED_COMMAND: &'static str = "init";

/// The line printed to standard output when the legacy subcommand is used.
pub const DEPRECATION_NOTICE: &'static str =
    "wasm-pack init is deprecated, consider using wasm-pack build";

/// An executable whose file stem begins with this text is the installer.
pub const INSTALLER_PREFIX: &'static str = "wasm-pack-init";

/// The message of the hard failure for an executable path without a file name.
pub const NAMELESS_EXECUTABLE: &'static str = "executable should have a filename";

/// What stands before the primary message of an error.
pub const ERROR_PREFIX: &'static str = "Error: ";

/// What stands before the message of each further cause.
pub const CAUSE_PREFIX: &'static str = "Caused by: ";

/// How this process behaves, decided once from the executable's own name.
#[derive(Clone, Copy, Debug, PartialEq, Eq)]
pub enum ProcessMode {
    /// The ordinary command line tool.
    NormalCli,
    /// The self-installation stub.
    SelfInstaller,
}

/// What the operating environment tells about the running executable.
#[derive(Clone, Debug, PartialEq, Eq)]
pub enum Executable {
    /// The path of the executable could not be determined.
    Unknown,
    /// The path is known but has no final segment to name the file.
    Nameless,
    /// The file stem of the path: its base name without the extension.
    Stem(String),
}

/// Where control goes after the mode is decided.
#[derive(Clone, Debug, PartialEq, Eq)]
pub enum Route {
    /// Parse this command line, unchanged, and run the command it names.
    Continue(Vec<String>),
    /// Hand the process over to the installer, which decides how it ends.
    Install,
}

/// The full decision for one launch.
#[derive(Clone, Debug, PartialEq, Eq)]
pub struct Dispatch {
    /// The line to print to standard output before anything else, if any.
    pub notice: Option<&'static str>,
    /// The mode of this process.
    pub mode: ProcessMode,
    /// What to do next.
    pub route: Route,
}

/// How the process ends after the command has run.
#[derive(Clone, Debug, PartialEq, Eq)]
pub struct Exit {
    /// The lines to print to standard error, in order.
    pub stderr: Vec<String>,
    /// The status code of the process.
    pub code: i32,
}

/// Whether a file stem names the installer.
pub open spec fn is_installer_stem(stem: Seq<char>) -> bool {
    INSTALLER_PREFIX@.is_prefix_of(stem)
}

/// The mode that belongs to an executable.
pub open spec fn mode_of(exe: Executable) -> ProcessMode {
    match exe {
        Executable::Stem(stem) => if is_installer_stem(stem@) {
            ProcessMode::SelfInstaller
        } else {
            ProcessMode::NormalCli
        },
        _ => ProcessMode::NormalCli,
    }
}

/// Whether a command line, program name first, asks for the legacy subcommand.
pub open spec fn is_deprecated(args: Seq<String>) -> bool {
    args.len() > 1 && args[1]@ == DEPRECATED_COMMAND@
}

/// The notice that a command line calls for.
pub open spec fn notice_for(args: Seq<String>) -> Option<&'static str> {
    if is_deprecated(args) {
        Some(DEPRECATION_NOTICE)
    } else {
        None
    }
}

/// The route that belongs to a mode and a command line.
pub open spec fn route_for(mode: ProcessMode, args: Vec<String>) -> Route {
    match mode {
        ProcessMode::SelfInstaller => Route::Install,
        ProcessMode::NormalCli => Route::Continue(args),
    }
}

/// The line that reports the message at place `i` of a cause chain.
pub open spec fn error_line(i: int, message: Seq<char>) -> Seq<char> {
    if i == 0 {
        ERROR_PREFIX@ + message
    } else {
        CAUSE_PREFIX@ + message
    }
}

/// The lines that report a cause chain, outermost error first.
pub open spec fn error_lines(chain: Seq<Seq<char>>) -> Seq<Seq<char>> {
    Seq::new(chain.len(), |i: int| error_line(i, chain[i]))
}

impl ProcessMode {
    /// Classifies an executable by its file stem.
    pub fn from_stem(stem: &str) -> (mode: ProcessMode)
        ensures
            mode == (if is_installer_stem(stem@) {
                ProcessMode::SelfInstaller
            } else {
                ProcessMode::NormalCli
            }),
    {
        if starts_with(stem, INSTALLER_PREFIX) {
            ProcessMode::SelfInstaller
        } else {
            ProcessMode::NormalCli
        }
    }

    /// Classifies the running executable. An unknown path cannot be the
    /// installer. A path without a file name is a broken environment, which
    /// the caller has to fail on before it asks.
    pub fn classify(exe: &Executable) -> (mode: ProcessMode)
        requires
            !(exe is Nameless),
        ensures
            mode == mode_of(*exe),
    {
        match exe {
            Executable::Stem(stem) => ProcessMode::from_stem(stem.as_str()),
            _ => ProcessMode::NormalCli,
        }
    }
}

/// The deprecation notice, if the first argument after the program's name is
/// the legacy subcommand.
pub fn deprecation_notice(args: &Vec<String>) -> (notice: Option<&'static str>)
    ensures
        notice == notice_for(args@),
{
    if args.len() > 1 && same_text(args[1].as_str(), DEPRECATED_COMMAND) {
        Some(DEPRECATION_NOTICE)
    } else {
        None
    }
}

/// Decides what a launch does: whether to print the deprecation notice, which
/// mode the process is in, and where control goes. `args` is the whole command
/// line, the program's name first; it reaches the argument parser as it came.
pub fn dispatch(args: Vec<String>, exe: &Executable) -> (d: Dispatch)
    requires
        !(exe is Nameless),
    ensures
        d.notice == notice_for(args@),
        d.mode == mode_of(*exe),
        d.route == route_for(d.mode, args),
{
    let notice = deprecation_notice(&args);
    let mode = ProcessMode::classify(exe);
    let route = match mode {
        ProcessMode::SelfInstaller => Route::Install,
        ProcessMode::NormalCli => Route::Continue(args),
    };
    Dispatch { notice, mode, route }
}

/// Renders the messages of a cause chain, outermost error first, one line for
/// each: the first behind [`ERROR_PREFIX`], every other behind
/// [`CAUSE_PREFIX`], in the order given.
pub fn render_error(chain: &Vec<String>) -> (lines: Vec<String>)
    ensures
        texts(lines@) == error_lines(texts(chain@)),
{
    let mut lines: Vec<String> = Vec::new();
    let mut i: usize = 0;
    while i < chain.len()
        invariant
            i <= chain.len(),
            lines@.len() == i,
            forall|j: int| 0 <= j < i ==> lines@[j]@ == error_line(j, chain@[j]@),
        decreases chain.len() - i,
    {
        let prefix = if i == 0 {
            ERROR_PREFIX
        } else {
            CAUSE_PREFIX
        };
        lines.push(join(prefix, chain[i].as_str()));
        i += 1;
    }
    assert(texts(lines@) =~= error_lines(texts(chain@)));
    lines
}

/// Turns the outcome of the command into the end of the process: status 0 and
/// silence on success; on failure status 1 and the rendered cause chain.
pub fn conclude(outcome: &Result<(), Vec<String>>) -> (exit: Exit)
    ensures
        match outcome {
            Ok(_) => exit.code == 0 && exit.stderr@.len() == 0,
            Err(chain) => exit.code == 1 && texts(exit.stderr@) == error_lines(texts(chain@)),
        },
{
    match outcome {
        Ok(_) => Exit { stderr: Vec::new(), code: 0 },
        Err(chain) => Exit { stderr: render_error(chain), code: 1 },
    }
}

/// Every executable whose file stem begins with [`INSTALLER_PREFIX`] runs as
/// the installer, whatever the command line: control goes to the installer,
/// and no command line is handed on to the argument parser.
pub proof fn lemma_installer_stem_installs(stem: String, args: Vec<String>)
    requires
        INSTALLER_PREFIX@.is_prefix_of(stem@),
    ensures
        mode_of(Executable::Stem(stem)) == ProcessMode::SelfInstaller,
        route_for(mode_of(Executable::Stem(stem)), args) == Route::Install,
{
}

/// Every executable whose file stem does not begin with [`INSTALLER_PREFIX`]
/// runs as the normal command line tool, and so does one whose path is
/// unknown: the command line goes on to the argument parser.
pub proof fn lemma_other_stem_continues(stem: String, args: Vec<String>)
    requires
        !INSTALLER_PREFIX@.is_prefix_of(stem@),
    ensures
        mode_of(Executable::Stem(stem)) == ProcessMode::NormalCli,
        mode_of(Executable::Unknown) == ProcessMode::NormalCli,
        route_for(mode_of(Executable::Stem(stem)), args) == Route::Continue(args),
{
}

/// A command line whose first argument is exactly [`DEPRECATED_COMMAND`] gets
/// the one notice, and in the normal mode it still goes on to the argument
/// parser whole and unchanged, the deprecated word included.
pub proof fn lemma_deprecated_command_is_announced_and_kept(args: Vec<String>, exe: Executable)
    requires
        args@.len() > 1,
        args@[1]@ == DEPRECATED_COMMAND@,
        mode_of(exe) == ProcessMode::NormalCli,
    ensures
        notice_for(args@) == Some(DEPRECATION_NOTICE),
        route_for(mode_of(exe), args) == Route::Continue(args),
{
}

/// The report of a cause chain has one line for each message and keeps their
/// order: the outermost error behind [`ERROR_PREFIX`], each cause beneath it
/// behind [`CAUSE_PREFIX`].
pub proof fn lemma_error_lines_follow_the_chain(chain: Seq<Seq<char>>, i: int)
    requires
        0 <= i < chain.len(),
    ensures
        error_lines(chain).len() == chain.len(),
        i == 0 ==> error_lines(chain)[i] == ERROR_PREFIX@ + chain[i],
        i > 0 ==> error_lines(chain)[i] == CAUSE_PREFIX@ + chain[i],
{
}

} // verus!
