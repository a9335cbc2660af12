//! The command executor: what has to happen outside for a command, and the
//! result that comes of it.
//!
//! The library starts no process and touches no disk. `CD::cd` says what a
//! command needs, as a `Task`; whoever runs the library carries the task out
//! and hands back how it went; `CD::resolved` and `CD::finished` turn that
//! into the result that the session is told.

use vstd::prelude::*;
use vstd::string::StringExecFns;
use crate::envelope::{CommandResult, CommandResultView};
use crate::path::{cd_target, is_separator, parent_path, target_of};
use crate::text::{
    begins_with, chars_of, digits, lemma_drop_space, lemma_skip_space, push_digits, same_text,
    starts_with, trim, trimmed,
};

verus! {

/// The seconds that a command may take where nothing else is said.
pub const COMMAND_TIMEOUT_SECS: u64 = 15;

/// What the library is told of the machine it runs on.
#[derive(Clone, Debug, PartialEq, Eq)]
pub struct Host {
    /// Whether paths and the shell follow the alternate platform's
    /// conventions (drive letters, `\`, `cmd`).
    pub windows: bool,
    /// The home directory of the user who runs the server.
    pub home: String,
    /// The seconds that a command may take.
    pub timeout_secs: u64,
}

impl Default for Host {
    /// The plain platform, with the root as home directory and
    /// `COMMAND_TIMEOUT_SECS` seconds for a command.
    fn default() -> (r: Host)
        ensures
            !r.windows,
            r.home@ == seq!['/'],
            r.timeout_secs == COMMAND_TIMEOUT_SECS,
    {
        proof {
            reveal_strlit("/");
        }
        let home = "/".to_owned();
        assert(home@ =~= seq!['/']);
        Host { windows: false, home, timeout_secs: COMMAND_TIMEOUT_SECS }
    }
}

/// What a command needs from outside the library.
#[derive(Clone, Debug, PartialEq, Eq)]
pub enum Task {
    /// For the `cd` command `command`: bring the path `target` into
    /// canonical form, if it names a directory that exists.
    Resolve { command: String, target: String },
    /// Start `program` with the arguments `flag` and `command` in
    /// `directory`, and give it `timeout_secs` seconds.
    Run { program: String, flag: String, command: String, directory: String, timeout_secs: u64 },
}

/// A `Task` as plain values.
pub enum TaskView {
    Resolve { command: Seq<char>, target: Seq<char> },
    Run {
        program: Seq<char>,
        flag: Seq<char>,
        command: Seq<char>,
        directory: Seq<char>,
        timeout_secs: u64,
    },
}

impl View for Task {
    type V = TaskView;

    open spec fn view(&self) -> TaskView {
        match self {
            Task::Resolve { command, target } => TaskView::Resolve {
                command: command@,
                target: target@,
            },
            Task::Run { program, flag, command, directory, timeout_secs } => TaskView::Run {
                program: program@,
                flag: flag@,
                command: command@,
                directory: directory@,
                timeout_secs: *timeout_secs,
            },
        }
    }
}

/// How a started command went.
#[derive(Clone, Debug, PartialEq, Eq)]
pub enum Outcome {
    /// The process ended in time, with this exit code if it had one, and
    /// wrote this.
    Exited { code: Option<i32>, stdout: String, stderr: String },
    /// The process ended in time, but what it wrote could not be read.
    OutputLost(String),
    /// The time ran out and the process was killed.
    TimedOut,
    /// Waiting for the process failed.
    WaitFailed(String),
    /// The process could not be started.
    SpawnFailed(String),
}

/// An `Outcome` as plain values.
pub enum OutcomeView {
    Exited { code: Option<i32>, stdout: Seq<char>, stderr: Seq<char> },
    OutputLost(Seq<char>),
    TimedOut,
    WaitFailed(Seq<char>),
    SpawnFailed(Seq<char>),
}

impl View for Outcome {
    type V = OutcomeView;

    open spec fn view(&self) -> OutcomeView {
        match self {
            Outcome::Exited { code, stdout, stderr } => OutcomeView::Exited {
                code: *code,
                stdout: stdout@,
                stderr: stderr@,
            },
            Outcome::OutputLost(e) => OutcomeView::OutputLost(e@),
            Outcome::TimedOut => OutcomeView::TimedOut,
            Outcome::WaitFailed(e) => OutcomeView::WaitFailed(e@),
            Outcome::SpawnFailed(e) => OutcomeView::SpawnFailed(e@),
        }
    }
}

/// How bringing a path into canonical form went: the canonical path, or why
/// there is none.
pub type Resolution = Result<String, String>;

/// A `Resolution` as plain values.
pub open spec fn resolution_view(r: Resolution) -> Result<Seq<char>, Seq<char>> {
    match r {
        Ok(p) => Ok(p@),
        Err(e) => Err(e@),
    }
}

/// Whether `command` changes the directory: it is `cd` alone, or begins
/// with `cd` and a space.
pub open spec fn is_cd(command: Seq<char>) -> bool {
    command == "cd"@ || begins_with(command, "cd "@)
}

/// The argument of a `cd` command: what follows its first three characters,
/// trimmed; `cd` alone has none.
pub open spec fn cd_argument(command: Seq<char>) -> Seq<char> {
    if command.len() >= 3 {
        trimmed(command.skip(3))
    } else {
        Seq::empty()
    }
}

/// The program that runs a command, and the flag before the command.
pub open spec fn shell_of(windows: bool) -> (Seq<char>, Seq<char>) {
    if windows {
        ("cmd"@, "/C"@)
    } else {
        ("bash"@, "-c"@)
    }
}

/// What `command` needs from outside, in the directory `cwd`: for a `cd`, the
/// path that it asks for in canonical form; for any other command, a shell
/// that runs it in `cwd` within the host's time.
pub open spec fn planned(
    cwd: Seq<char>,
    command: Seq<char>,
    home: Seq<char>,
    windows: bool,
    timeout_secs: u64,
) -> TaskView {
    if is_cd(command) {
        TaskView::Resolve {
            command: command,
            target: cd_target(cwd, cd_argument(command), home, windows),
        }
    } else {
        TaskView::Run {
            program: shell_of(windows).0,
            flag: shell_of(windows).1,
            command: command,
            directory: cwd,
            timeout_secs: timeout_secs,
        }
    }
}

/// The directory after a `cd` from `cwd` whose path resolved as
/// `resolution` says: the canonical path, or `cwd` still where there is
/// none.
pub open spec fn directory_after(cwd: Seq<char>, resolution: Result<Seq<char>, Seq<char>>) -> Seq<
    char,
> {
    match resolution {
        Ok(p) => p,
        Err(_) => cwd,
    }
}

/// The result of the `cd` command `command` from `cwd`: exit code 0 and the
/// new directory, or exit code 1, the reason on standard error and `cwd`.
pub open spec fn cd_result(
    command: Seq<char>,
    cwd: Seq<char>,
    resolution: Result<Seq<char>, Seq<char>>,
) -> CommandResultView {
    match resolution {
        Ok(p) => CommandResultView {
            command: command,
            stdout: Seq::empty(),
            stderr: Seq::empty(),
            exit_code: 0,
            current_directory: p,
        },
        Err(e) => CommandResultView {
            command: command,
            stdout: Seq::empty(),
            stderr: "cd: \""@ + cd_argument(command) + "\": "@ + e,
            exit_code: 1,
            current_directory: cwd,
        },
    }
}

/// The result of the command `command`, run in `directory`, that went as
/// `outcome` says. A process that ended in time gives its exit code (-1
/// where it has none) and what it wrote, trimmed. Every other outcome gives
/// -1 and says on standard error what happened.
pub open spec fn run_result(
    command: Seq<char>,
    directory: Seq<char>,
    outcome: OutcomeView,
    timeout_secs: u64,
) -> CommandResultView {
    match outcome {
        OutcomeView::Exited { code, stdout, stderr } => CommandResultView {
            command: command,
            stdout: trimmed(stdout),
            stderr: trimmed(stderr),
            exit_code: match code {
                Some(c) => c as int,
                None => -1,
            },
            current_directory: directory,
        },
        OutcomeView::OutputLost(e) => failure(
            command,
            directory,
            "Failed to read command output: "@ + e,
        ),
        OutcomeView::TimedOut => failure(
            command,
            directory,
            "Command timed out after "@ + digits(timeout_secs as nat) + " seconds"@,
        ),
        OutcomeView::WaitFailed(e) => failure(command, directory, "Process wait error: "@ + e),
        OutcomeView::SpawnFailed(e) => failure(
            command,
            directory,
            "Failed to execute command: "@ + e,
        ),
    }
}

/// The result of a command that did not run to its end: exit code -1 and
/// the reason on standard error.
pub open spec fn failure(
    command: Seq<char>,
    directory: Seq<char>,
    reason: Seq<char>,
) -> CommandResultView {
    CommandResultView {
        command: command,
        stdout: Seq::empty(),
        stderr: reason,
        exit_code: -1,
        current_directory: directory,
    }
}

/// Tells whether `command` changes the directory.
pub fn changes_directory(command: &str) -> (b: bool)
    ensures
        b == is_cd(command@),
{
    same_text(command, "cd") || starts_with(command, "cd ")
}

/// The argument of the `cd` command `command`.
pub fn argument_of(command: &str) -> (r: String)
    ensures
        r@ == cd_argument(command@),
{
    let n: usize = chars_of(command).len();
    if n < 3 {
        return String::new();
    }
    let rest = command.substring_char(3, n);
    assert(rest@ =~= command@.skip(3));
    trim(rest)
}

/// What `command` needs from outside, in the directory `cwd`.
pub fn plan(cwd: &str, command: &str, host: &Host) -> (task: Task)
    ensures
        task@ == planned(cwd@, command@, host.home@, host.windows, host.timeout_secs),
{
    if changes_directory(command) {
        let argument = argument_of(command);
        Task::Resolve {
            command: command.to_owned(),
            target: target_of(cwd, argument.as_str(), host.home.as_str(), host.windows),
        }
    } else if host.windows {
        Task::Run {
            program: "cmd".to_owned(),
            flag: "/C".to_owned(),
            command: command.to_owned(),
            directory: cwd.to_owned(),
            timeout_secs: host.timeout_secs,
        }
    } else {
        Task::Run {
            program: "bash".to_owned(),
            flag: "-c".to_owned(),
            command: command.to_owned(),
            directory: cwd.to_owned(),
            timeout_secs: host.timeout_secs,
        }
    }
}

impl CommandResult {
    /// The result of the `cd` command `command` from `cwd`, whose path
    /// resolved as `resolution` says.
    pub fn of_resolution(command: &str, cwd: &str, resolution: Resolution) -> (r: CommandResult)
        ensures
            r@ == cd_result(command@, cwd@, resolution_view(resolution)),
    {
        match resolution {
            Ok(p) => CommandResult {
                command: command.to_owned(),
                stdout: String::new(),
                stderr: String::new(),
                exit_code: 0,
                current_directory: p,
            },
            Err(e) => {
                let mut stderr = "cd: \"".to_owned();
                stderr.append(argument_of(command).as_str());
                stderr.append("\": ");
                stderr.append(e.as_str());
                CommandResult {
                    command: command.to_owned(),
                    stdout: String::new(),
                    stderr,
                    exit_code: 1,
                    current_directory: cwd.to_owned(),
                }
            },
        }
    }

    /// The result of a command that did not run to its end.
    fn failed(command: &str, directory: &str, reason: String) -> (r: CommandResult)
        ensures
            r@ == failure(command@, directory@, reason@),
    {
        CommandResult {
            command: command.to_owned(),
            stdout: String::new(),
            stderr: reason,
            exit_code: -1,
            current_directory: directory.to_owned(),
        }
    }

    /// The result of the command `command`, run in `directory`, that went as
    /// `outcome` says.
    pub fn of_outcome(command: &str, directory: &str, outcome: Outcome, timeout_secs: u64) -> (r:
        CommandResult)
        ensures
            r@ == run_result(command@, directory@, outcome@, timeout_secs),
    {
        match outcome {
            Outcome::Exited { code, stdout, stderr } => CommandResult {
                command: command.to_owned(),
                stdout: trim(stdout.as_str()),
                stderr: trim(stderr.as_str()),
                exit_code: match code {
                    Some(c) => c,
                    None => -1,
                },
                current_directory: directory.to_owned(),
            },
            Outcome::OutputLost(e) => {
                let mut reason = "Failed to read command output: ".to_owned();
                reason.append(e.as_str());
                CommandResult::failed(command, directory, reason)
            },
            Outcome::TimedOut => {
                let mut reason = "Command timed out after ".to_owned();
                push_digits(&mut reason, timeout_secs);
                reason.append(" seconds");
                CommandResult::failed(command, directory, reason)
            },
            Outcome::WaitFailed(e) => {
                let mut reason = "Process wait error: ".to_owned();
                reason.append(e.as_str());
                CommandResult::failed(command, directory, reason)
            },
            Outcome::SpawnFailed(e) => {
                let mut reason = "Failed to execute command: ".to_owned();
                reason.append(e.as_str());
                CommandResult::failed(command, directory, reason)
            },
        }
    }
}

/// `cd .` asks for the directory that the session is in. Where that
/// directory resolves to itself or not at all, the session stays in it, and
/// the result names it.
pub proof fn law_cd_dot_stays(
    cwd: Seq<char>,
    command: Seq<char>,
    home: Seq<char>,
    windows: bool,
    timeout_secs: u64,
    resolution: Result<Seq<char>, Seq<char>>,
)
    requires
        is_cd(command),
        cd_argument(command) == seq!['.'],
        resolution is Ok ==> resolution->Ok_0 == cwd,
    ensures
        planned(cwd, command, home, windows, timeout_secs) == (TaskView::Resolve {
            command: command,
            target: cwd,
        }),
        directory_after(cwd, resolution) == cwd,
        cd_result(command, cwd, resolution).current_directory == cwd,
{
}

/// `cd ..` asks for the parent of the directory that the session is in, and
/// for that directory itself where it has no parent, as a root has none.
/// Where the path asked for resolves to itself, the session is there
/// afterwards, and the result names it.
pub proof fn law_cd_up_goes_to_parent(
    cwd: Seq<char>,
    command: Seq<char>,
    home: Seq<char>,
    windows: bool,
    timeout_secs: u64,
)
    requires
        is_cd(command),
        cd_argument(command) == seq!['.', '.'],
    ensures
        ({
            let target = match parent_path(cwd, windows) {
                Some(parent) => parent,
                None => cwd,
            };
            &&& planned(cwd, command, home, windows, timeout_secs) == (TaskView::Resolve {
                command: command,
                target: target,
            })
            &&& directory_after(cwd, Ok(target)) == target
            &&& cd_result(command, cwd, Ok(target)).current_directory == target
            &&& cwd.len() > 0 && is_separator(cwd.last(), windows) ==> target == cwd
        }),
{
    assert(seq!['.', '.'] != seq!['.']) by {
        assert(seq!['.', '.'].len() == 2);
        assert(seq!['.'].len() == 1);
    }
}

/// `cd` without an argument asks for the home directory, whether it stands
/// alone or is followed by white space only. Where the home directory
/// resolves to itself, the session is there afterwards, and the result names
/// it.
pub proof fn law_cd_alone_goes_home(
    cwd: Seq<char>,
    command: Seq<char>,
    home: Seq<char>,
    windows: bool,
    timeout_secs: u64,
)
    requires
        is_cd(command),
        cd_argument(command).len() == 0,
    ensures
        planned(cwd, command, home, windows, timeout_secs) == (TaskView::Resolve {
            command: command,
            target: home,
        }),
        directory_after(cwd, Ok(home)) == home,
        cd_result(command, cwd, Ok(home)).current_directory == home,
        cd_result(command, cwd, Ok(home)).exit_code == 0,
        cd_result(command, cwd, Ok(home)).stdout.len() == 0,
        cd_result(command, cwd, Ok(home)).stderr.len() == 0,
{
}

/// The command `cd` alone is a `cd` without an argument, and so is `cd`
/// followed by a space.
pub proof fn law_cd_alone_has_no_argument()
    ensures
        is_cd("cd"@),
        cd_argument("cd"@).len() == 0,
        is_cd("cd "@),
        cd_argument("cd "@).len() == 0,
{
    reveal_strlit("cd");
    reveal_strlit("cd ");
    assert("cd "@.subrange(0, 3) =~= "cd "@);
    assert("cd "@.skip(3) =~= Seq::<char>::empty());
}

/// The commands `cd .` and `cd ..` are what the two laws above speak of.
pub proof fn law_dot_commands_change_directory()
    ensures
        is_cd("cd ."@),
        cd_argument("cd ."@) == seq!['.'],
        is_cd("cd .."@),
        cd_argument("cd .."@) == seq!['.', '.'],
{
    reveal_strlit("cd ");
    reveal_strlit("cd .");
    reveal_strlit("cd ..");
    let one = "cd ."@;
    let two = "cd .."@;
    assert(one.subrange(0, 3) =~= "cd "@);
    assert(two.subrange(0, 3) =~= "cd "@);
    assert(one.skip(3) =~= seq!['.']);
    assert(two.skip(3) =~= seq!['.', '.']);
    lemma_skip_space(seq!['.'], 0);
    lemma_drop_space(seq!['.'], 1);
    lemma_skip_space(seq!['.', '.'], 0);
    lemma_drop_space(seq!['.', '.'], 2);
    assert(seq!['.'].subrange(0, 1) =~= seq!['.']);
    assert(seq!['.', '.'].subrange(0, 2) =~= seq!['.', '.']);
}

/// A shell session of its own: the directory that its commands run in.
#[derive(Clone, Debug, PartialEq, Eq)]
pub struct CD {
    pub curr_dir: String,
}

impl CD {
    /// A shell session that starts in `start`.
    pub fn new(start: String) -> (r: CD)
        ensures
            r.curr_dir@ == start@,
    {
        CD { curr_dir: start }
    }

    /// What the command `input` needs from outside. The session is as it was
    /// until `resolved` or `finished` is told how that went.
    pub fn cd(&self, input: &str, host: &Host) -> (task: Task)
        ensures
            task@ == planned(
                self.curr_dir@,
                input@,
                host.home@,
                host.windows,
                host.timeout_secs,
            ),
    {
        plan(self.curr_dir.as_str(), input, host)
    }

    /// Ends the `cd` command `input`, whose path resolved as `resolution`
    /// says: the session moves to the canonical path if there is one, and
    /// stays where it is if not.
    pub fn resolved(&mut self, input: &str, resolution: Resolution) -> (r: CommandResult)
        ensures
            r@ == cd_result(input@, old(self).curr_dir@, resolution_view(resolution)),
            final(self).curr_dir@ == directory_after(
                old(self).curr_dir@,
                resolution_view(resolution),
            ),
    {
        let r = CommandResult::of_resolution(input, self.curr_dir.as_str(), resolution);
        if r.exit_code == 0 {
            self.curr_dir = r.current_directory.clone();
        }
        r
    }

    /// Ends the command `input`, which went as `outcome` says. The session
    /// stays where it is.
    pub fn finished(&self, input: &str, outcome: Outcome, host: &Host) -> (r: CommandResult)
        ensures
            r@ == run_result(input@, self.curr_dir@, outcome@, host.timeout_secs),
    {
        CommandResult::of_outcome(input, self.curr_dir.as_str(), outcome, host.timeout_secs)
    }
}

} // verus!
