use vstd::prelude::*;
use vstd::string::*;

use crate::disk::{replied_exists, replied_is_dir};
use crate::errors::NurError;
use crate::names::{NUR_DOTENV_FILE, NUR_FILE};
use crate::path::{joined, path_exists, path_is_dir, path_join};
use crate::state::{ArgValue, NurState};
use crate::text::{decimal, decimal_text, join_with, joined_with, views};

verus! {

/// What a call does about its project before anything is loaded.
#[derive(Clone, Debug)]
pub enum ProjectCheck {
    /// A project was found: go on.
    Proceed,
    /// No project, but help was asked for: show the general help.
    ShowHelp,
    /// No project: fail.
    Fail(NurError),
}

/// The task file name that a failed search reports: the `--nurfile` value
/// when it is a string, the default name otherwise.
pub open spec fn searched_nurfile(nurfile_name: Option<ArgValue>) -> Seq<char> {
    match nurfile_name {
        Some(ArgValue::Str(n)) => n@,
        _ => NUR_FILE@,
    }
}

/// Without a project a call may only show the general help; otherwise it
/// fails with `NurfileNotFound`, naming the task file it looked for.
pub fn check_project(state: &NurState) -> (r: ProjectCheck)
    ensures
        state.has_project_path ==> r is Proceed,
        !state.has_project_path && state.nur_args.show_help ==> r is ShowHelp,
        !state.has_project_path && !state.nur_args.show_help ==> (r matches ProjectCheck::Fail(
            NurError::NurfileNotFound(n),
        ) && n@ == searched_nurfile(state.nur_args.nurfile_name)),
{
    if state.has_project_path {
        ProjectCheck::Proceed
    } else if state.nur_args.show_help {
        ProjectCheck::ShowHelp
    } else {
        match &state.nur_args.nurfile_name {
            Some(ArgValue::Str(name)) => ProjectCheck::Fail(NurError::NurfileNotFound(name.clone())),
            _ => ProjectCheck::Fail(NurError::NurfileNotFound(String::from_str(NUR_FILE))),
        }
    }
}

/// Which dotenv file a call loads, from its `--dotenv` option.
#[derive(Clone, Debug)]
pub enum DotenvPlan {
    /// No option: the project's `.env`, when it is there (its path).
    Default(String),
    /// A file was named: its path in the project, and the name as given.
    Given(String, String),
    /// `--dotenv null`: no dotenv file.
    Skip,
    /// The option is neither a file name nor `null`.
    Invalid,
}

/// The dotenv file of a call, from its `--dotenv` option: the project's
/// `.env` without the option, the named file (relative to the project) with
/// a string, none with `null`, and `Invalid` with any other value.
pub fn dotenv_plan(state: &NurState) -> (r: DotenvPlan)
    ensures
        match state.nur_args.dotenv {
            None => r matches DotenvPlan::Default(p) && p@ == joined(
                state.project_path@,
                NUR_DOTENV_FILE@,
            ),
            Some(ArgValue::Str(v)) => r matches DotenvPlan::Given(p, g) && p@ == joined(
                state.project_path@,
                v@,
            ) && g@ == v@,
            Some(ArgValue::Nothing) => r is Skip,
            Some(ArgValue::Other) => r is Invalid,
        },
{
    match &state.nur_args.dotenv {
        None => DotenvPlan::Default(path_join(state.project_path.as_str(), NUR_DOTENV_FILE)),
        Some(ArgValue::Str(v)) => DotenvPlan::Given(
            path_join(state.project_path.as_str(), v.as_str()),
            v.clone(),
        ),
        Some(ArgValue::Nothing) => DotenvPlan::Skip,
        Some(ArgValue::Other) => DotenvPlan::Invalid,
    }
}

/// What a call does about its dotenv file.
#[derive(Clone, Debug)]
pub enum DotenvAction {
    /// Load the file at this path.
    Load(String),
    /// Load nothing.
    Skip,
    /// Fail.
    Fail(NurError),
    /// Fail: `--dotenv` must either be null or a file path.
    Reject,
}

/// What to do with the dotenv plan `plan`, where `exists` and `is_dir` say
/// what is on disk at the planned path: the default `.env` is loaded only
/// when it is there and is no directory; a named file must be there and must
/// not be a directory, else the call fails with `DotenvFileError`.
pub fn decide_dotenv(plan: &DotenvPlan, exists: bool, is_dir: bool) -> (r: DotenvAction)
    ensures
        match *plan {
            DotenvPlan::Default(p) => if exists && !is_dir {
                r matches DotenvAction::Load(q) && q@ == p@
            } else {
                r is Skip
            },
            DotenvPlan::Given(p, g) => if !exists {
                r matches DotenvAction::Fail(NurError::DotenvFileError(f, why)) && f@ == g@
                    && why@ == "dotenv file does not exist"@
            } else if is_dir {
                r matches DotenvAction::Fail(NurError::DotenvFileError(f, why)) && f@ == g@
                    && why@ == "dotenv file is actually a directory"@
            } else {
                r matches DotenvAction::Load(q) && q@ == p@
            },
            DotenvPlan::Skip => r is Skip,
            DotenvPlan::Invalid => r is Reject,
        },
{
    match plan {
        DotenvPlan::Default(p) => {
            if exists && !is_dir {
                DotenvAction::Load(p.clone())
            } else {
                DotenvAction::Skip
            }
        },
        DotenvPlan::Given(p, g) => {
            if !exists {
                DotenvAction::Fail(
                    NurError::DotenvFileError(
                        g.clone(),
                        String::from_str("dotenv file does not exist"),
                    ),
                )
            } else if is_dir {
                DotenvAction::Fail(
                    NurError::DotenvFileError(
                        g.clone(),
                        String::from_str("dotenv file is actually a directory"),
                    ),
                )
            } else {
                DotenvAction::Load(p.clone())
            }
        },
        DotenvPlan::Skip => DotenvAction::Skip,
        DotenvPlan::Invalid => DotenvAction::Reject,
    }
}

/// The file that the dotenv plan of `state` looks at on disk: the project's
/// `.env` without `--dotenv`, the named file in the project with a string,
/// and none otherwise.
pub open spec fn dotenv_target(state: NurState) -> Option<Seq<char>> {
    match state.nur_args.dotenv {
        None => Some(joined(state.project_path@, NUR_DOTENV_FILE@)),
        Some(ArgValue::Str(v)) => Some(joined(state.project_path@, v@)),
        _ => None,
    }
}

/// `r` is the dotenv action of `state` when the target file exists on disk
/// exactly when `exists` says so, and is a directory exactly when `is_dir`
/// says so.
pub open spec fn dotenv_outcome(state: NurState, exists: bool, is_dir: bool, r: DotenvAction) -> bool {
    match state.nur_args.dotenv {
        None => if exists && !is_dir {
            r matches DotenvAction::Load(q) && q@ == joined(state.project_path@, NUR_DOTENV_FILE@)
        } else {
            r is Skip
        },
        Some(ArgValue::Str(v)) => if !exists {
            r matches DotenvAction::Fail(NurError::DotenvFileError(f, why)) && f@ == v@ && why@
                == "dotenv file does not exist"@
        } else if is_dir {
            r matches DotenvAction::Fail(NurError::DotenvFileError(f, why)) && f@ == v@ && why@
                == "dotenv file is actually a directory"@
        } else {
            r matches DotenvAction::Load(q) && q@ == joined(state.project_path@, v@)
        },
        Some(ArgValue::Nothing) => r is Skip,
        Some(ArgValue::Other) => r is Reject,
    }
}

/// `r` is the dotenv action of `state` for what the disk answered about the
/// target file: whether it exists, from `path_exists`, and, where it does,
/// whether it is a directory, from `path_is_dir`.
pub open spec fn dotenv_answered(state: NurState, r: DotenvAction) -> bool {
    match dotenv_target(state) {
        Some(p) => exists|exists: bool, is_dir: bool|
            {
                &&& replied_exists(p, exists)
                &&& exists ==> replied_is_dir(p, is_dir)
                &&& is_dir ==> exists
                &&& #[trigger] dotenv_outcome(state, exists, is_dir, r)
            },
        None => dotenv_outcome(state, false, false, r),
    }
}

/// What a call does about its dotenv file, looking on disk for the planned
/// file. What is on disk changes, so the contract states the action for the
/// answers the disk gave (`dotenv_answered`): the default `.env` is loaded
/// when it is there and is no directory, and skipped otherwise; a named file
/// is loaded when it is there and is no directory, and otherwise fails the
/// call, as missing or as a directory.
pub fn dotenv_action(state: &NurState) -> (r: DotenvAction)
    ensures
        dotenv_answered(*state, r),
        match state.nur_args.dotenv {
            None => r is Skip || (r matches DotenvAction::Load(p) && p@ == joined(
                state.project_path@,
                NUR_DOTENV_FILE@,
            )),
            Some(ArgValue::Str(v)) => (r matches DotenvAction::Load(p) && p@ == joined(
                state.project_path@,
                v@,
            )) || (r matches DotenvAction::Fail(NurError::DotenvFileError(f, why)) && f@ == v@
                && (why@ == "dotenv file does not exist"@ || why@
                == "dotenv file is actually a directory"@)),
            Some(ArgValue::Nothing) => r is Skip,
            Some(ArgValue::Other) => r is Reject,
        },
{
    let plan = dotenv_plan(state);
    match &plan {
        DotenvPlan::Default(p) => {
            let exists = path_exists(p.as_str());
            let is_dir = exists && path_is_dir(p.as_str());
            let r = decide_dotenv(&plan, exists, is_dir);
            proof {
                assert(dotenv_outcome(*state, exists, is_dir, r));
                assert(replied_exists(p@, exists));
            }
            r
        },
        DotenvPlan::Given(p, _) => {
            let exists = path_exists(p.as_str());
            let is_dir = exists && path_is_dir(p.as_str());
            let r = decide_dotenv(&plan, exists, is_dir);
            proof {
                assert(dotenv_outcome(*state, exists, is_dir, r));
                assert(replied_exists(p@, exists));
            }
            r
        },
        _ => decide_dotenv(&plan, false, false),
    }
}

/// A dotenv file is loaded only where `path_exists` answered that it exists
/// and `path_is_dir` that it is no directory. A named file is reported
/// missing only where `path_exists` answered that it does not exist, and
/// reported a directory only where `path_exists` answered that it exists and
/// `path_is_dir` that it is a directory. The default `.env` is skipped only
/// where it was answered missing or a directory.
pub proof fn lemma_dotenv_follows_answers(state: NurState, r: DotenvAction)
    requires
        dotenv_answered(state, r),
    ensures
        r matches DotenvAction::Load(q) ==> dotenv_target(state) == Some(q@) && replied_exists(
            q@,
            true,
        ) && replied_is_dir(q@, false),
        state.nur_args.dotenv matches Some(ArgValue::Str(v)) ==> {
            let p = joined(state.project_path@, v@);
            &&& (r matches DotenvAction::Fail(NurError::DotenvFileError(_, why)) && why@
                == "dotenv file does not exist"@) ==> replied_exists(p, false)
            &&& (r matches DotenvAction::Fail(NurError::DotenvFileError(_, why)) && why@
                == "dotenv file is actually a directory"@) ==> replied_exists(p, true)
                && replied_is_dir(p, true)
            &&& !(r is Load) ==> r is Fail
        },
        state.nur_args.dotenv is None && r is Skip ==> {
            let p = joined(state.project_path@, NUR_DOTENV_FILE@);
            replied_exists(p, false) || (replied_exists(p, true) && replied_is_dir(p, true))
        },
{
    reveal_strlit("dotenv file does not exist");
    reveal_strlit("dotenv file is actually a directory");
    if let Some(p) = dotenv_target(state) {
        let (e, d) = choose|exists: bool, is_dir: bool|
            {
                &&& replied_exists(p, exists)
                &&& exists ==> replied_is_dir(p, is_dir)
                &&& is_dir ==> exists
                &&& #[trigger] dotenv_outcome(state, exists, is_dir, r)
            };
        assert("dotenv file does not exist"@ != "dotenv file is actually a directory"@) by {
            assert("dotenv file does not exist"@.len() != "dotenv file is actually a directory"@.len());
        }
        if e {
            assert(replied_exists(p, true));
        } else {
            assert(replied_exists(p, false));
        }
    }
}

/// How a planned run is carried out.
#[derive(Clone, Copy, Debug, PartialEq, Eq)]
pub enum RunMode {
    /// Enter the interactive shell.
    Shell,
    /// Run without printing anything of nur's own.
    Quiet,
    /// Run, and say what runs and how it ended.
    Verbose,
}

/// What a call does once its project is loaded.
#[derive(Clone, Debug)]
pub enum RunPlan {
    /// List the project's tasks, names only when quiet.
    ListTasks { quiet: bool },
    /// Show the general help and exit with this code.
    GeneralHelp { exit_code: u8 },
    /// Show the help of the called task and exit.
    TaskHelp,
    /// Fail.
    Fail(NurError),
    /// Run this nushell command line.
    Execute { mode: RunMode, command: String },
}

/// The task call as one command line: its words joined by spaces.
pub open spec fn task_command(task_call: Seq<String>) -> Seq<char> {
    joined_with(views(task_call), " "@)
}

/// The command line of a task call of one word is that word, and a task call
/// of one word more is the command line of the words before it, a space and
/// the new word: every word of the call is kept, in order.
pub proof fn lemma_task_command_words(words: Seq<String>, word: String)
    ensures
        task_command(seq![word]) == word@,
        words.len() > 0 ==> task_command(words.push(word)) == task_command(words) + " "@ + word@,
{
    assert(views(seq![word]) =~= seq![word@]);
    assert(views(words.push(word)) =~= views(words).push(word@));
    crate::text::lemma_joined_with_pieces(views(words), " "@, word@);
}

/// The command line a call runs: the `--commands` text when given, else the
/// task call.
pub open spec fn command_of(state: NurState) -> Seq<char> {
    match state.nur_args.run_commands {
        Some(c) => c@,
        None => task_command(state.task_call@),
    }
}

/// The call asks for nothing to run: no task, no commands, no shell.
pub open spec fn nothing_to_run(state: NurState) -> bool {
    !state.has_task_call && state.nur_args.run_commands is None && !state.nur_args.enter_shell
}

/// The call asks for exactly one of a task, commands and the shell.
pub open spec fn one_target(state: NurState) -> bool {
    let task = state.has_task_call;
    let commands = state.nur_args.run_commands is Some;
    let shell = state.nur_args.enter_shell;
    ||| task && !commands && !shell
    ||| !task && commands && !shell
    ||| !task && !commands && shell
}

/// The command line that a call runs: the `--commands` text when given,
/// else the words of the task call joined by spaces.
pub fn run_command(state: &NurState) -> (r: String)
    ensures
        r@ == command_of(*state),
{
    match &state.nur_args.run_commands {
        Some(c) => c.clone(),
        None => join_with(&state.task_call, " "),
    }
}

/// Decides what a call with a loaded project does. `task_defined` says
/// whether the project defines the called task.
///
/// In order: listing tasks wins; a call with nothing to run shows the general
/// help (exit 0 when help was asked for, 1 otherwise); help for a task call
/// shows that task's help, or fails with `TaskNotFound` when it is not
/// defined, and help for anything else is the general help; a task call
/// cannot be combined with `--commands` or `--enter-shell`, nor these two
/// with each other (`InvalidNurCall`); a task call whose task was not found
/// fails with `TaskNotFound`; otherwise the command runs, in the shell when
/// asked for, quietly when asked for, and verbosely otherwise.
pub fn plan_run(state: &NurState, task_defined: bool) -> (r: RunPlan)
    ensures
        r is Execute ==> one_target(*state) && !state.nur_args.show_help,
        r is Execute && state.has_task_call ==> state.task_name is Some,
        state.nur_args.list_tasks ==> (r matches RunPlan::ListTasks { quiet } && quiet
            == state.nur_args.quiet_execution),
        !state.nur_args.list_tasks && nothing_to_run(*state) ==> (r matches RunPlan::GeneralHelp {
            exit_code,
        } && exit_code == (if state.nur_args.show_help {
            0u8
        } else {
            1u8
        })),
        !state.nur_args.list_tasks && !nothing_to_run(*state) && state.nur_args.show_help ==> {
            if !state.has_task_call {
                r matches RunPlan::GeneralHelp { exit_code } && exit_code == 0
            } else if task_defined {
                r is TaskHelp
            } else {
                r matches RunPlan::Fail(NurError::TaskNotFound(c)) && c@ == task_command(
                    state.task_call@,
                )
            }
        },
        !state.nur_args.list_tasks && !nothing_to_run(*state) && !state.nur_args.show_help ==> {
            if state.has_task_call && state.nur_args.run_commands is Some {
                r matches RunPlan::Fail(NurError::InvalidNurCall(a, b)) && a@ == "task call"@ && b@
                    == "--commands/-c"@
            } else if state.has_task_call && state.nur_args.enter_shell {
                r matches RunPlan::Fail(NurError::InvalidNurCall(a, b)) && a@ == "task call"@ && b@
                    == "--enter-shell"@
            } else if state.nur_args.run_commands is Some && state.nur_args.enter_shell {
                r matches RunPlan::Fail(NurError::InvalidNurCall(a, b)) && a@ == "--commands/-c"@
                    && b@ == "--enter-shell"@
            } else if state.has_task_call && state.task_name is None {
                r matches RunPlan::Fail(NurError::TaskNotFound(c)) && c@ == task_command(
                    state.task_call@,
                )
            } else {
                r matches RunPlan::Execute { mode, command } && command@ == command_of(*state)
                    && mode == (if state.nur_args.enter_shell {
                    RunMode::Shell
                } else if state.nur_args.quiet_execution {
                    RunMode::Quiet
                } else {
                    RunMode::Verbose
                })
            }
        },
{
    let args = &state.nur_args;
    if args.list_tasks {
        return RunPlan::ListTasks { quiet: args.quiet_execution };
    }
    if !state.has_task_call && args.run_commands.is_none() && !args.enter_shell {
        let exit_code: u8 = if args.show_help {
            0
        } else {
            1
        };
        return RunPlan::GeneralHelp { exit_code };
    }
    if args.show_help {
        if !state.has_task_call {
            return RunPlan::GeneralHelp { exit_code: 0 };
        }
        if task_defined {
            return RunPlan::TaskHelp;
        } else {
            return RunPlan::Fail(NurError::TaskNotFound(join_with(&state.task_call, " ")));
        }
    }
    if state.has_task_call && args.run_commands.is_some() {
        return RunPlan::Fail(
            NurError::InvalidNurCall(
                String::from_str("task call"),
                String::from_str("--commands/-c"),
            ),
        );
    }
    if state.has_task_call && args.enter_shell {
        return RunPlan::Fail(
            NurError::InvalidNurCall(
                String::from_str("task call"),
                String::from_str("--enter-shell"),
            ),
        );
    }
    if args.run_commands.is_some() && args.enter_shell {
        return RunPlan::Fail(
            NurError::InvalidNurCall(
                String::from_str("--commands/-c"),
                String::from_str("--enter-shell"),
            ),
        );
    }
    if state.has_task_call && state.task_name.is_none() {
        return RunPlan::Fail(NurError::TaskNotFound(join_with(&state.task_call, " ")));
    }
    let command = run_command(state);
    let mode = if args.enter_shell {
        RunMode::Shell
    } else if args.quiet_execution {
        RunMode::Quiet
    } else {
        RunMode::Verbose
    };
    RunPlan::Execute { mode, command }
}

/// A colored summary line is the plain line between the start code of its
/// color and the reset code.
pub proof fn lemma_colored_summary_wraps_plain(exit_code: int)
    ensures
        summary_line(exit_code, true) == ansi_prefix(summary_color(exit_code)) + summary_line(
            exit_code,
            false,
        ) + ansi_suffix(),
{
}

/// What nur, run as a nushell plugin, does once its project is loaded.
#[derive(Clone, Debug)]
pub enum PluginPlan {
    /// List the project's tasks, names only when quiet.
    ListTasks { quiet: bool },
    /// Run this nushell command line.
    Execute { command: String },
}

/// Decides what a plugin call with a loaded project does: list the tasks
/// when asked to, else run its command line.
pub fn plan_plugin_run(state: &NurState) -> (r: PluginPlan)
    ensures
        state.nur_args.list_tasks ==> (r matches PluginPlan::ListTasks { quiet } && quiet
            == state.nur_args.quiet_execution),
        !state.nur_args.list_tasks ==> (r matches PluginPlan::Execute { command } && command@
            == command_of(*state)),
{
    if state.nur_args.list_tasks {
        PluginPlan::ListTasks { quiet: state.nur_args.quiet_execution }
    } else {
        PluginPlan::Execute { command: run_command(state) }
    }
}

/// The colors of the line that tells how a run ended.
#[derive(Clone, Copy, Debug, PartialEq, Eq)]
pub enum StatusColor {
    Green,
    Red,
}

/// The ANSI code that starts text in the color `c`.
pub open spec fn ansi_prefix(c: StatusColor) -> Seq<char> {
    match c {
        StatusColor::Green => seq!['\x1b', '[', '3', '2', 'm'],
        StatusColor::Red => seq!['\x1b', '[', '3', '1', 'm'],
    }
}

/// The ANSI code that ends colored text.
pub open spec fn ansi_suffix() -> Seq<char> {
    seq!['\x1b', '[', '0', 'm']
}

/// Calls `nu_ansi_term::Color::prefix` on the color and renders it with
/// `to_string`: the crate documents `"\x1b[32m"` for green, and writes
/// `"\x1b[31m"` for red (the foreground codes 32 and 31 inside `ESC [` and `m`).
#[verifier::external_body]
fn color_prefix(c: StatusColor) -> (r: String)
    ensures
        r@ == ansi_prefix(c),
{
    let color = match c {
        StatusColor::Green => nu_ansi_term::Color::Green,
        StatusColor::Red => nu_ansi_term::Color::Red,
    };
    color.prefix().to_string()
}

/// Calls `nu_ansi_term::Color::suffix` on the color and renders it with
/// `to_string`: the reset code `"\x1b[0m"`, as the crate documents for every
/// color.
#[verifier::external_body]
fn color_suffix(c: StatusColor) -> (r: String)
    ensures
        r@ == ansi_suffix(),
{
    let color = match c {
        StatusColor::Green => nu_ansi_term::Color::Green,
        StatusColor::Red => nu_ansi_term::Color::Red,
    };
    color.suffix().to_string()
}

/// The words that tell how a run with this exit code ended.
pub open spec fn summary_text(exit_code: int) -> Seq<char> {
    if exit_code == 0 {
        "Task execution successful"@
    } else {
        "Task execution failed (exit code: "@ + decimal(exit_code) + ")"@
    }
}

/// The color of the line that tells how a run with this exit code ended.
pub open spec fn summary_color(exit_code: int) -> StatusColor {
    if exit_code == 0 {
        StatusColor::Green
    } else {
        StatusColor::Red
    }
}

/// The whole line that tells how a run ended, colored when asked for.
pub open spec fn summary_line(exit_code: int, use_color: bool) -> Seq<char> {
    if use_color {
        ansi_prefix(summary_color(exit_code)) + summary_text(exit_code) + ansi_suffix()
    } else {
        summary_text(exit_code)
    }
}

/// The line that a verbose run prints at its end: success in green for exit
/// code 0, failure with the exit code in red otherwise; without color the
/// same words with no escape codes.
pub fn execution_summary(exit_code: i32, use_color: bool) -> (r: String)
    ensures
        r@ == summary_line(exit_code as int, use_color),
{
    let color = if exit_code == 0 {
        StatusColor::Green
    } else {
        StatusColor::Red
    };
    let text = if exit_code == 0 {
        String::from_str("Task execution successful")
    } else {
        let code = decimal_text(exit_code);
        String::from_str("Task execution failed (exit code: ").concat(code.as_str()).concat(")")
    };
    if use_color {
        let prefix = color_prefix(color);
        let suffix = color_suffix(color);
        prefix.concat(text.as_str()).concat(suffix.as_str())
    } else {
        text
    }
}

/// A run that exited with code 0 is reported as successful, between the
/// green code `ESC [32m` and the reset code `ESC [0m` when colored; a run with
/// any other exit code is reported as failed with that code, between the red
/// code `ESC [31m` and the reset code when colored.
pub proof fn lemma_summary_line_colors(exit_code: int)
    ensures
        exit_code == 0 ==> summary_line(exit_code, false) == "Task execution successful"@,
        exit_code != 0 ==> summary_line(exit_code, false) == "Task execution failed (exit code: "@
            + decimal(exit_code) + ")"@,
        exit_code == 0 ==> summary_line(exit_code, true) == seq!['\x1b', '[', '3', '2', 'm']
            + summary_line(exit_code, false) + seq!['\x1b', '[', '0', 'm'],
        exit_code != 0 ==> summary_line(exit_code, true) == seq!['\x1b', '[', '3', '1', 'm']
            + summary_line(exit_code, false) + seq!['\x1b', '[', '0', 'm'],
{
}

/// The line that a verbose run prints before it starts: the commands when
/// `--commands` was given, else the short name of the task.
pub open spec fn banner_line(state: NurState, short_task_name: Seq<char>) -> Seq<char> {
    match state.nur_args.run_commands {
        Some(c) => "Running command: "@ + c@,
        None => "Executing task: "@ + short_task_name,
    }
}

/// The line that a verbose run prints before it starts.
pub fn run_banner(state: &NurState, short_task_name: &str) -> (r: String)
    ensures
        r@ == banner_line(*state, short_task_name@),
{
    match &state.nur_args.run_commands {
        Some(c) => String::from_str("Running command: ").concat(c.as_str()),
        None => String::from_str("Executing task: ").concat(short_task_name),
    }
}

} // verus!
