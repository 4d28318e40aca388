use vstd::prelude::*;
use vstd::string::*;

use crate::errors::NurError;
use crate::names::{
    NUR_CONFIG_CONFIG_FILENAME, NUR_CONFIG_DIR, NUR_CONFIG_ENV_FILENAME, NUR_CONFIG_LIB_PATH,
    NUR_FILE, NUR_FILE_DOT_NU, NUR_LOCAL_FILE, NUR_LOCAL_FILE_DOT_NU,
};
use crate::path::{
    ancestor, candidate_files, find_nurfile, find_project_path, joined, nurfile_answered,
    nurfile_found, opt_view, path_join, project_answered, project_found,
};
use crate::text::{ends_with, prefix_chars, str_ends_with, views};

verus! {

/// The value of an option as nur's logic reads it: a string, nothing
/// (`null`), or a value of any other kind.
#[derive(Clone, Debug)]
pub enum ArgValue {
    Str(String),
    Nothing,
    Other,
}

/// The options of a nur call, as parsed from its command line.
#[derive(Clone, Debug)]
pub struct NurArgs {
    pub list_tasks: bool,
    pub quiet_execution: bool,
    pub attach_stdin: bool,
    pub show_help: bool,
    /// The commands given with `--commands`/`-c`.
    pub run_commands: Option<String>,
    pub enter_shell: bool,
    /// The value given with `--dotenv`.
    pub dotenv: Option<ArgValue>,
    /// The value given with `--nurfile`.
    pub nurfile_name: Option<ArgValue>,
    pub debug_output: bool,
}

/// The names under which the task file and the local task file are looked for.
#[derive(Clone, Debug)]
pub struct NurfileNames {
    pub names: Vec<String>,
    pub local_names: Vec<String>,
}

/// The name of the local task file that belongs to the task file `name`:
/// `x.nu` has `x.local.nu`, any other `x` has `x.local`.
pub open spec fn local_name_of(name: Seq<char>) -> Seq<char> {
    if ends_with(name, ".nu"@) {
        name.subrange(0, name.len() - 3) + ".local.nu"@
    } else {
        name + ".local"@
    }
}

/// The task file names looked for when `--nurfile` is not given.
pub open spec fn default_names() -> Seq<Seq<char>> {
    seq![NUR_FILE@, NUR_FILE_DOT_NU@]
}

/// The local task file names looked for when `--nurfile` is not given.
pub open spec fn default_local_names() -> Seq<Seq<char>> {
    seq![NUR_LOCAL_FILE@, NUR_LOCAL_FILE_DOT_NU@]
}

/// The `--nurfile` value is given and is not a string.
pub open spec fn invalid_nurfile_option(nurfile_name: Option<ArgValue>) -> bool {
    nurfile_name matches Some(v) && !(v is Str)
}

/// The task file names looked for with the `--nurfile` value `nurfile_name`.
pub open spec fn names_for(nurfile_name: Option<ArgValue>) -> Seq<Seq<char>> {
    match nurfile_name {
        Some(ArgValue::Str(n)) => seq![n@],
        _ => default_names(),
    }
}

/// The local task file names looked for with the `--nurfile` value `nurfile_name`.
pub open spec fn local_names_for(nurfile_name: Option<ArgValue>) -> Seq<Seq<char>> {
    match nurfile_name {
        Some(ArgValue::Str(n)) => seq![local_name_of(n@)],
        _ => default_local_names(),
    }
}

/// The name of the local task file that belongs to the task file `name`.
pub fn local_nurfile_name(name: &str) -> (r: String)
    ensures
        r@ == local_name_of(name@),
{
    proof {
        reveal_strlit(".nu");
    }
    if str_ends_with(name, ".nu") {
        let base = prefix_chars(name, name.unicode_len() - 3);
        base.concat(".local.nu")
    } else {
        String::from_str(name).concat(".local")
    }
}

/// The task file names and local task file names for the `--nurfile` value
/// `nurfile_name`: the defaults when it is absent, the given name and its
/// local name when it is a string, and `InvalidNurfile` otherwise.
pub fn nurfile_names(nurfile_name: &Option<ArgValue>) -> (r: Result<NurfileNames, NurError>)
    ensures
        r is Err <==> invalid_nurfile_option(*nurfile_name),
        r matches Err(e) ==> e is InvalidNurfile,
        r matches Ok(n) ==> views(n.names@) == names_for(*nurfile_name) && views(n.local_names@)
            == local_names_for(*nurfile_name),
{
    match nurfile_name {
        None => {
            let names = vec![String::from_str(NUR_FILE), String::from_str(NUR_FILE_DOT_NU)];
            let local_names = vec![
                String::from_str(NUR_LOCAL_FILE),
                String::from_str(NUR_LOCAL_FILE_DOT_NU),
            ];
            assert(views(names@) =~= default_names());
            assert(views(local_names@) =~= default_local_names());
            Ok(NurfileNames { names, local_names })
        },
        Some(ArgValue::Str(name)) => {
            let names = vec![name.clone()];
            let local_names = vec![local_nurfile_name(name.as_str())];
            assert(views(names@) =~= seq![name@]);
            assert(views(local_names@) =~= seq![local_name_of(name@)]);
            Ok(NurfileNames { names, local_names })
        },
        Some(_) => Err(NurError::InvalidNurfile()),
    }
}

/// The project directory of a call: the found project, or the directory the
/// call was made in when none was found.
pub open spec fn project_or_run(run_path: Seq<char>, found: Option<Seq<char>>) -> Seq<char> {
    match found {
        Some(p) => p,
        None => run_path,
    }
}

/// The project directory of a call: the found project, or `run_path` when
/// none was found.
pub fn project_or_run_path(run_path: &String, found: &Option<String>) -> (r: String)
    ensures
        r@ == project_or_run(run_path@, opt_view(*found)),
{
    match found {
        Some(p) => p.clone(),
        None => run_path.clone(),
    }
}

/// Everything nur knows of a call before it loads the project's tasks.
#[derive(Clone, Debug)]
pub struct NurState {
    pub run_path: String,
    pub has_project_path: bool,
    pub project_path: String,
    pub config_dir: String,
    pub lib_dir_path: String,
    pub env_path: String,
    pub config_path: String,
    pub nurfile_path: Option<String>,
    pub local_nurfile_path: Option<String>,
    pub nur_args: NurArgs,
    pub has_task_call: bool,
    pub task_call: Vec<String>,
    /// The full name of the called task, such as `nur some-task`, once known.
    pub task_name: Option<String>,
}

impl NurState {
    /// The configuration paths lie where they belong: `.nur` in the project,
    /// and the scripts directory, `env.nu` and `config.nu` in `.nur`.
    pub open spec fn paths_wf(&self) -> bool {
        &&& self.config_dir@ == joined(self.project_path@, NUR_CONFIG_DIR@)
        &&& self.lib_dir_path@ == joined(self.config_dir@, NUR_CONFIG_LIB_PATH@)
        &&& self.env_path@ == joined(self.config_dir@, NUR_CONFIG_ENV_FILENAME@)
        &&& self.config_path@ == joined(self.config_dir@, NUR_CONFIG_CONFIG_FILENAME@)
    }

    /// The project that the search found, if any.
    pub open spec fn found_project(&self) -> Option<Seq<char>> {
        if self.has_project_path {
            Some(self.project_path@)
        } else {
            None
        }
    }

    /// The state of a call once its searches are done: the project is the
    /// found one or, without one, `run_path`; the configuration paths lie in
    /// the project; the task files are the ones the searches found.
    pub fn assemble(
        run_path: String,
        found_project_path: Option<String>,
        nurfile_path: Option<String>,
        local_nurfile_path: Option<String>,
        nur_args: NurArgs,
        has_task_call: bool,
        task_call: Vec<String>,
    ) -> (s: NurState)
        ensures
            s.paths_wf(),
            s.run_path == run_path,
            s.has_project_path == found_project_path is Some,
            s.project_path@ == project_or_run(run_path@, opt_view(found_project_path)),
            s.found_project() == opt_view(found_project_path),
            s.nurfile_path == nurfile_path,
            s.local_nurfile_path == local_nurfile_path,
            s.nur_args == nur_args,
            s.has_task_call == has_task_call,
            s.task_call == task_call,
            s.task_name is None,
    {
        let has_project_path = found_project_path.is_some();
        let project_path = project_or_run_path(&run_path, &found_project_path);
        let config_dir = path_join(project_path.as_str(), NUR_CONFIG_DIR);
        let lib_dir_path = path_join(config_dir.as_str(), NUR_CONFIG_LIB_PATH);
        let env_path = path_join(config_dir.as_str(), NUR_CONFIG_ENV_FILENAME);
        let config_path = path_join(config_dir.as_str(), NUR_CONFIG_CONFIG_FILENAME);
        NurState {
            run_path,
            has_project_path,
            project_path,
            config_dir,
            lib_dir_path,
            env_path,
            config_path,
            nurfile_path,
            local_nurfile_path,
            nur_args,
            has_task_call,
            task_call,
            task_name: None,
        }
    }

    /// The state of a call made in `run_path` with the options `nur_args` and
    /// the task call `task_call`.
    ///
    /// Fails with `InvalidNurfile` exactly when `--nurfile` was given a value
    /// that is not a string. Otherwise the project is the nearest directory,
    /// from `run_path` upwards, that holds a task file; without one it is
    /// `run_path` itself. Which files exist depends on the disk, so the
    /// contract states the project and the task files for the replies that
    /// `path_exists` gave (`project_found`, `nurfile_found`,
    /// `project_answered`, `nurfile_answered`): the first directory of the
    /// ancestor chain with a candidate answered "exists", and, for the task
    /// file and the local task file, the first candidate of the project
    /// answered "exists", or none when each was answered "does not exist";
    /// while the disk does not change, these are the disk's nearest project
    /// and first task files.
    pub fn new(run_path: String, nur_args: NurArgs, has_task_call: bool, task_call: Vec<String>) -> (r: Result<NurState, NurError>)
        ensures
            r is Err <==> invalid_nurfile_option(nur_args.nurfile_name),
            r matches Err(e) ==> e is InvalidNurfile,
            r matches Ok(s) ==> {
                &&& s.paths_wf()
                &&& s.run_path@ == run_path@
                &&& project_found(run_path@, names_for(nur_args.nurfile_name), s.found_project())
                &&& s.project_path@ == project_or_run(run_path@, s.found_project())
                &&& nurfile_found(
                    s.project_path@,
                    names_for(nur_args.nurfile_name),
                    opt_view(s.nurfile_path),
                )
                &&& nurfile_found(
                    s.project_path@,
                    local_names_for(nur_args.nurfile_name),
                    opt_view(s.local_nurfile_path),
                )
                &&& project_answered(run_path@, names_for(nur_args.nurfile_name), s.found_project())
                &&& nurfile_answered(
                    s.project_path@,
                    names_for(nur_args.nurfile_name),
                    opt_view(s.nurfile_path),
                )
                &&& nurfile_answered(
                    s.project_path@,
                    local_names_for(nur_args.nurfile_name),
                    opt_view(s.local_nurfile_path),
                )
                &&& s.has_project_path ==> exists|k: nat| ancestor(run_path@, k) == Some(s.project_path@)
                &&& s.nurfile_path matches Some(f) ==> candidate_files(
                    s.project_path@,
                    names_for(nur_args.nurfile_name),
                ).contains(f@)
                &&& s.local_nurfile_path matches Some(f) ==> candidate_files(
                    s.project_path@,
                    local_names_for(nur_args.nurfile_name),
                ).contains(f@)
                &&& s.nur_args == nur_args
                &&& s.has_task_call == has_task_call
                &&& s.task_call == task_call
                &&& s.task_name is None
            },
    {
        let names = match nurfile_names(&nur_args.nurfile_name) {
            Ok(n) => n,
            Err(e) => {
                return Err(e);
            },
        };
        let found_project_path = find_project_path(run_path.as_str(), &names.names);
        let project_path = project_or_run_path(&run_path, &found_project_path);
        let nurfile_path = find_nurfile(project_path.as_str(), &names.names);
        let local_nurfile_path = find_nurfile(project_path.as_str(), &names.local_names);
        Ok(
            NurState::assemble(
                run_path,
                found_project_path,
                nurfile_path,
                local_nurfile_path,
                nur_args,
                has_task_call,
                task_call,
            ),
        )
    }
}

/// The local task file names are always named after the task file names by
/// the local naming rule, for the defaults as for a `--nurfile` name.
pub proof fn lemma_local_names_follow_names(nurfile_name: Option<ArgValue>)
    requires
        !invalid_nurfile_option(nurfile_name),
    ensures
        local_names_for(nurfile_name) == names_for(nurfile_name).map_values(
            |n: Seq<char>| local_name_of(n),
        ),
{
    reveal_strlit("nurfile");
    reveal_strlit("nurfile.nu");
    reveal_strlit("nurfile.local");
    reveal_strlit("nurfile.local.nu");
    reveal_strlit(".nu");
    reveal_strlit(".local");
    reveal_strlit(".local.nu");
    let f = NUR_FILE@;
    let g = NUR_FILE_DOT_NU@;
    assert(!ends_with(f, ".nu"@)) by {
        assert(f.subrange(4, 7)[0] == 'i');
    }
    assert(local_name_of(f) =~= NUR_LOCAL_FILE@);
    assert(ends_with(g, ".nu"@)) by {
        assert(g.subrange(7, 10) =~= ".nu"@);
    }
    assert(local_name_of(g) =~= NUR_LOCAL_FILE_DOT_NU@);
    assert(local_names_for(nurfile_name) =~= names_for(nurfile_name).map_values(
        |n: Seq<char>| local_name_of(n),
    ));
}

/// A local task file name is six characters longer than the task file name
/// it belongs to, so it never names the task file itself, and it keeps the
/// `.nu` extension exactly when the task file name has it.
pub proof fn lemma_local_name_shape(name: Seq<char>)
    ensures
        local_name_of(name).len() == name.len() + 6,
        local_name_of(name) != name,
        ends_with(local_name_of(name), ".nu"@) == ends_with(name, ".nu"@),
{
    reveal_strlit(".nu");
    reveal_strlit(".local");
    reveal_strlit(".local.nu");
    let l = local_name_of(name);
    if ends_with(name, ".nu"@) {
        assert(l.subrange(l.len() - 3, l.len() as int) =~= ".nu"@);
    } else {
        assert(l.subrange(l.len() - 3, l.len() as int)[0] == 'c');
    }
}

} // verus!
