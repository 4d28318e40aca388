use nur::errors::NurError;
use nur::names::{NUR_FILE, NUR_FILE_DOT_NU, NUR_LOCAL_FILE, NUR_LOCAL_FILE_DOT_NU};
use nur::state::{
    local_nurfile_name, nurfile_names, project_or_run_path, ArgValue, NurArgs, NurState,
};
use std::path::{Path, PathBuf};
use tempfile::{tempdir, Builder, NamedTempFile, TempDir};

fn file_in(dir: &Path, name: &str) -> NamedTempFile {
    Builder::new().prefix(name).rand_bytes(0).tempfile_in(dir).unwrap()
}

fn dir_in(dir: &Path, name: &str) -> TempDir {
    Builder::new().prefix(name).rand_bytes(0).tempdir_in(dir).unwrap()
}

fn quiet_args() -> NurArgs {
    NurArgs {
        list_tasks: false,
        quiet_execution: true,
        attach_stdin: false,
        show_help: false,
        run_commands: None,
        enter_shell: false,
        dotenv: None,
        nurfile_name: None,
        debug_output: false,
    }
}

fn task_call() -> Vec<String> {
    vec![
        String::from("nur"),
        String::from("some_task"),
        String::from("task_arg"),
    ]
}

#[test]
fn local_name_of_plain_name() {
    assert_eq!(local_nurfile_name("other-nurfile"), "other-nurfile.local");
    assert_eq!(local_nurfile_name(NUR_FILE), NUR_LOCAL_FILE);
    assert_eq!(local_nurfile_name(""), ".local");
    assert_eq!(local_nurfile_name("tasks.nux"), "tasks.nux.local");
}

#[test]
fn local_name_of_dot_nu_name() {
    assert_eq!(local_nurfile_name("tasks.nu"), "tasks.local.nu");
    assert_eq!(local_nurfile_name(NUR_FILE_DOT_NU), NUR_LOCAL_FILE_DOT_NU);
    assert_eq!(local_nurfile_name(".nu"), ".local.nu");
    assert_eq!(local_nurfile_name("a.nu.nu"), "a.nu.local.nu");
}

#[test]
fn local_name_is_six_longer_and_keeps_extension() {
    for name in ["x", "x.nu", "", "nurfile", "ünïcödé.nu", "nu"] {
        let local = local_nurfile_name(name);
        assert_eq!(local.chars().count(), name.chars().count() + 6);
        assert_ne!(local, name);
        assert_eq!(local.ends_with(".nu"), name.ends_with(".nu"));
    }
}

#[test]
fn default_nurfile_names() {
    let names = nurfile_names(&None).unwrap();
    assert_eq!(names.names, vec![String::from(NUR_FILE), String::from(NUR_FILE_DOT_NU)]);
    assert_eq!(
        names.local_names,
        vec![String::from(NUR_LOCAL_FILE), String::from(NUR_LOCAL_FILE_DOT_NU)]
    );
    for (name, local) in names.names.iter().zip(names.local_names.iter()) {
        assert_eq!(&local_nurfile_name(name), local);
    }
}

#[test]
fn given_nurfile_names() {
    let names = nurfile_names(&Some(ArgValue::Str(String::from("other-nurfile")))).unwrap();
    assert_eq!(names.names, vec![String::from("other-nurfile")]);
    assert_eq!(names.local_names, vec![String::from("other-nurfile.local")]);

    let names = nurfile_names(&Some(ArgValue::Str(String::from("tasks.nu")))).unwrap();
    assert_eq!(names.names, vec![String::from("tasks.nu")]);
    assert_eq!(names.local_names, vec![String::from("tasks.local.nu")]);
}

#[test]
fn non_string_nurfile_option_is_rejected() {
    assert!(matches!(
        nurfile_names(&Some(ArgValue::Other)),
        Err(NurError::InvalidNurfile())
    ));
    assert!(matches!(
        nurfile_names(&Some(ArgValue::Nothing)),
        Err(NurError::InvalidNurfile())
    ));
}

#[test]
fn test_nur_state_with_project_path() {
    let temp_dir = tempdir().unwrap();
    let temp_dir_path = temp_dir.path().to_path_buf();
    let _nurfile = file_in(&temp_dir_path, NUR_FILE);
    let _local = file_in(&temp_dir_path, NUR_LOCAL_FILE);
    let run_path = temp_dir_path.to_str().unwrap().to_string();

    let state = NurState::new(run_path.clone(), quiet_args(), true, task_call()).unwrap();

    assert_eq!(state.run_path, run_path);
    assert_eq!(PathBuf::from(&state.project_path), temp_dir_path);
    assert_eq!(state.has_project_path, true);

    assert_eq!(PathBuf::from(&state.config_dir), temp_dir_path.join(".nur"));
    assert_eq!(PathBuf::from(&state.lib_dir_path), temp_dir_path.join(".nur/scripts"));
    assert_eq!(PathBuf::from(&state.env_path), temp_dir_path.join(".nur/env.nu"));
    assert_eq!(PathBuf::from(&state.config_path), temp_dir_path.join(".nur/config.nu"));

    assert_eq!(PathBuf::from(state.nurfile_path.unwrap()), temp_dir_path.join(NUR_FILE));
    assert_eq!(
        PathBuf::from(state.local_nurfile_path.unwrap()),
        temp_dir_path.join(NUR_LOCAL_FILE)
    );

    assert_eq!(state.nur_args.quiet_execution, true);
    assert_eq!(state.has_task_call, true);
    assert_eq!(state.task_call, task_call());
    assert!(state.task_name.is_none());
}

#[test]
fn test_nur_state_dot_nu_files() {
    let temp_dir = tempdir().unwrap();
    let temp_dir_path = temp_dir.path().to_path_buf();
    let _nurfile = file_in(&temp_dir_path, NUR_FILE_DOT_NU);
    let _local = file_in(&temp_dir_path, NUR_LOCAL_FILE_DOT_NU);
    let run_path = temp_dir_path.to_str().unwrap().to_string();

    let state = NurState::new(run_path, quiet_args(), true, task_call()).unwrap();

    assert_eq!(
        PathBuf::from(state.nurfile_path.unwrap()),
        temp_dir_path.join(NUR_FILE_DOT_NU)
    );
    assert_eq!(
        PathBuf::from(state.local_nurfile_path.unwrap()),
        temp_dir_path.join(NUR_LOCAL_FILE_DOT_NU)
    );
}

#[test]
fn test_nur_state_without_project_path() {
    let temp_dir = tempdir().unwrap();
    let temp_dir_path = temp_dir.path().to_path_buf();
    let run_path = temp_dir_path.to_str().unwrap().to_string();

    let state = NurState::new(run_path.clone(), quiet_args(), true, task_call()).unwrap();

    assert_eq!(state.run_path, run_path);
    assert_eq!(state.project_path, run_path); // same as run_path, as this is the fallback
    assert_eq!(state.has_project_path, false);
    assert_eq!(PathBuf::from(&state.config_dir), temp_dir_path.join(".nur"));
    assert_eq!(PathBuf::from(&state.lib_dir_path), temp_dir_path.join(".nur/scripts"));
    assert_eq!(PathBuf::from(&state.env_path), temp_dir_path.join(".nur/env.nu"));
    assert_eq!(PathBuf::from(&state.config_path), temp_dir_path.join(".nur/config.nu"));
    assert!(state.nurfile_path.is_none());
    assert!(state.local_nurfile_path.is_none());

    assert_eq!(state.nur_args.quiet_execution, true);
    assert_eq!(state.has_task_call, true);
    assert_eq!(state.task_call, task_call());
}

#[test]
fn test_nur_state_without_task() {
    let temp_dir = tempdir().unwrap();
    let temp_dir_path = temp_dir.path().to_path_buf();
    let run_path = temp_dir_path.to_str().unwrap().to_string();
    let mut args = quiet_args();
    args.quiet_execution = false;
    args.show_help = true;

    let state = NurState::new(run_path.clone(), args, false, vec![]).unwrap();

    assert_eq!(state.run_path, run_path);
    assert_eq!(state.project_path, run_path); // same as run_path, as this is the fallback
    assert_eq!(state.has_project_path, false);
    assert_eq!(PathBuf::from(&state.config_dir), temp_dir_path.join(".nur"));
    assert_eq!(PathBuf::from(&state.lib_dir_path), temp_dir_path.join(".nur/scripts"));
    assert_eq!(PathBuf::from(&state.env_path), temp_dir_path.join(".nur/env.nu"));
    assert_eq!(PathBuf::from(&state.config_path), temp_dir_path.join(".nur/config.nu"));
    assert!(state.nurfile_path.is_none());
    assert!(state.local_nurfile_path.is_none());

    assert_eq!(state.nur_args.show_help, true);
    assert_eq!(state.has_task_call, false);
    assert_eq!(state.task_call, vec![] as Vec<String>);
}

#[test]
fn test_nur_state_with_nurfile_option() {
    let temp_dir = tempdir().unwrap();
    let temp_dir_path = temp_dir.path().to_path_buf();
    let mut args = quiet_args();
    args.quiet_execution = false;
    args.nurfile_name = Some(ArgValue::Str(String::from("other-nurfile")));

    let state =
        NurState::new(temp_dir_path.to_str().unwrap().to_string(), args, false, vec![]).unwrap();

    match state.nur_args.nurfile_name {
        Some(ArgValue::Str(name)) => assert_eq!(name, "other-nurfile"),
        _ => panic!("the nurfile option is kept"),
    }
}

#[test]
fn state_with_nurfile_option_finds_the_named_file() {
    let temp_dir = tempdir().unwrap();
    let temp_dir_path = temp_dir.path().to_path_buf();
    let sub = dir_in(&temp_dir_path, "sub");
    let _nurfile = file_in(&temp_dir_path, "other-nurfile");
    let _local = file_in(&temp_dir_path, "other-nurfile.local");
    let _default = file_in(sub.path(), NUR_FILE);

    let mut args = quiet_args();
    args.nurfile_name = Some(ArgValue::Str(String::from("other-nurfile")));
    let state = NurState::new(sub.path().to_str().unwrap().to_string(), args, false, vec![]).unwrap();

    assert_eq!(state.has_project_path, true);
    assert_eq!(PathBuf::from(&state.project_path), temp_dir_path);
    assert_eq!(
        PathBuf::from(state.nurfile_path.unwrap()),
        temp_dir_path.join("other-nurfile")
    );
    assert_eq!(
        PathBuf::from(state.local_nurfile_path.unwrap()),
        temp_dir_path.join("other-nurfile.local")
    );
}

#[test]
fn state_with_invalid_nurfile_option_fails() {
    let mut args = quiet_args();
    args.nurfile_name = Some(ArgValue::Other);
    let r = NurState::new(String::from("/"), args, false, vec![]);
    assert!(matches!(r, Err(NurError::InvalidNurfile())));
}

#[test]
fn project_falls_back_to_run_path() {
    let run = String::from("/t/sub");
    assert_eq!(project_or_run_path(&run, &None), "/t/sub");
    assert_eq!(project_or_run_path(&run, &Some(String::from("/t"))), "/t");
}

#[test]
fn assembled_state_keeps_search_results() {
    let s = NurState::assemble(
        String::from("/t/sub"),
        Some(String::from("/t")),
        Some(String::from("/t/nurfile")),
        None,
        quiet_args(),
        false,
        vec![],
    );
    assert!(s.has_project_path);
    assert_eq!(s.project_path, "/t");
    assert_eq!(s.config_dir, "/t/.nur");
    assert_eq!(s.lib_dir_path, "/t/.nur/scripts");
    assert_eq!(s.env_path, "/t/.nur/env.nu");
    assert_eq!(s.config_path, "/t/.nur/config.nu");
    assert_eq!(s.nurfile_path, Some(String::from("/t/nurfile")));
    assert!(s.local_nurfile_path.is_none());

    let s = NurState::assemble(String::from("/t/sub"), None, None, None, quiet_args(), false, vec![]);
    assert!(!s.has_project_path);
    assert_eq!(s.project_path, "/t/sub");
    assert_eq!(s.config_dir, "/t/sub/.nur");
}
