use nur::names::{NUR_FILE, NUR_FILE_DOT_NU, NUR_LOCAL_FILE};
use nur::path::{
    ancestor_dirs, find_nurfile, find_project_path, first_marked, nurfile_candidates, pick_first,
};
use std::path::{Path, PathBuf};
use tempfile::{tempdir, Builder, NamedTempFile, TempDir};

fn file_in(dir: &Path, name: &str) -> NamedTempFile {
    Builder::new().prefix(name).rand_bytes(0).tempfile_in(dir).unwrap()
}

fn dir_in(dir: &Path, name: &str) -> TempDir {
    Builder::new().prefix(name).rand_bytes(0).tempdir_in(dir).unwrap()
}

fn default_names() -> Vec<String> {
    vec![String::from(NUR_FILE), String::from(NUR_FILE_DOT_NU)]
}

fn text(p: &PathBuf) -> String {
    p.to_str().unwrap().to_string()
}

#[test]
fn test_find_project_path() {
    let temp_dir = tempdir().unwrap();
    let temp_dir_path = temp_dir.path().to_path_buf();
    let nurfile = file_in(temp_dir.path(), NUR_FILE);

    let expected_path = temp_dir_path.clone();
    let actual_path = find_project_path(&text(&temp_dir_path), &default_names()).unwrap();
    assert_eq!(expected_path, PathBuf::from(actual_path));

    drop(nurfile);
}

#[test]
fn test_find_project_path_subdirectory() {
    let temp_dir = tempdir().unwrap();
    let temp_dir_path = temp_dir.path().to_path_buf();
    let sub_dir = dir_in(&temp_dir_path, "sub");

    let nurfile = file_in(&temp_dir_path, NUR_FILE);

    let expected_path = temp_dir_path.clone();
    let actual_path = find_project_path(&text(&temp_dir_path), &default_names()).unwrap();
    assert_eq!(expected_path, PathBuf::from(actual_path));

    drop(nurfile);
    drop(sub_dir);
}

#[test]
fn test_find_project_path_with_nurfile_dot_nu_subdirectory() {
    let temp_dir = tempdir().unwrap();
    let temp_dir_path = temp_dir.path().to_path_buf();
    let sub_dir = dir_in(&temp_dir_path, "sub");

    let nurfile = file_in(&temp_dir_path, NUR_FILE_DOT_NU);

    let expected_path = temp_dir_path.clone();
    let actual_path = find_project_path(&text(&temp_dir_path), &default_names()).unwrap();
    assert_eq!(expected_path, PathBuf::from(actual_path));

    drop(nurfile);
    drop(sub_dir);
}

#[test]
fn test_find_project_path_error() {
    let temp_dir = tempdir().unwrap();
    let temp_dir_path = temp_dir.path().to_path_buf();

    match find_project_path(&text(&temp_dir_path), &default_names()) {
        Some(_) => panic!("Expected an error, but got Ok"),
        None => (),
    }
}

#[test]
fn search_walks_up_from_a_subdirectory() {
    let temp_dir = tempdir().unwrap();
    let root = temp_dir.path().to_path_buf();
    let a = dir_in(&root, "a");
    let deep = dir_in(a.path(), "b");
    let _nurfile = file_in(&root, NUR_FILE);

    let found = find_project_path(&text(&deep.path().to_path_buf()), &default_names()).unwrap();
    assert_eq!(PathBuf::from(found), root);
}

#[test]
fn search_stops_at_the_nearest_project() {
    let temp_dir = tempdir().unwrap();
    let root = temp_dir.path().to_path_buf();
    let inner = dir_in(&root, "inner");
    let deep = dir_in(inner.path(), "deep");
    let _outer_nurfile = file_in(&root, NUR_FILE);
    let _inner_nurfile = file_in(inner.path(), NUR_FILE_DOT_NU);

    let found = find_project_path(&text(&deep.path().to_path_buf()), &default_names()).unwrap();
    assert_eq!(PathBuf::from(found), inner.path().to_path_buf());
}

#[test]
fn search_without_names_finds_nothing() {
    let temp_dir = tempdir().unwrap();
    let root = temp_dir.path().to_path_buf();
    let _nurfile = file_in(&root, NUR_FILE);
    assert!(find_project_path(&text(&root), &vec![]).is_none());
    assert!(find_nurfile(&text(&root), &vec![]).is_none());
}

#[test]
fn nurfile_search_prefers_the_first_name() {
    let temp_dir = tempdir().unwrap();
    let root = temp_dir.path().to_path_buf();
    let _a = file_in(&root, NUR_FILE);
    let _b = file_in(&root, NUR_FILE_DOT_NU);

    let found = find_nurfile(&text(&root), &default_names()).unwrap();
    assert_eq!(PathBuf::from(found), root.join(NUR_FILE));

    let reversed = vec![String::from(NUR_FILE_DOT_NU), String::from(NUR_FILE)];
    let found = find_nurfile(&text(&root), &reversed).unwrap();
    assert_eq!(PathBuf::from(found), root.join(NUR_FILE_DOT_NU));
}

#[test]
fn nurfile_search_takes_a_later_name_when_the_first_is_missing() {
    let temp_dir = tempdir().unwrap();
    let root = temp_dir.path().to_path_buf();
    let _b = file_in(&root, NUR_FILE_DOT_NU);

    let found = find_nurfile(&text(&root), &default_names()).unwrap();
    assert_eq!(PathBuf::from(found), root.join(NUR_FILE_DOT_NU));
    assert!(find_nurfile(&text(&root), &vec![String::from(NUR_LOCAL_FILE)]).is_none());
}

#[test]
fn first_marked_picks_the_first_true() {
    assert_eq!(first_marked(&vec![]), None);
    assert_eq!(first_marked(&vec![false, false]), None);
    assert_eq!(first_marked(&vec![false, true, true]), Some(1));
    assert_eq!(first_marked(&vec![true, false]), Some(0));
}

#[test]
fn candidates_follow_the_names() {
    assert_eq!(
        nurfile_candidates("/t", &default_names()),
        vec![String::from("/t/nurfile"), String::from("/t/nurfile.nu")]
    );
    assert_eq!(nurfile_candidates("/t", &vec![]), Vec::<String>::new());
}

#[test]
fn ancestors_nearest_first() {
    assert_eq!(
        ancestor_dirs("/t/sub"),
        vec![String::from("/t/sub"), String::from("/t"), String::from("/")]
    );
    assert_eq!(
        ancestor_dirs("a/b"),
        vec![String::from("a/b"), String::from("a"), String::from("")]
    );
    assert_eq!(ancestor_dirs(""), vec![String::from("")]);
}

#[test]
fn pick_first_follows_the_marks() {
    let items = vec![String::from("a"), String::from("b"), String::from("c")];
    assert_eq!(pick_first(&items, &vec![]), None);
    assert_eq!(pick_first(&items, &vec![false, true]), Some(String::from("b")));
    assert_eq!(pick_first(&items, &vec![false, false, false]), None);
    assert_eq!(pick_first(&items, &vec![true]), Some(String::from("a")));
}
