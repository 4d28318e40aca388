use nur::errors::NurError;
use nur::listing::{sort_entry_names, str_le};
use nur::text::{decimal_text, join_with, prefix_chars, str_ends_with};

fn strings(v: &[&str]) -> Vec<String> {
    v.iter().map(|s| s.to_string()).collect()
}

#[test]
fn ends_with_matches_std() {
    for (s, suffix) in [
        ("nurfile.nu", ".nu"),
        ("nurfile", ".nu"),
        ("nu", ".nu"),
        (".nu", ".nu"),
        ("", ""),
        ("abc", ""),
        ("", "a"),
        ("éé.nu", ".nu"),
    ] {
        assert_eq!(str_ends_with(s, suffix), s.ends_with(suffix));
    }
}

#[test]
fn prefix_of_characters() {
    assert_eq!(prefix_chars("nurfile.nu", 7), "nurfile");
    assert_eq!(prefix_chars("ünï", 2), "ün");
    assert_eq!(prefix_chars("abc", 0), "");
}

#[test]
fn join_with_spaces() {
    assert_eq!(join_with(&vec![], " "), "");
    assert_eq!(join_with(&strings(&["nur"]), " "), "nur");
    assert_eq!(
        join_with(&strings(&["nur", "some_task", "task_arg"]), " "),
        "nur some_task task_arg"
    );
    assert_eq!(join_with(&strings(&["a", "", "b"]), ", "), "a, , b");
}

#[test]
fn decimal_text_matches_display() {
    for n in [0, 1, 9, 10, 42, 255, 1000, -1, -10, -255, i32::MAX, i32::MIN] {
        assert_eq!(decimal_text(n), n.to_string());
    }
}

#[test]
fn text_order_matches_string_order() {
    let samples = ["", "a", "b", "ab", "B", "nurfile", "nurfile.nu", "é", "z", "aa"];
    for a in samples {
        for b in samples {
            assert_eq!(str_le(a, b), a <= b, "{} <= {}", a, b);
        }
    }
}

#[test]
fn entries_sorted_as_std_sorts() {
    let entries = strings(&["b.nu", "a.nu", "ab", "B", "", "é", "a.nu", "zz"]);
    let mut expected = entries.clone();
    expected.sort();
    assert_eq!(sort_entry_names(entries), expected);
    assert_eq!(sort_entry_names(vec![]), Vec::<String>::new());
    assert_eq!(
        sort_entry_names(strings(&["20-x.nu", "10-y.nu", "3.nu"])),
        strings(&["10-y.nu", "20-x.nu", "3.nu"])
    );
}

#[test]
fn error_messages() {
    let s = || String::from("x");
    assert_eq!(NurError::InitError(s()).message(), "Init nu error x");
    assert_eq!(NurError::IoError(s()).message(), "IO Error x");
    assert_eq!(NurError::ShellError(s()).message(), "Shell Error x");
    assert_eq!(NurError::ParseErrors(vec![s()]).message(), "Parse Errors");
    assert_eq!(NurError::InvalidTaskName(s()).message(), "Invalid task name 'x'");
    assert_eq!(
        NurError::TaskNotFound(String::from("nur some_task")).message(),
        "Could not find the task for call 'nur some_task'"
    );
    assert_eq!(
        NurError::NurfileNotFound(String::from("nurfile")).message(),
        "Could not find nurfile in path and parents"
    );
    assert_eq!(
        NurError::EnteredShellError().message(),
        "Entered shell did raise an error"
    );
    assert_eq!(
        NurError::InvalidNurCall(String::from("task call"), String::from("--enter-shell"))
            .message(),
        "You cannot use task call and --enter-shell together"
    );
    assert_eq!(
        NurError::DotenvFileError(s(), String::from("why")).message(),
        "Could not load dotenv file or not a file at x"
    );
    assert_eq!(
        NurError::DotenvParseError(s()).message(),
        "Could not parse dotenv file: x"
    );
    assert_eq!(
        NurError::InvalidNurfile().message(),
        "Invalid nurfile name, it must be a string"
    );
}
