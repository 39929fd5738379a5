use snapcase::directory::Directory;
use snapcase::env::{Update, UPDATE_VAR};
use snapcase::error::Error;
use snapcase::order::{sort_paths, text_precedes};
use snapcase::text::{
    chars_of, contains, normalize, push_decimal, same_text, strip_prefix,
};

#[test]
fn normalize_unifies_line_endings() {
    assert_eq!(normalize(""), "");
    assert_eq!(normalize("a\r\nb\r\n"), "a\nb\n");
    assert_eq!(normalize("a\nb"), "a\nb");
    assert_eq!(normalize("a\rb"), "a\rb");
    assert_eq!(normalize("a\r"), "a\r");
    assert_eq!(normalize("\r\r\n"), "\r\n");
    assert_eq!(normalize("\r\n\r\n"), "\n\n");
    assert_eq!(normalize("\r\r"), "\r\r");
    assert_eq!(normalize("\n\r"), "\n\r");
    assert_eq!(normalize("h\u{e9}\r\n"), "h\u{e9}\n");
}

#[test]
fn contains_finds_substrings() {
    assert!(contains("tests/ui/a.rs", "ui/a"));
    assert!(contains("tests/ui/a.rs", ""));
    assert!(contains("", ""));
    assert!(contains("abc", "abc"));
    assert!(contains("abc", "c"));
    assert!(!contains("abc", "abcd"));
    assert!(!contains("abc", "ac"));
    assert!(!contains("", "a"));
    assert!(contains("aab", "ab"));
}

#[test]
fn prefixes() {
    assert_eq!(strip_prefix("abc", ""), Some("abc".to_owned()));
    assert_eq!(strip_prefix("tr", "trybuild="), None);
    assert_eq!(strip_prefix("xtrybuild=", "trybuild="), None);
    assert_eq!(strip_prefix("trybuild=x", "trybuild="), Some("x".to_owned()));
    assert_eq!(strip_prefix("trybuild=", "trybuild="), Some("".to_owned()));
    assert_eq!(strip_prefix("other", "trybuild="), None);
}

#[test]
fn text_helpers() {
    assert_eq!(chars_of("h\u{e9}!"), vec!['h', '\u{e9}', '!']);
    assert!(same_text("a", "a"));
    assert!(!same_text("a", "b"));
    assert!(!same_text("a", "ab"));
}

#[test]
fn decimal_numerals() {
    for (n, text) in [(0usize, "0"), (9, "9"), (10, "10"), (101, "101"), (65535, "65535")] {
        let mut out = String::from("n=");
        push_decimal(&mut out, n);
        assert_eq!(out, format!("n={}", text));
    }
    let mut out = String::new();
    push_decimal(&mut out, usize::MAX);
    assert_eq!(out, format!("{}", usize::MAX));
}

#[test]
fn texts_are_ordered_by_characters() {
    assert!(text_precedes("", ""));
    assert!(text_precedes("", "a"));
    assert!(!text_precedes("a", ""));
    assert!(text_precedes("a", "a"));
    assert!(text_precedes("a", "ab"));
    assert!(!text_precedes("ab", "a"));
    assert!(text_precedes("a-b", "a/b"));
    assert!(!text_precedes("b", "a/b"));
    assert!(text_precedes("z", "\u{e9}"));
    assert!(text_precedes("\u{ffff}", "\u{10000}"));
}

#[test]
fn sort_agrees_with_the_order_of_strings() {
    let paths: Vec<String> =
        ["b", "a/b", "", "a-b", "a", "b", "\u{e9}", "Z", "a/a"].iter().map(|s| s.to_string()).collect();
    let mut want = paths.clone();
    want.sort();
    assert_eq!(sort_paths(&paths), want);
    assert_eq!(sort_paths(&vec![]), Vec::<String>::new());
}

#[test]
fn update_policy_from_the_variable() {
    assert_eq!(Update::from_var(None), Ok(Update::Wip));
    assert_eq!(Update::from_var(Some("wip")), Ok(Update::Wip));
    assert_eq!(Update::from_var(Some("overwrite")), Ok(Update::Overwrite));
    assert_eq!(Update::from_var(Some("Overwrite")), Err(Error::UpdateVar("Overwrite".to_owned())));
    assert_eq!(Update::from_var(Some("")), Err(Error::UpdateVar("".to_owned())));
    assert_eq!(Update::default(), Update::Wip);
    assert_eq!(UPDATE_VAR, "TRYBUILD");
}

#[test]
fn messages() {
    let io = || "os error".to_owned();
    assert_eq!(Error::Cargo(io()).message(), "failed to execute cargo: os error");
    assert_eq!(Error::CargoFail.message(), "cargo reported an error");
    assert_eq!(
        Error::GetManifest("a/Cargo.toml".to_owned(), Box::new(Error::Io(io()))).message(),
        "failed to read manifest a/Cargo.toml: os error"
    );
    assert_eq!(Error::Glob(io()).message(), "os error");
    assert_eq!(Error::Io(io()).message(), "os error");
    assert_eq!(Error::Metadata(io()).message(), "failed to read cargo metadata: os error");
    assert_eq!(Error::Mismatch.message(), "compiler error does not match expected error");
    assert_eq!(
        Error::NoWorkspaceManifest.message(),
        "Cargo.toml uses edition.workspace=true, but no edition found in workspace's manifest"
    );
    assert_eq!(Error::Open("a.rs".to_owned(), io()).message(), "a.rs: os error");
    assert_eq!(Error::Pattern(io()).message(), "os error");
    assert_eq!(Error::ProjectDir.message(), "failed to determine name of project dir");
    assert_eq!(Error::ReadStderr(io()).message(), "failed to read stderr file: os error");
    assert_eq!(Error::RunFailed.message(), "execution of the test case was unsuccessful");
    assert_eq!(
        Error::ShouldNotHaveCompiled.message(),
        "expected test case to fail to compile, but it succeeded"
    );
    assert_eq!(Error::Toml(io()).message(), "os error");
    assert_eq!(
        Error::UpdateVar("a\"b".to_owned()).message(),
        "unrecognized value of TRYBUILD: \"a\\\"b\""
    );
    assert_eq!(Error::WriteStderr(io()).message(), "failed to write stderr file: os error");
}

#[test]
fn four_failures_are_already_printed() {
    let printed = [Error::CargoFail, Error::Mismatch, Error::RunFailed, Error::ShouldNotHaveCompiled];
    for e in printed.iter() {
        assert!(e.already_printed());
    }
    let others = [
        Error::Cargo("x".to_owned()),
        Error::GetManifest("p".to_owned(), Box::new(Error::Mismatch)),
        Error::Glob("x".to_owned()),
        Error::Io("x".to_owned()),
        Error::Metadata("x".to_owned()),
        Error::NoWorkspaceManifest,
        Error::Open("p".to_owned(), "x".to_owned()),
        Error::Pattern("x".to_owned()),
        Error::ProjectDir,
        Error::ReadStderr("x".to_owned()),
        Error::Toml("x".to_owned()),
        Error::UpdateVar("x".to_owned()),
        Error::WriteStderr("x".to_owned()),
    ];
    for e in others.iter() {
        assert!(!e.already_printed());
        assert_eq!(e.clone(), *e);
    }
}

#[test]
fn directory_keeps_a_separator_at_its_end() {
    assert_eq!(Directory::new("/work".to_owned()).to_string_lossy(), "/work/");
    assert_eq!(Directory::new("/work/".to_owned()).to_string_lossy(), "/work/");
    assert_eq!(Directory::new("".to_owned()).to_string_lossy(), "");
    assert_eq!(Directory::new("/".to_owned()).to_string_lossy(), "/");
    assert_eq!(Directory::new("a/b".to_owned()).clone().to_string_lossy(), "a/b/");
}

#[test]
fn directory_join() {
    let dir = Directory::new("/work".to_owned());
    assert_eq!(dir.join(".lock"), "/work/.lock");
    assert_eq!(dir.join("tests/ui/a.rs"), "/work/tests/ui/a.rs");
    assert_eq!(dir.join("/abs/a.rs"), "/abs/a.rs");
    assert_eq!(dir.join(""), "/work/");
    assert_eq!(Directory::new("".to_owned()).join("a.rs"), "a.rs");
}

#[test]
fn directory_parent() {
    let dir = Directory::new("/work/project".to_owned());
    assert_eq!(dir.parent().expect("a parent").to_string_lossy(), "/work/");
    assert!(Directory::new("/".to_owned()).parent().is_none());
    assert!(Directory::new("".to_owned()).parent().is_none());
    assert_eq!(Directory::new("a".to_owned()).parent().expect("a parent").to_string_lossy(), "");
}
