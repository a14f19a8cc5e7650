use zamm::paths::join;
use zamm::text::ends_with;

#[test]
fn ends_with_finds_suffix() {
    assert!(ends_with("/usr/bin/zsh", "/zsh"));
    assert!(ends_with("/zsh", "/zsh"));
    assert!(ends_with("anything", ""));
    assert!(ends_with("", ""));
    assert!(ends_with("naïve", "ïve"));
}

#[test]
fn ends_with_refuses_what_is_no_suffix() {
    assert!(!ends_with("/usr/bin/zsh", "/bash"));
    assert!(!ends_with("zsh", "/zsh"));
    assert!(!ends_with("", "/"));
    assert!(!ends_with("/zsh/", "/zsh"));
    assert!(!ends_with("/zsh", "/zsH"));
}

#[test]
fn join_puts_one_separator_between() {
    assert_eq!(join("dir", "file"), "dir/file");
    assert_eq!(join("/a/b", "preferences.yaml"), "/a/b/preferences.yaml");
}

#[test]
fn join_adds_no_second_separator() {
    assert_eq!(join("dir/", "file"), "dir/file");
    assert_eq!(join("/", "file"), "/file");
}

#[test]
fn join_to_empty_directory_is_the_name() {
    assert_eq!(join("", "file"), "file");
}
