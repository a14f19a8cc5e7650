use zamm::system::{get_shell, get_shell_init_file, get_system_info, Shell, SystemInfo};

#[test]
fn test_can_determine_shell() {
    let shell = get_shell(Some("/bin/bash"));
    println!("Determined shell to be {:?}", shell);
    assert!(shell.is_some());
}

#[test]
fn test_can_predict_shell_init() {
    let shell = Shell::Zsh;
    let shell_init_file = get_shell_init_file(&shell, Some("/home/user"));
    println!("Shell init file is {}", shell_init_file);
    assert!(shell_init_file.starts_with('/'));
    assert!(shell_init_file.ends_with("/.zshrc"));
}

#[test]
fn test_get_linux_system_info() {
    let system_info = SystemInfo {
        shell: Some(Shell::Zsh),
        shell_init_file: Some("/root/.zshrc".to_string()),
    };
    let actual_info = get_system_info(Some("/usr/bin/zsh"), Some("/root"));
    assert_eq!(&actual_info, &system_info);
}

#[test]
fn shell_is_zsh_where_path_ends_in_zsh() {
    assert_eq!(get_shell(Some("/usr/bin/zsh")), Some(Shell::Zsh));
    assert_eq!(get_shell(Some("/bin/zsh")), Some(Shell::Zsh));
    assert_eq!(get_shell(Some("/zsh")), Some(Shell::Zsh));
}

#[test]
fn shell_is_bash_where_path_ends_in_bash() {
    assert_eq!(get_shell(Some("/bin/bash")), Some(Shell::Bash));
    assert_eq!(get_shell(Some("/usr/local/bin/bash")), Some(Shell::Bash));
}

#[test]
fn shell_is_unknown_otherwise() {
    assert_eq!(get_shell(None), None);
    assert_eq!(get_shell(Some("")), None);
    assert_eq!(get_shell(Some("/bin/fish")), None);
    assert_eq!(get_shell(Some("zsh")), None);
    assert_eq!(get_shell(Some("bash")), None);
    assert_eq!(get_shell(Some("/bin/zsh/")), None);
    assert_eq!(get_shell(Some("/bin/bash ")), None);
    assert_eq!(get_shell(Some("/bin/BASH")), None);
    assert_eq!(get_shell(Some("/bin/é/zshé")), None);
}

#[test]
fn shell_path_may_hold_any_characters() {
    assert_eq!(get_shell(Some("/opt/é日本/zsh")), Some(Shell::Zsh));
    assert_eq!(get_shell(Some("/opt/zsh/bash")), Some(Shell::Bash));
    assert_eq!(get_shell(Some("/opt/bash/zsh")), Some(Shell::Zsh));
}

#[test]
fn bash_init_file_is_bashrc() {
    assert_eq!(get_shell_init_file(&Shell::Bash, Some("/home/user")), "/home/user/.bashrc");
    assert_eq!(get_shell_init_file(&Shell::Bash, Some("/root")), "/root/.bashrc");
}

#[test]
fn zsh_init_file_has_home_in_place_of_tilde() {
    assert_eq!(get_shell_init_file(&Shell::Zsh, Some("/home/user")), "/home/user/.zshrc");
    assert_eq!(get_shell_init_file(&Shell::Zsh, Some("")), "/.zshrc");
    assert_eq!(get_shell_init_file(&Shell::Zsh, Some("~")), "~/.zshrc");
}

#[test]
fn init_file_keeps_tilde_without_home() {
    assert_eq!(get_shell_init_file(&Shell::Zsh, None), "~/.zshrc");
    assert_eq!(get_shell_init_file(&Shell::Bash, None), "~/.bashrc");
}

#[test]
fn system_info_for_zsh() {
    let info = get_system_info(Some("/usr/bin/zsh"), Some("/home/user"));
    assert_eq!(info.shell, Some(Shell::Zsh));
    let shell_init_file = info.shell_init_file.unwrap();
    assert!(shell_init_file.starts_with('/'));
    assert!(shell_init_file.ends_with("/.zshrc"));
    assert_eq!(shell_init_file, "/home/user/.zshrc");
}

#[test]
fn system_info_for_bash() {
    let info = get_system_info(Some("/bin/bash"), Some("/home/user"));
    assert_eq!(info.shell, Some(Shell::Bash));
    let shell_init_file = info.shell_init_file.unwrap();
    assert!(shell_init_file.starts_with('/'));
    assert!(shell_init_file.ends_with("/.bashrc"));
    assert_eq!(shell_init_file, "/home/user/.bashrc");
}

#[test]
fn system_info_without_home() {
    let info = get_system_info(Some("/bin/bash"), None);
    assert_eq!(
        info,
        SystemInfo { shell: Some(Shell::Bash), shell_init_file: Some("~/.bashrc".to_string()) }
    );
}

#[test]
fn system_info_without_shell_has_no_init_file() {
    let unset = get_system_info(None, Some("/home/user"));
    assert_eq!(unset, SystemInfo { shell: None, shell_init_file: None });
    let unrecognized = get_system_info(Some("/usr/bin/fish"), Some("/home/user"));
    assert_eq!(unrecognized, SystemInfo { shell: None, shell_init_file: None });
    assert_eq!(get_system_info(None, None), SystemInfo { shell: None, shell_init_file: None });
}

#[test]
fn system_info_is_the_same_each_time() {
    assert_eq!(
        get_system_info(Some("/bin/zsh"), Some("/home/user")),
        get_system_info(Some("/bin/zsh"), Some("/home/user"))
    );
    assert_eq!(get_system_info(None, None), get_system_info(None, None));
}
