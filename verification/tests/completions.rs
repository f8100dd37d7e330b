use xlm_ns::completions::{completion_install_dir_from_home, shell_from_path, shell_name, Shell};

#[test]
fn detects_supported_shells_from_paths() {
    assert_eq!(shell_from_path("/bin/bash"), Some(Shell::Bash));
    assert_eq!(shell_from_path("/usr/bin/zsh"), Some(Shell::Zsh));
    assert_eq!(shell_from_path("/usr/bin/fish"), Some(Shell::Fish));
    assert_eq!(shell_from_path("/usr/bin/sh"), None);
}

#[test]
fn builds_shell_specific_install_dirs() {
    let home = "/home/alice";
    assert_eq!(
        completion_install_dir_from_home(home, Shell::Bash),
        "/home/alice/.local/share/bash-completion/completions"
    );
    assert_eq!(
        completion_install_dir_from_home(home, Shell::Zsh),
        "/home/alice/.local/share/zsh/site-functions"
    );
    assert_eq!(
        completion_install_dir_from_home(home, Shell::Fish),
        "/home/alice/.config/fish/completions"
    );
}

#[test]
fn shell_paths_edge_cases() {
    assert_eq!(shell_from_path("C:/Tools/BASH.EXE"), Some(Shell::Bash));
    assert_eq!(shell_from_path("/usr/local/bin/zsh/"), Some(Shell::Zsh));
    assert_eq!(shell_from_path("/usr/bin/fish/."), Some(Shell::Fish));
    assert_eq!(shell_from_path("/usr/bin/fish/.."), None);
    assert_eq!(shell_from_path(""), None);
    assert_eq!(shell_name(Shell::Zsh), "zsh");
}
