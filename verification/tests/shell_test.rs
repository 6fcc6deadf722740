use croque::shell::Shell;

#[test]
fn test_control() {
    assert_eq!(Shell::Bash.control("\x1b[m").render(), "\\[\x1b[m\\]");
    assert_eq!(Shell::Fish.control("\x1b[m").render(), "\x1b[m");
    assert_eq!(Shell::Zsh.control("\x1b[m").render(), "%{\x1b[m%}");
}

#[test]
fn escape_doubles_what_the_shell_expands() {
    assert_eq!(Shell::Bash.escape("a\\b"), "a\\\\b");
    assert_eq!(Shell::Bash.escape("100%"), "100%");
    assert_eq!(Shell::Zsh.escape("100%"), "100%%");
    assert_eq!(Shell::Zsh.escape("a\\b"), "a\\b");
    assert_eq!(Shell::Fish.escape("a\\b%"), "a\\b%");
}
