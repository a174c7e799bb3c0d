use script::config::{output_path, shell_path};

#[test]
fn default_transcript_name_when_no_path_given() {
    assert_eq!(output_path(None), "typescript");
}

#[test]
fn given_transcript_path_is_kept() {
    assert_eq!(output_path(Some("/tmp/session.log".to_string())), "/tmp/session.log");
}

#[test]
fn fallback_shell_when_variable_unset() {
    assert_eq!(shell_path(None), "/bin/sh");
}

#[test]
fn shell_from_variable_when_set() {
    assert_eq!(shell_path(Some("/usr/bin/zsh".to_string())), "/usr/bin/zsh");
}
