use shells::{invocation, Shell};

#[test]
fn shell_names() {
    assert_eq!(Shell::Sh.name(), "sh");
    assert_eq!(Shell::Ash.name(), "ash");
    assert_eq!(Shell::Csh.name(), "csh");
    assert_eq!(Shell::Ksh.name(), "ksh");
    assert_eq!(Shell::Zsh.name(), "zsh");
    assert_eq!(Shell::Bash.name(), "bash");
    assert_eq!(Shell::Dash.name(), "dash");
    assert_eq!(Shell::Fish.name(), "fish");
    assert_eq!(Shell::Mksh.name(), "mksh");
    assert_eq!(Shell::Tcsh.name(), "tcsh");
}

#[test]
fn invocation_is_flag_then_script() {
    let inv = invocation("sh", "echo 'a' | cat");
    assert_eq!(inv.program, "sh");
    assert_eq!(inv.args, vec!["-c".to_string(), "echo 'a' | cat".to_string()]);
}

#[test]
fn script_is_one_argument_unsplit_and_unescaped() {
    let script = "printf '%s\\n' \"a b\"  c; exit 3 # $HOME `x`";
    let inv = invocation("/bin/bash", script);
    assert_eq!(inv.program, "/bin/bash");
    assert_eq!(inv.args.len(), 2);
    assert_eq!(inv.args[0], "-c");
    assert_eq!(inv.args[1], script);
}

#[test]
fn empty_script_is_still_an_argument() {
    let inv = invocation("sh", "");
    assert_eq!(inv.args, vec!["-c".to_string(), String::new()]);
}

#[test]
fn shell_invocation_uses_its_name() {
    let inv = Shell::Zsh.invocation("true");
    assert_eq!(inv.program, "zsh");
    assert_eq!(inv.args, vec!["-c".to_string(), "true".to_string()]);
}

#[test]
fn formatted_template_is_the_script() {
    let script = format!("echo '{} + {}'", 1, 3);
    assert_eq!(script, "echo '1 + 3'");
    let inv = Shell::Sh.invocation(&script);
    assert_eq!(inv.args[1], "echo '1 + 3'");
}
