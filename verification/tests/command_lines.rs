use screenguard_agent::command_line::{arg_value, parse_command, Command};

fn args(xs: &[&str]) -> Vec<String> {
    xs.iter().map(|s| s.to_string()).collect()
}

#[test]
fn arg_value_reads_space_and_equals_forms() {
    assert_eq!(arg_value(&args(&["x", "--cloud-account", "a@b.net"]), "--cloud-account"), Some("a@b.net"));
    assert_eq!(arg_value(&args(&["x", "--cloud-account=a@b.net"]), "--cloud-account"), Some("a@b.net"));
    assert_eq!(arg_value(&args(&["x", "--other"]), "--cloud-account"), None);
    assert_eq!(arg_value(&args(&["x", "--cloud-account"]), "--cloud-account"), None); // no value
}

#[test]
fn first_mention_of_a_flag_decides() {
    assert_eq!(arg_value(&args(&["x", "--f=1", "--f=2"]), "--f"), Some("1"));
    assert_eq!(arg_value(&args(&["x", "--f", "1", "--f=2"]), "--f"), Some("1"));
    assert_eq!(arg_value(&args(&["x", "--f", "--f=2"]), "--f"), Some("--f=2"));
}

#[test]
fn flag_values_keep_everything_behind_the_sign() {
    assert_eq!(arg_value(&args(&["x", "--f="]), "--f"), Some(""));
    assert_eq!(arg_value(&args(&["x", "--f==a=b"]), "--f"), Some("=a=b"));
    assert_eq!(arg_value(&args(&["x", "--f", ""]), "--f"), Some(""));
    assert_eq!(arg_value(&args(&["x", "--f=\u{e9} "]), "--f"), Some("\u{e9} "));
}

#[test]
fn longer_words_are_other_flags() {
    assert_eq!(arg_value(&args(&["x", "--flag", "1"]), "--f"), None);
    assert_eq!(arg_value(&args(&["x", "--flag=1", "--f=2"]), "--f"), Some("2"));
    assert_eq!(arg_value(&args(&[]), "--f"), None);
}

#[test]
fn first_word_selects_lock_and_notify() {
    assert!(matches!(parse_command(&args(&["x", "--lock-cinnamon", "--reset"])), Command::LockCinnamon));
    match parse_command(&args(&["x", "--notify", "Time is up", "Log off"])) {
        Command::Notify { summary, body } => {
            assert_eq!(summary, "Time is up");
            assert_eq!(body, "Log off");
        }
        _ => panic!("not a notification"),
    }
    match parse_command(&args(&["x", "--notify"])) {
        Command::Notify { summary, body } => {
            assert_eq!(summary, "");
            assert_eq!(body, "");
        }
        _ => panic!("not a notification"),
    }
    assert!(matches!(parse_command(&args(&["x", "y", "--lock-cinnamon"])), Command::Run));
    assert!(matches!(parse_command(&args(&["x", "y", "--notify", "a"])), Command::Run));
}

#[test]
fn reset_counts_anywhere() {
    assert!(matches!(parse_command(&args(&["x", "--reset"])), Command::Reset));
    assert!(matches!(parse_command(&args(&["x", "--server-url", "y", "--reset"])), Command::Reset));
    assert!(matches!(parse_command(&args(&["--reset"])), Command::Reset));
    assert!(matches!(parse_command(&args(&["x", "--reset=1"])), Command::Run));
    assert!(matches!(parse_command(&args(&["x"])), Command::Run));
    assert!(matches!(parse_command(&args(&[])), Command::Run));
}
