use procexec::command::{Arg, Command};

#[test]
fn empty_command_has_no_words() {
    let cmd = Command::new(Vec::new());
    assert!(cmd.argv.is_empty());
    assert_eq!(cmd.words(), Vec::<String>::new());
}

#[test]
fn words_come_out_in_order() {
    let cmd = Command::new(vec![
        Arg::Word("echo".to_string()),
        Arg::Word("b".to_string()),
        Arg::Word("a".to_string()),
        Arg::Word("b".to_string()),
    ]);
    assert_eq!(cmd.words(), vec!["echo", "b", "a", "b"]);
}

#[test]
fn words_are_kept_as_they_are() {
    let cmd = Command::new(vec![
        Arg::Word(String::new()),
        Arg::Word("a\0b".to_string()),
        Arg::Word("\u{65e5}\u{672c}".to_string()),
    ]);
    assert_eq!(cmd.words(), vec!["", "a\0b", "\u{65e5}\u{672c}"]);
}

#[test]
fn new_keeps_the_tokens() {
    let tokens = vec![Arg::Word("ls".to_string()), Arg::Word("-l".to_string())];
    let cmd = Command::new(tokens.clone());
    assert_eq!(cmd.argv, tokens);
}
