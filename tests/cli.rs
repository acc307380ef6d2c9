use termpilot::{contains_flag, file_argument, parse_command, Command, HELP_TEXT, VERSION_TEXT};

fn args(list: &[&str]) -> Vec<String> {
    list.iter().map(|s| s.to_string()).collect()
}

#[test]
fn help_flag_gives_help_whatever_else_is_there() {
    let a = args(&["explain", "--file", "x.txt", "--version", "--help", "--reset-key"]);
    assert!(matches!(parse_command(&a), Command::Help));
}

#[test]
fn version_flag_gives_version() {
    let a = args(&["explain", "--reset-key", "--version"]);
    assert!(matches!(parse_command(&a), Command::Version));
}

#[test]
fn help_and_version_texts_are_fixed() {
    assert!(HELP_TEXT.starts_with("TermPilot"));
    assert!(HELP_TEXT.contains("explain --file <file>"));
    assert_eq!(VERSION_TEXT, "TermPilot 0.1.0");
}

#[test]
fn file_flag_names_the_input_file() {
    let a = args(&["explain", "--file", "log.txt"]);
    match parse_command(&a) {
        Command::Explain { reset_key, file } => {
            assert!(!reset_key);
            assert_eq!(file, Some("log.txt".to_string()));
        }
        _ => panic!("expected an explanation"),
    }
}

#[test]
fn no_arguments_read_standard_input() {
    let a = args(&["explain"]);
    match parse_command(&a) {
        Command::Explain { reset_key, file } => {
            assert!(!reset_key);
            assert_eq!(file, None);
        }
        _ => panic!("expected an explanation"),
    }
}

#[test]
fn file_flag_without_path_falls_back_to_standard_input() {
    let a = args(&["explain", "--file"]);
    assert_eq!(file_argument(&a), None);
}

#[test]
fn file_flag_in_second_place_is_not_read() {
    let a = args(&["explain", "--reset-key", "--file", "log.txt"]);
    match parse_command(&a) {
        Command::Explain { reset_key, file } => {
            assert!(reset_key);
            assert_eq!(file, None);
        }
        _ => panic!("expected an explanation"),
    }
}

#[test]
fn reset_flag_is_found_anywhere() {
    let a = args(&["explain", "--file", "log.txt", "--reset-key"]);
    match parse_command(&a) {
        Command::Explain { reset_key, file } => {
            assert!(reset_key);
            assert_eq!(file, Some("log.txt".to_string()));
        }
        _ => panic!("expected an explanation"),
    }
}

#[test]
fn contains_flag_matches_whole_arguments_only() {
    let a = args(&["explain", "--helpme"]);
    assert!(!contains_flag(&a, "--help"));
    assert!(contains_flag(&a, "--helpme"));
    assert!(!contains_flag(&Vec::new(), "--help"));
}
