//! The command line: choosing the paths, and the diagnostics.

use disemvowel::cli::{select_paths, CliError, Paths, REQUIRED_ARGUMENTS};

fn argv(items: &[&str]) -> Vec<String> {
    items.iter().map(|s| s.to_string()).collect()
}

#[test]
fn requires_two_arguments() {
    let r = select_paths(&argv(&["disemvowel-in-rust", "1"]));
    assert_eq!(r, Err(CliError::InsufficientArguments));
    assert!(r.unwrap_err().message().contains("Not enough arguments"));
}

#[test]
fn requires_read_file() {
    let r = select_paths(&argv(&[
        "disemvowel-in-rust",
        "/this/path/does/not/exist",
        "output/path/doesnt/matter",
    ]));
    assert_eq!(
        r,
        Ok(Paths {
            input: String::from("/this/path/does/not/exist"),
            output: String::from("output/path/doesnt/matter"),
        })
    );
    assert!(CliError::FileReadError.message().contains("Could not read the file"));
}

#[test]
fn two_arguments_are_required() {
    assert_eq!(REQUIRED_ARGUMENTS, 2);
}

#[test]
fn no_arguments_at_all() {
    assert_eq!(select_paths(&argv(&["prog"])), Err(CliError::InsufficientArguments));
}

#[test]
fn empty_command_line() {
    assert_eq!(select_paths(&argv(&[])), Err(CliError::InsufficientArguments));
}

#[test]
fn program_name_is_no_argument() {
    assert_eq!(select_paths(&argv(&["in.txt", "out.txt"])), Err(CliError::InsufficientArguments));
}

#[test]
fn two_arguments_give_input_then_output() {
    let paths = select_paths(&argv(&["prog", "in.txt", "out.txt"])).unwrap();
    assert_eq!(paths.input, "in.txt");
    assert_eq!(paths.output, "out.txt");
}

#[test]
fn further_arguments_are_ignored() {
    let paths = select_paths(&argv(&["prog", "a", "b", "c", "d"])).unwrap();
    assert_eq!(paths, Paths { input: String::from("a"), output: String::from("b") });
}

#[test]
fn paths_are_taken_as_given() {
    let paths = select_paths(&argv(&["prog", "", "dir with space/\u{e9}.txt"])).unwrap();
    assert_eq!(paths.input, "");
    assert_eq!(paths.output, "dir with space/\u{e9}.txt");
}

#[test]
fn message_of_each_failure() {
    assert_eq!(CliError::InsufficientArguments.message(), "Not enough arguments");
    assert_eq!(CliError::FileReadError.message(), "Could not read the file");
    assert_eq!(CliError::FileWriteError.message(), "Unable to write file");
}
