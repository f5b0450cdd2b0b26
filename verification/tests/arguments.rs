use busb::args::{parse_args, parse_args_advanced, usage_lines};
use busb::errors::HelpMessage;

fn argv(words: &[&str]) -> Vec<String> {
    words.iter().map(|w| String::from(*w)).collect()
}

#[test]
fn two_positional_arguments() {
    let parsed = parse_args_advanced(&argv(&["busb", "src.txt", "dst.txt"])).unwrap();
    assert_eq!(parsed.source_path, "src.txt");
    assert_eq!(parsed.destination, "dst.txt");
    assert_eq!(parsed.os_target, "");
    assert!(!parsed.executable);
    assert!(!parsed.d_flag);
    assert!(!parsed.m_flag);
}

#[test]
fn later_positionals_move_the_destination() {
    let parsed = parse_args_advanced(&argv(&["busb", "a", "b", "c"])).unwrap();
    assert_eq!(parsed.source_path, "a");
    assert_eq!(parsed.destination, "c");
}

#[test]
fn os_flag_keeps_its_spelling() {
    let parsed = parse_args_advanced(&argv(&["busb", "-o", "Unix", "s", "d"])).unwrap();
    assert_eq!(parsed.os_target, "Unix");
    assert_eq!(parsed.source_path, "s");
    assert_eq!(parsed.destination, "d");
}

#[test]
fn execute_flag() {
    let parsed = parse_args_advanced(&argv(&["busb", "-x", "s", "d"])).unwrap();
    assert!(parsed.executable);
}

#[test]
fn directory_flag_takes_source_and_destination() {
    let parsed = parse_args_advanced(&argv(&["busb", "-d", "srcdir", "out.txt"])).unwrap();
    assert!(parsed.d_flag);
    assert!(!parsed.m_flag);
    assert_eq!(parsed.source_path, "srcdir");
    assert_eq!(parsed.destination, "out.txt");
}

#[test]
fn multi_flag_takes_source_and_destination() {
    let parsed = parse_args_advanced(&argv(&["busb", "-m", "srcdir", "outdir"])).unwrap();
    assert!(parsed.m_flag);
    assert!(!parsed.d_flag);
    assert_eq!(parsed.source_path, "srcdir");
    assert_eq!(parsed.destination, "outdir");
}

#[test]
fn multi_flag_consumes_the_next_word_blindly() {
    let parsed = parse_args_advanced(&argv(&["busb", "-m", "-d", "y"])).unwrap();
    assert!(parsed.m_flag);
    assert_eq!(parsed.source_path, "-d");
    assert_eq!(parsed.destination, "y");
}

#[test]
fn too_few_arguments() {
    assert!(matches!(
        parse_args_advanced(&argv(&["busb", "only"])),
        Err(HelpMessage::NotEnoughArgs)
    ));
}

#[test]
fn os_flag_without_value() {
    assert!(matches!(
        parse_args_advanced(&argv(&["busb", "a", "-o"])),
        Err(HelpMessage::MissingFlagO)
    ));
}

#[test]
fn directory_flag_without_value() {
    assert!(matches!(
        parse_args_advanced(&argv(&["busb", "a", "-d"])),
        Err(HelpMessage::NoValueForFlagD)
    ));
}

#[test]
fn multi_flag_without_value() {
    assert!(matches!(
        parse_args_advanced(&argv(&["busb", "a", "-m"])),
        Err(HelpMessage::NoValueForFlagM)
    ));
}

#[test]
fn directory_flag_without_destination() {
    assert!(matches!(
        parse_args_advanced(&argv(&["busb", "-d", "srcdir"])),
        Err(HelpMessage::NoDestinationSpecified)
    ));
}

#[test]
fn multi_flag_without_destination() {
    assert!(matches!(
        parse_args_advanced(&argv(&["busb", "-m", "srcdir"])),
        Err(HelpMessage::NoDestinationSpecified)
    ));
}

#[test]
fn positional_parse_defaults_to_windows() {
    let (os, src, dst) = parse_args(&argv(&["busb", "s.sh", "d.txt"])).unwrap();
    assert_eq!(os, "windows");
    assert_eq!(src, "s.sh");
    assert_eq!(dst, "d.txt");
}

#[test]
fn positional_parse_with_os_choice() {
    let (os, src, dst) = parse_args(&argv(&["busb", "-o", "Unix", "s.sh", "d.txt"])).unwrap();
    assert_eq!(os, "Unix");
    assert_eq!(src, "s.sh");
    assert_eq!(dst, "d.txt");
}

#[test]
fn positional_parse_complaints() {
    assert_eq!(
        parse_args(&argv(&["busb", "one"])),
        Err(String::from("Need minimum 2 arguments, see above instructions."))
    );
    assert_eq!(
        parse_args(&argv(&["busb", "a", "b", "c"])),
        Err(String::from("3 arguments not possible, see above instructions."))
    );
    assert_eq!(
        parse_args(&argv(&["busb", "-o", "mac", "s", "d"])),
        Err(String::from(
            "OS type for -o not recongnized. Only 'Unix' & 'Windows' are valid. Case insensitive."
        ))
    );
    assert_eq!(
        parse_args(&argv(&["busb", "x", "y", "s", "d"])),
        Err(String::from("Illegal arguments, check usage above."))
    );
    assert_eq!(
        parse_args(&argv(&["busb", "a", "b", "c", "d", "e"])),
        Err(String::from("Too many arguments, see above instructions."))
    );
}

#[test]
fn usage_text() {
    let lines = usage_lines();
    assert_eq!(lines.len(), 8);
    assert_eq!(lines[0], "USAGE: busb [source_file] [destination_file]");
    assert_eq!(lines[5], "  busb my_test.sh my_new_file.txt");
}
