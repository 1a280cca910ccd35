use dori::console::classify;
use dori::console::is_blank;
use dori::console::parse_command;
use dori::console::same_text;
use dori::console::validate_file_dest;
use dori::console::ConsoleCommand;
use dori::console::DestinationCheck;

#[test]
fn same_text_compares_character_for_character() {
    assert!(same_text("", ""));
    assert!(same_text("ping", "ping"));
    assert!(same_text("h\u{e9}", "h\u{e9}"));
    assert!(!same_text("ping", "pin"));
    assert!(!same_text("ping", "pong"));
    assert!(!same_text("ping", "Ping"));
    assert!(!same_text("", " "));
}

#[test]
fn blank_lines() {
    assert!(is_blank(""));
    assert!(is_blank(" "));
    assert!(is_blank(" \t\r\n"));
    assert!(is_blank("\u{3000}\u{a0}"));
    assert!(!is_blank("a"));
    assert!(!is_blank("  a  "));
    assert!(!is_blank("\0"));
}

#[test]
fn commands_are_matched_letter_for_letter() {
    assert_eq!(parse_command("upload"), ConsoleCommand::Upload);
    assert_eq!(parse_command("ping"), ConsoleCommand::Ping);
    assert_eq!(parse_command(""), ConsoleCommand::Blank);
    assert_eq!(parse_command("   "), ConsoleCommand::Blank);
    assert_eq!(parse_command("\t"), ConsoleCommand::Blank);
    assert_eq!(parse_command("Ping"), ConsoleCommand::Unrecognized);
    assert_eq!(parse_command("ping "), ConsoleCommand::Unrecognized);
    assert_eq!(parse_command(" upload"), ConsoleCommand::Unrecognized);
    assert_eq!(parse_command("download"), ConsoleCommand::Unrecognized);
    assert_eq!(parse_command("upload file"), ConsoleCommand::Unrecognized);
}

#[test]
fn classify_goes_by_the_flag_first() {
    assert_eq!(classify("ping", true), ConsoleCommand::Blank);
    assert_eq!(classify("ping", false), ConsoleCommand::Ping);
    assert_eq!(classify("upload", false), ConsoleCommand::Upload);
    assert_eq!(classify("", false), ConsoleCommand::Unrecognized);
}

#[test]
fn destination_with_an_extension_goes_ahead() {
    assert_eq!(validate_file_dest(true, None), DestinationCheck::Proceed);
    assert_eq!(validate_file_dest(true, Some("n")), DestinationCheck::Proceed);
}

#[test]
fn destination_without_an_extension_is_asked_about() {
    assert_eq!(validate_file_dest(false, None), DestinationCheck::Ask);
    assert_eq!(validate_file_dest(false, Some("y")), DestinationCheck::Proceed);
    assert_eq!(validate_file_dest(false, Some("Y")), DestinationCheck::Proceed);
    assert_eq!(validate_file_dest(false, Some("n")), DestinationCheck::Cancel);
    assert_eq!(validate_file_dest(false, Some("N")), DestinationCheck::Cancel);
    assert_eq!(validate_file_dest(false, Some("")), DestinationCheck::Ask);
    assert_eq!(validate_file_dest(false, Some("yes")), DestinationCheck::Ask);
    assert_eq!(validate_file_dest(false, Some("no")), DestinationCheck::Ask);
    assert_eq!(validate_file_dest(false, Some(" y")), DestinationCheck::Ask);
}
