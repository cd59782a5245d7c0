use bgdb::command::{parse_command, Command};

#[test]
fn parse_break_hex_address() {
    let r = parse_command("break 401000").unwrap();
    assert!(matches!(r, Command::BreakAddr(0x401000)));
}

#[test]
fn parse_break_function() {
    match parse_command("break fn:main").unwrap() {
        Command::BreakFunction(name) => assert_eq!(name, "main"),
        other => panic!("expected BreakFunction, got {:?}", other),
    }
}

#[test]
fn parse_break_without_argument_fails() {
    let e = parse_command("break").unwrap_err();
    assert_eq!(e, "'break' command needs argument");
}

#[test]
fn parse_unknown_verb_fails_naming_it() {
    let e = parse_command("frobnicate").unwrap_err();
    assert_eq!(e, "Invalid command: 'frobnicate'");
}

#[test]
fn parse_next_and_cont() {
    assert!(matches!(parse_command("next").unwrap(), Command::Next));
    assert!(matches!(parse_command("cont").unwrap(), Command::Cont));
}

#[test]
fn parse_empty_line_fails() {
    let e = parse_command("").unwrap_err();
    assert_eq!(e, "Invalid command: ''");
}

#[test]
fn parse_break_function_empty_name() {
    match parse_command("break fn:").unwrap() {
        Command::BreakFunction(name) => assert_eq!(name, ""),
        other => panic!("expected BreakFunction, got {:?}", other),
    }
}

#[test]
fn parse_break_bad_digits_fails() {
    let e = parse_command("break xyz").unwrap_err();
    assert_eq!(e, "invalid digit found in string");
}

#[test]
fn parse_break_trailing_space_fails_as_empty_number() {
    let e = parse_command("break ").unwrap_err();
    assert_eq!(e, "cannot parse integer from empty string");
}

#[test]
fn parse_break_plus_sign_accepted() {
    let r = parse_command("break +1f").unwrap();
    assert!(matches!(r, Command::BreakAddr(0x1f)));
}

#[test]
fn parse_break_plus_sign_alone_fails() {
    let e = parse_command("break +").unwrap_err();
    assert_eq!(e, "cannot parse integer from empty string");
}

#[test]
fn parse_break_overflow_fails() {
    let e = parse_command("break 10000000000000000").unwrap_err();
    assert_eq!(e, "number too large to fit in target type");
}

#[test]
fn parse_break_largest_address() {
    let r = parse_command("break ffffffffffffffff").unwrap();
    assert!(matches!(r, Command::BreakAddr(u64::MAX)));
}

#[test]
fn parse_break_file_line_form_is_rejected() {
    let e = parse_command("break main.c:12").unwrap_err();
    assert_eq!(e, "invalid digit found in string");
}

#[test]
fn parse_extra_tokens_after_verb_are_ignored() {
    assert!(matches!(parse_command("next please").unwrap(), Command::Next));
    let r = parse_command("break 10 20").unwrap();
    assert!(matches!(r, Command::BreakAddr(0x10)));
}

#[test]
fn parse_upper_case_hex_accepted() {
    let r = parse_command("break DEADbeef").unwrap();
    assert!(matches!(r, Command::BreakAddr(0xdead_beef)));
}

#[test]
fn parse_break_double_space_sees_empty_argument() {
    let e = parse_command("break  401000").unwrap_err();
    assert_eq!(e, "cannot parse integer from empty string");
}
