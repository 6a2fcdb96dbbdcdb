use gdbloader::error::LoaderError;
use gdbloader::parser::{
    extract_adresses_from_response_line, extract_call_result,
    extract_variable_value_from_response_line, parse_call_value, parse_print_reply,
    parse_restore_reply,
};

fn lines(v: &[&str]) -> Vec<String> {
    v.iter().map(|s| s.to_string()).collect()
}

#[test]
fn address_range_from_restore_line() {
    let r = extract_adresses_from_response_line(
        "Restoring binary file x into memory (0x200b76a8 to 0x200c76a8)",
    );
    assert_eq!(r, Some((0x200b76a8, 0x200c76a8)));
}

#[test]
fn address_range_absent() {
    assert_eq!(extract_adresses_from_response_line("no range on this line"), None);
    assert_eq!(extract_adresses_from_response_line(""), None);
    assert_eq!(extract_adresses_from_response_line("(0x10 to 0x)"), None);
    assert_eq!(extract_adresses_from_response_line("(0x10 to 0x20"), None);
    assert_eq!(extract_adresses_from_response_line("0x10 to 0x20)"), None);
}

#[test]
fn address_range_mixed_case_hex() {
    let r = extract_adresses_from_response_line("into memory (0xABcd to 0xffFF)");
    assert_eq!(r, Some((0xabcd, 0xffff)));
}

#[test]
fn address_range_first_of_two() {
    let r = extract_adresses_from_response_line("(0x1 to 0x2) and (0x3 to 0x4)");
    assert_eq!(r, Some((1, 2)));
}

#[test]
fn address_range_after_false_start() {
    let r = extract_adresses_from_response_line("(0xzz (0x10 to 0x30)");
    assert_eq!(r, Some((0x10, 0x30)));
}

#[test]
fn address_range_too_wide() {
    assert_eq!(extract_adresses_from_response_line("(0x100000000 to 0x1)"), None);
    assert_eq!(
        extract_adresses_from_response_line("(0x00000000ffffffff to 0x0)"),
        Some((0xffff_ffff, 0))
    );
}

#[test]
fn trailing_integer_of_print() {
    assert_eq!(extract_variable_value_from_response_line("$12 = 8228421"), Some(8228421));
}

#[test]
fn trailing_integer_absent() {
    assert_eq!(extract_variable_value_from_response_line("no numbers here"), None);
    assert_eq!(extract_variable_value_from_response_line(""), None);
    assert_eq!(extract_variable_value_from_response_line("   \t "), None);
    assert_eq!(extract_variable_value_from_response_line("$23 = 118 'v'"), None);
    assert_eq!(extract_variable_value_from_response_line("$1 = -5"), None);
    assert_eq!(extract_variable_value_from_response_line("$1 = +"), None);
}

#[test]
fn trailing_integer_forms() {
    assert_eq!(extract_variable_value_from_response_line("42"), Some(42));
    assert_eq!(extract_variable_value_from_response_line("$1 = +7"), Some(7));
    assert_eq!(extract_variable_value_from_response_line("$1 = 4294967295"), Some(u32::MAX));
    assert_eq!(extract_variable_value_from_response_line("$1 = 4294967296"), None);
}

#[test]
fn trailing_integer_after_any_white_space() {
    assert_eq!(extract_variable_value_from_response_line("$1 =\t7"), Some(7));
    assert_eq!(extract_variable_value_from_response_line("$1 = 7 "), Some(7));
    assert_eq!(extract_variable_value_from_response_line("$1 = 7\r\n"), Some(7));
    assert_eq!(extract_variable_value_from_response_line("$1 =\u{3000}12\u{a0}"), Some(12));
    assert_eq!(extract_variable_value_from_response_line("  31  "), Some(31));
}

#[test]
fn call_result_without_return() {
    assert_eq!(extract_call_result(lines(&["$1 = 3"]), false), Ok(String::new()));
    assert_eq!(extract_call_result(vec![], false), Ok(String::new()));
}

#[test]
fn call_result_with_return() {
    assert_eq!(
        extract_call_result(lines(&["$23 = 118 'v'", "other"]), true),
        Ok("$23 = 118 'v'".to_string())
    );
    assert_eq!(extract_call_result(vec![], true), Err(LoaderError::NoReturnValue));
}

#[test]
fn restore_reply_byte_count() {
    let reply = lines(&[
        "Restoring binary file /tmp/chunk_0_.bin into memory (0x200b76a8 to 0x200c76a8)",
    ]);
    assert_eq!(parse_restore_reply(&reply), Ok(0x10000));
    assert_eq!(parse_restore_reply(&vec![]), Err(LoaderError::MalformedResponse));
    assert_eq!(
        parse_restore_reply(&lines(&["Restoring nothing"])),
        Err(LoaderError::MalformedResponse)
    );
    assert_eq!(
        parse_restore_reply(&lines(&["(0x20 to 0x10)"])),
        Err(LoaderError::MalformedResponse)
    );
}

#[test]
fn print_reply_value() {
    assert_eq!(parse_print_reply(&lines(&["$12 = 8228421"])), Ok(8228421));
    assert_eq!(parse_print_reply(&vec![]), Err(LoaderError::MalformedResponse));
    assert_eq!(
        parse_print_reply(&lines(&["No symbol \"x\" in current context."])),
        Err(LoaderError::MalformedResponse)
    );
}

#[test]
fn call_reply_value() {
    assert_eq!(parse_call_value(lines(&["$3 = 261"]), true), Ok(261));
    assert_eq!(parse_call_value(vec![], true), Err(LoaderError::NoReturnValue));
    assert_eq!(parse_call_value(lines(&["$3 = 261"]), false), Err(LoaderError::MalformedResponse));
    assert_eq!(parse_call_value(lines(&["garbage"]), true), Err(LoaderError::MalformedResponse));
}
