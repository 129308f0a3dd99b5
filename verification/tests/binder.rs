use payload_shell::binder::{bind, check_token, count_required, BindError};
use payload_shell::models::config_file::{ArgKind, ConfigArguments};

fn argument(name: &str, kind: &str, optional: bool) -> ConfigArguments {
    ConfigArguments {
        name: name.to_string(),
        kind: kind.to_string(),
        desc: String::new(),
        optional,
    }
}

fn tokens(items: &[&str]) -> Vec<String> {
    items.iter().map(|t| t.to_string()).collect()
}

#[test]
fn kind_of_a_type_name() {
    assert_eq!(argument("a", "str", false).arg_kind(), ArgKind::Str);
    assert_eq!(argument("a", "wstr", false).arg_kind(), ArgKind::Wstr);
    assert_eq!(argument("a", "int", false).arg_kind(), ArgKind::Int);
    assert_eq!(argument("a", "short", false).arg_kind(), ArgKind::Short);
    assert_eq!(argument("a", "bin", false).arg_kind(), ArgKind::Other);
    assert_eq!(argument("a", "Str", false).arg_kind(), ArgKind::Other);
    assert_eq!(argument("a", "", false).arg_kind(), ArgKind::Other);
}

#[test]
fn required_arguments_are_counted() {
    let schema = vec![
        argument("a", "int", false),
        argument("b", "int", true),
        argument("c", "int", false),
    ];
    assert_eq!(count_required(&schema), 2);
    assert_eq!(count_required(&Vec::new()), 0);
}

#[test]
fn one_token_for_two_required_arguments_is_insufficient() {
    let schema = vec![
        argument("host", "str", false),
        argument("port", "int", false),
        argument("delay", "int", true),
    ];
    assert_eq!(
        bind(&schema, &tokens(&["\"localhost\""])),
        Err(BindError::InsufficientArguments)
    );
}

#[test]
fn arity_is_checked_before_any_value() {
    let schema = vec![argument("host", "str", false), argument("port", "int", false)];
    assert_eq!(bind(&schema, &tokens(&["bad"])), Err(BindError::InsufficientArguments));
}

#[test]
fn unquoted_digits_are_no_string() {
    let schema = vec![argument("name", "str", false)];
    assert_eq!(
        bind(&schema, &tokens(&["5"])),
        Err(BindError::InvalidValue("name".to_string()))
    );
}

#[test]
fn quoted_digits_are_no_string_either() {
    let schema = vec![argument("name", "str", false)];
    assert_eq!(
        bind(&schema, &tokens(&["\"5\""])),
        Err(BindError::InvalidValue("name".to_string()))
    );
    assert_eq!(
        bind(&schema, &tokens(&["\"-12\""])),
        Err(BindError::InvalidValue("name".to_string()))
    );
    assert_eq!(
        bind(&schema, &tokens(&["\"+9223372036854775807\""])),
        Err(BindError::InvalidValue("name".to_string()))
    );
}

#[test]
fn quoted_text_that_is_no_64_bit_integer_is_a_string() {
    let schema = vec![argument("name", "wstr", false)];
    assert_eq!(bind(&schema, &tokens(&["\"5a\""])), Ok(tokens(&["5a"])));
    assert_eq!(
        bind(&schema, &tokens(&["\"9223372036854775808\""])),
        Ok(tokens(&["9223372036854775808"]))
    );
    assert_eq!(bind(&schema, &tokens(&["\"-\""])), Ok(tokens(&["-"])));
    assert_eq!(bind(&schema, &tokens(&["\" 5\""])), Ok(tokens(&[" 5"])));
    assert_eq!(bind(&schema, &tokens(&["\"\u{e9}\""])), Ok(tokens(&["\u{e9}"])));
}

#[test]
fn a_string_needs_both_quotes_and_something_between() {
    assert_eq!(check_token(ArgKind::Str, "\"\""), None);
    assert_eq!(check_token(ArgKind::Str, "\""), None);
    assert_eq!(check_token(ArgKind::Str, ""), None);
    assert_eq!(check_token(ArgKind::Str, "\"ab"), None);
    assert_eq!(check_token(ArgKind::Str, "ab\""), None);
    assert_eq!(check_token(ArgKind::Str, "abc"), None);
    assert_eq!(check_token(ArgKind::Str, "\"\u{e9}"), None);
    assert_eq!(check_token(ArgKind::Str, "\"a\""), Some("a".to_string()));
    assert_eq!(check_token(ArgKind::Wstr, "\"\"\""), Some("\"".to_string()));
}

#[test]
fn an_int_fits_32_bits() {
    assert_eq!(check_token(ArgKind::Int, "2147483647"), Some("2147483647".to_string()));
    assert_eq!(check_token(ArgKind::Int, "-2147483648"), Some("-2147483648".to_string()));
    assert_eq!(check_token(ArgKind::Int, "+7"), Some("+7".to_string()));
    assert_eq!(check_token(ArgKind::Int, "007"), Some("007".to_string()));
    assert_eq!(check_token(ArgKind::Int, "2147483648"), None);
    assert_eq!(check_token(ArgKind::Int, "-2147483649"), None);
    assert_eq!(check_token(ArgKind::Int, ""), None);
    assert_eq!(check_token(ArgKind::Int, "-"), None);
    assert_eq!(check_token(ArgKind::Int, "+"), None);
    assert_eq!(check_token(ArgKind::Int, "1 "), None);
    assert_eq!(check_token(ArgKind::Int, "1_000"), None);
    assert_eq!(check_token(ArgKind::Int, "0x10"), None);
    assert_eq!(check_token(ArgKind::Int, "\"5\""), None);
}

#[test]
fn a_short_fits_16_bits() {
    assert_eq!(check_token(ArgKind::Short, "32767"), Some("32767".to_string()));
    assert_eq!(check_token(ArgKind::Short, "-32768"), Some("-32768".to_string()));
    assert_eq!(check_token(ArgKind::Short, "32768"), None);
    assert_eq!(check_token(ArgKind::Short, "-32769"), None);
    assert_eq!(check_token(ArgKind::Short, "99999999999999999999999999"), None);
}

#[test]
fn any_other_kind_takes_the_token_as_it_is() {
    assert_eq!(check_token(ArgKind::Other, "\"5\""), Some("\"5\"".to_string()));
    assert_eq!(check_token(ArgKind::Other, ""), Some(String::new()));
    let schema = vec![argument("blob", "bin", false)];
    assert_eq!(bind(&schema, &tokens(&["anything"])), Ok(tokens(&["anything"])));
}

#[test]
fn the_packing_example_binds() {
    let schema = vec![argument("path", "wstr", false), argument("delay", "int", true)];
    assert_eq!(
        bind(&schema, &tokens(&["\"C:\\\"", "5005"])),
        Ok(tokens(&["C:\\", "5005"]))
    );
}

#[test]
fn a_missing_optional_value_is_an_error_of_its_own() {
    let schema = vec![argument("path", "wstr", false), argument("delay", "int", true)];
    assert_eq!(
        bind(&schema, &tokens(&["\"C:\\\""])),
        Err(BindError::MissingOptionalArgument("delay".to_string()))
    );
}

#[test]
fn the_first_argument_without_a_value_decides() {
    let schema = vec![
        argument("a", "int", false),
        argument("b", "short", false),
        argument("c", "str", false),
    ];
    assert_eq!(
        bind(&schema, &tokens(&["1", "70000", "plain"])),
        Err(BindError::InvalidValue("b".to_string()))
    );
    let optional = vec![argument("a", "int", true), argument("b", "int", true)];
    assert_eq!(
        bind(&optional, &tokens(&["x"])),
        Err(BindError::InvalidValue("a".to_string()))
    );
    assert_eq!(
        bind(&optional, &Vec::new()),
        Err(BindError::MissingOptionalArgument("a".to_string()))
    );
}

#[test]
fn tokens_beyond_the_schema_are_ignored() {
    let schema = vec![argument("a", "int", false)];
    assert_eq!(bind(&schema, &tokens(&["1", "junk", "more"])), Ok(tokens(&["1"])));
    assert_eq!(bind(&Vec::new(), &tokens(&["junk"])), Ok(Vec::new()));
    assert_eq!(bind(&Vec::new(), &Vec::new()), Ok(Vec::new()));
}
