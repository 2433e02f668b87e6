use refreshers::utils::math::{multiply, subtract};
use refreshers::utils::{format_data, private_helper, Parser};
use refreshers::{get_answer, Library};

#[test]
fn add_two_and_two() {
    assert_eq!(refreshers::utils::math::add(2, 2), 4);
}

#[test]
fn arithmetic_at_the_limits() {
    assert_eq!(refreshers::utils::math::add(i32::MAX, 0), i32::MAX);
    assert_eq!(refreshers::utils::math::add(i32::MIN, i32::MAX), -1);
    assert_eq!(subtract(5, 7), -2);
    assert_eq!(subtract(i32::MIN, 0), i32::MIN);
    assert_eq!(multiply(4, 5), 20);
    assert_eq!(multiply(-3, 7), -21);
    assert_eq!(multiply(i32::MIN, 1), i32::MIN);
}

#[test]
fn format_data_puts_capitals_behind_label() {
    assert_eq!(format_data("abc"), "Formatted: ABC");
    assert_eq!(format_data(""), "Formatted: ");
    assert_eq!(format_data("straße"), "Formatted: STRASSE");
    assert_eq!(refreshers::format_data("x1"), "Formatted: X1");
    assert_eq!(private_helper("Mixed case"), "MIXED CASE");
}

#[test]
fn parser_new_keeps_delimiter_and_is_strict() {
    let parser = Parser::new(';');
    assert_eq!(parser.delimiter, ';');
    assert!(parser.validate());
}

#[test]
fn parser_splits_and_trims() {
    let parser = Parser::new(',');
    assert_eq!(parser.parse("a, b ,c"), vec!["a", "b", "c"]);
    assert_eq!(parser.parse(" one\t"), vec!["one"]);
    assert_eq!(parser.parse("x y , z"), vec!["x y", "z"]);
}

#[test]
fn parser_keeps_empty_pieces() {
    let parser = Parser::new(',');
    assert_eq!(parser.parse(""), vec![""]);
    assert_eq!(parser.parse(","), vec!["", ""]);
    assert_eq!(parser.parse("a,,b,"), vec!["a", "", "b", ""]);
    assert_eq!(parser.parse(" , "), vec!["", ""]);
}

#[test]
fn parser_agrees_with_split_and_trim() {
    for (delimiter, input) in [(',', " a ,b,, c d ,"), ('|', "|x|"), (' ', "a  b"), ('é', "1é 2 é3")] {
        let expected: Vec<String> = input.split(delimiter).map(|s| s.trim().to_string()).collect();
        assert_eq!(Parser::new(delimiter).parse(input), expected);
    }
}

#[test]
fn library_info_joins_name_and_version() {
    assert_eq!(Library::new("verse").info(), "verse v1.0.0");
    assert_eq!(Library::new("").info(), " v1.0.0");
}

#[test]
fn the_answer_is_forty_two() {
    assert_eq!(get_answer(), 42);
}
