use error_code::text::format_in_brackets;
use error_code::text::render;
use error_code::AppStatus;

#[test]
fn parses_plain_decimal_literals() {
    assert_eq!(<u16 as AppStatus>::parse_status("404"), Some(404u16));
    assert_eq!(<u16 as AppStatus>::parse_status("500"), Some(500u16));
    assert_eq!(<u16 as AppStatus>::parse_status("0"), Some(0u16));
    assert_eq!(<u16 as AppStatus>::parse_status("65535"), Some(65535u16));
}

#[test]
fn accepts_leading_zeros() {
    assert_eq!(<u16 as AppStatus>::parse_status("0042"), Some(42u16));
}

#[test]
fn rejects_literals_that_are_not_a_status() {
    assert_eq!(<u16 as AppStatus>::parse_status(""), None);
    assert_eq!(<u16 as AppStatus>::parse_status("12a"), None);
    assert_eq!(<u16 as AppStatus>::parse_status("-1"), None);
    assert_eq!(<u16 as AppStatus>::parse_status("+1"), None);
    assert_eq!(<u16 as AppStatus>::parse_status("4 04"), None);
    assert_eq!(<u16 as AppStatus>::parse_status("65536"), None);
    assert_eq!(<u16 as AppStatus>::parse_status("999999999999999999999"), None);
}

#[test]
fn reparsing_yields_the_same_value() {
    let first = <u16 as AppStatus>::parse_status("404");
    let second = <u16 as AppStatus>::parse_status("404");
    assert_eq!(first, second);
}

#[test]
fn render_replaces_the_first_placeholder() {
    assert_eq!(render("Item {} Not found", "item42"), "Item item42 Not found");
    assert_eq!(render("{} first", "only"), "only first");
    assert_eq!(render("tail {}", "end"), "tail end");
    assert_eq!(render("a{}{}", "X"), "aX{}");
}

#[test]
fn render_keeps_a_template_without_placeholder() {
    assert_eq!(render("no placeholder", "payload"), "no placeholder");
    assert_eq!(render("", "payload"), "");
    assert_eq!(render("{", "payload"), "{");
    assert_eq!(render("}{", "payload"), "}{");
}

#[test]
fn bracket_format_is_exact() {
    assert_eq!(format_in_brackets("0ANF", "msg"), "[0ANF] msg");
    assert_eq!(format_in_brackets("", ""), "[] ");
}
