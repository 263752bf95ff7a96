use cunzhi::text::{parse_port, same_text, strip_leading};

#[test]
fn parse_port_reads_decimal_numbers() {
    assert_eq!(parse_port("0"), Some(0));
    assert_eq!(parse_port("3000"), Some(3000));
    assert_eq!(parse_port("65535"), Some(65535));
    assert_eq!(parse_port("+8080"), Some(8080));
    assert_eq!(parse_port("007"), Some(7));
}

#[test]
fn parse_port_rejects_everything_else() {
    assert_eq!(parse_port(""), None);
    assert_eq!(parse_port("+"), None);
    assert_eq!(parse_port("65536"), None);
    assert_eq!(parse_port("-5"), None);
    assert_eq!(parse_port("12 "), None);
    assert_eq!(parse_port("1２"), None);
    assert_eq!(parse_port("999999999999999999999999"), None);
}

#[test]
fn strip_leading_removes_the_whole_run() {
    assert_eq!(strip_leading("/a/b", '/'), "a/b");
    assert_eq!(strip_leading("///a//b/", '/'), "a//b/");
    assert_eq!(strip_leading("a/b", '/'), "a/b");
    assert_eq!(strip_leading("////", '/'), "");
    assert_eq!(strip_leading("", '/'), "");
    assert_eq!(strip_leading("/资源/图.png", '/'), "资源/图.png");
    assert_eq!(strip_leading("ééx", 'é'), "x");
}

#[test]
fn strip_leading_agrees_with_the_standard_library() {
    for text in ["", "/", "//", "/x", "x/", "//x//y", "é/", "/é", "\\a", "/\\a"] {
        assert_eq!(strip_leading(text, '/'), text.trim_start_matches('/'));
    }
}

#[test]
fn same_text_compares_characters() {
    assert!(same_text("web", "web"));
    assert!(!same_text("web", "Web"));
    assert!(!same_text("web", "we"));
    assert!(same_text("", ""));
}
