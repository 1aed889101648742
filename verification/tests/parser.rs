use regite::config::Output;
use regite::parser::Parser;

fn output(name: &str, value: &str) -> Output {
    Output { name: name.to_string(), value: value.to_string() }
}

#[test]
fn test_simple() {
    let parser = Parser::new("prefix", "(.*)", &vec![output("name", "$1")]).unwrap();

    assert_eq!(
        parser.parse("input"),
        [("prefix.name".to_string(), "input".to_string())]
    );
}

#[test]
fn test_multiple_outputs() {
    let parser = Parser::new(
        "prefix",
        "(\\d+);(\\d+)",
        &vec![output("left", "$1"), output("right", "$2")],
    )
    .unwrap();

    assert_eq!(
        parser.parse("1;2"),
        [
            ("prefix.left".to_string(), "1".to_string()),
            ("prefix.right".to_string(), "2".to_string())
        ]
    );
}

#[test]
fn test_multiple_lines() {
    let parser = Parser::new("prefix", "^(.*)$", &vec![output("line", "$1")]).unwrap();

    assert_eq!(
        parser.parse("line1\nline2"),
        [
            ("prefix.line".to_string(), "line1".to_string()),
            ("prefix.line".to_string(), "line2".to_string())
        ]
    );
}

#[test]
fn test_multiple_lines_multiple_outputs() {
    let parser = Parser::new(
        "prefix",
        "^(\\w+) (\\d+);(\\d+)$",
        &vec![output("$1.left", "$2"), output("$1.right", "$3")],
    )
    .unwrap();

    assert_eq!(
        parser.parse("line1 1;2\nline2 4;3"),
        [
            ("prefix.line1.left".to_string(), "1".to_string()),
            ("prefix.line1.right".to_string(), "2".to_string()),
            ("prefix.line2.left".to_string(), "4".to_string()),
            ("prefix.line2.right".to_string(), "3".to_string())
        ]
    );
}

#[test]
fn test_rejected_pattern() {
    assert!(Parser::new("prefix", "(", &vec![output("name", "$1")]).is_none());
}

#[test]
fn test_no_match_is_empty() {
    let parser = Parser::new("prefix", "(\\d+)", &vec![output("n", "$1")]).unwrap();
    assert_eq!(parser.parse("no digits here"), []);
}
