use qpmu::protocol::{error_line, join_causes, parse_startup_line};
use qpmu::{ErrorChain, StartupLine};

fn strings(v: &[&str]) -> Vec<String> {
    v.iter().map(|s| s.to_string()).collect()
}

#[test]
fn causes_are_joined_by_newlines() {
    assert_eq!(join_causes(&strings(&["outer", "middle", "inner"])), "outer\nmiddle\ninner");
    assert_eq!(join_causes(&strings(&["only"])), "only");
    assert_eq!(join_causes(&Vec::new()), "");
}

#[test]
fn error_line_prefixes_chain() {
    assert_eq!(error_line(&strings(&["missing sqlite url as first argument"])), "ERROR:missing sqlite url as first argument");
    assert_eq!(error_line(&strings(&["a", "b"])), "ERROR:a\nb");
}

#[test]
fn context_adds_outermost_cause() {
    let e = ErrorChain::msg("entity not found".to_string()).context("spawning ls".to_string());
    assert_eq!(e.causes, strings(&["spawning ls", "entity not found"]));
    assert_eq!(e.flatten(), "spawning ls\nentity not found");
}

#[test]
fn port_line_is_parsed() {
    assert_eq!(parse_startup_line(&"PORT:50051".to_string()), StartupLine::Port(50051));
    assert_eq!(parse_startup_line(&"PORT:0".to_string()), StartupLine::Port(0));
    assert_eq!(parse_startup_line(&"PORT:65535".to_string()), StartupLine::Port(65535));
    assert_eq!(parse_startup_line(&"PORT:007".to_string()), StartupLine::Port(7));
}

#[test]
fn bad_port_lines_are_unrecognized() {
    assert_eq!(parse_startup_line(&"PORT:65536".to_string()), StartupLine::Unrecognized);
    assert_eq!(parse_startup_line(&"PORT:".to_string()), StartupLine::Unrecognized);
    assert_eq!(parse_startup_line(&"PORT:12a".to_string()), StartupLine::Unrecognized);
    assert_eq!(parse_startup_line(&"PORT:99999999999".to_string()), StartupLine::Unrecognized);
    assert_eq!(parse_startup_line(&"port:80".to_string()), StartupLine::Unrecognized);
    assert_eq!(parse_startup_line(&"".to_string()), StartupLine::Unrecognized);
}

#[test]
fn error_line_is_parsed() {
    assert_eq!(parse_startup_line(&"ERROR:bad config\nmissing key".to_string()), StartupLine::Error("bad config\nmissing key".to_string()));
    assert_eq!(parse_startup_line(&"ERROR:".to_string()), StartupLine::Error(String::new()));
}
