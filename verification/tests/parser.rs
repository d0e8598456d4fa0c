use buildkit::dependency_parser::{parse, render_manifest};
use buildkit::BuildError;

#[test]
fn test_parse() {
    let txt = "depedencies: /Users/drew/Code/winspike/metal-build/tests/test.metal \\\n  /Users/drew/Code/winspike/metal-build/tests/example1.h \\\n  /Users/drew/Code/winspike/metal-build/tests/example\\ 2.h";
    let deps = parse(txt).unwrap();
    assert_eq!(deps[0], "/Users/drew/Code/winspike/metal-build/tests/test.metal");
    assert_eq!(deps[1], "/Users/drew/Code/winspike/metal-build/tests/example1.h");
    assert_eq!(deps[2], "/Users/drew/Code/winspike/metal-build/tests/example 2.h");
    assert_eq!(deps.len(), 3);
}

#[test]
fn test_escaped() {
    let txt = r"C:\\path\\file.spirv: C:\\path\\file.o";
    let _ = parse(txt).unwrap();
}

#[test]
fn parse_short_continuation_example() {
    let deps = parse("depedencies: /a/test.metal \\\n  /a/example1.h \\\n  /a/example\\ 2.h")
        .unwrap();
    assert_eq!(
        deps,
        vec![
            String::from("/a/test.metal"),
            String::from("/a/example1.h"),
            String::from("/a/example 2.h"),
        ]
    );
    assert_eq!(deps.len(), 3);
}

#[test]
fn parse_doubled_backslashes() {
    // The first `:` ends the target, so the rest of the first path is the
    // first prerequisite; every doubled backslash is a valid escape.
    let deps = parse(r"C:\\path\\file.spirv: C:\\path\\file.o").unwrap();
    assert_eq!(
        deps,
        vec![String::from(r"\path\file.spirv:"), String::from(r"C:\path\file.o")]
    );
}

#[test]
fn parse_rejects_lone_backslash() {
    let r = parse(r"target: a\qb.h");
    assert!(matches!(r, Err(BuildError::InvalidEscape('q'))));
}

#[test]
fn parse_escaped_space_and_backslash_inside_token() {
    let deps = parse(r"t: one\ two three\\four").unwrap();
    assert_eq!(deps, vec![String::from("one two"), String::from(r"three\four")]);
}

#[test]
fn parse_without_prerequisites_yields_one_empty_token() {
    let deps = parse("target:").unwrap();
    assert_eq!(deps, vec![String::new()]);
}

#[test]
fn parse_collapses_consecutive_spaces() {
    let deps = parse("t: a.h    b.h").unwrap();
    assert_eq!(deps, vec![String::from("a.h"), String::from("b.h")]);
}

#[test]
fn render_then_parse_round_trip() {
    let deps = vec![
        String::from("/a/test.metal"),
        String::from("/a/example 2.h"),
        String::from(r"C:\path\file.o"),
    ];
    let rendered = render_manifest(&deps);
    assert_eq!(rendered, r": /a/test.metal /a/example\ 2.h C:\\path\\file.o");
    let reparsed = parse(&rendered).unwrap();
    assert_eq!(reparsed, deps);
}

#[test]
fn render_then_parse_round_trip_twice_is_stable() {
    let first = parse("deps: x.h y\\ z.h").unwrap();
    let second = parse(&render_manifest(&first)).unwrap();
    let third = parse(&render_manifest(&second)).unwrap();
    assert_eq!(first, second);
    assert_eq!(second, third);
}
