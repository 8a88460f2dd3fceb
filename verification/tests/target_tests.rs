use code_wrapper::CodeError;
use code_wrapper::QueryMode;
use code_wrapper::Target;

fn function_of(t: &Target) -> Option<String> {
    t.function_name().clone()
}

fn type_of(t: &Target) -> Option<String> {
    t.ty_name().clone()
}

#[test]
fn parse_single_type() {
    let t = Target::parse("Foo").unwrap();
    assert_eq!(type_of(&t), Some(String::from("Foo")));
    assert_eq!(function_of(&t), None);
    assert_eq!(t.query_mode(), QueryMode::Types);
}

#[test]
fn parse_single_function() {
    let t = Target::parse("bar()").unwrap();
    assert_eq!(function_of(&t), Some(String::from("bar")));
    assert_eq!(type_of(&t), None);
    assert_eq!(t.query_mode(), QueryMode::Functions);
}

#[test]
fn parse_method() {
    let t = Target::parse("Foo.Bar()").unwrap();
    assert_eq!(type_of(&t), Some(String::from("Foo")));
    assert_eq!(function_of(&t), Some(String::from("Bar")));
    assert_eq!(t.query_mode(), QueryMode::Methods);
}

#[test]
fn parse_empty_fails() {
    let e = Target::parse("").unwrap_err();
    assert!(matches!(e, CodeError::TargetCanNotBeEmpty));
}

#[test]
fn parse_whitespace_only_fails() {
    let e = Target::parse("  \t\n ").unwrap_err();
    assert!(matches!(e, CodeError::TargetCanNotBeEmpty));
}

#[test]
fn parse_trims_whitespace() {
    let t = Target::parse("  Foo.Bar()  ").unwrap();
    assert_eq!(type_of(&t), Some(String::from("Foo")));
    assert_eq!(function_of(&t), Some(String::from("Bar")));
}

#[test]
fn parse_trims_unicode_whitespace() {
    let t = Target::parse("\u{a0}\u{2003}Foo.Bar()\u{a0} ").unwrap();
    assert_eq!(type_of(&t), Some(String::from("Foo")));
    assert_eq!(function_of(&t), Some(String::from("Bar")));
}

#[test]
fn parse_keeps_last_two_segments() {
    let t = Target::parse("pkg.Foo.Bar()").unwrap();
    assert_eq!(type_of(&t), Some(String::from("Foo")));
    assert_eq!(function_of(&t), Some(String::from("Bar")));

    let t = Target::parse("a.b.c.d").unwrap();
    assert_eq!(type_of(&t), Some(String::from("c")));
    assert_eq!(function_of(&t), Some(String::from("d")));
}

#[test]
fn parse_dotted_without_marker_is_method() {
    let t = Target::parse("Foo.Bar").unwrap();
    assert_eq!(type_of(&t), Some(String::from("Foo")));
    assert_eq!(function_of(&t), Some(String::from("Bar")));
    assert_eq!(t.query_mode(), QueryMode::Methods);
}

#[test]
fn parse_strips_repeated_markers() {
    let t = Target::parse("bar()()").unwrap();
    assert_eq!(function_of(&t), Some(String::from("bar")));
    assert_eq!(type_of(&t), None);
}

#[test]
fn parse_marker_alone_fails() {
    let e = Target::parse("()").unwrap_err();
    assert!(matches!(e, CodeError::TargetCanNotBeEmpty));
}

#[test]
fn constructors() {
    let m = Target::new_method("Point", "Dist");
    assert_eq!(m.query_mode(), QueryMode::Methods);
    assert_eq!(type_of(&m), Some(String::from("Point")));
    assert_eq!(function_of(&m), Some(String::from("Dist")));
    assert!(m.is_typed());

    let f = Target::new_function("greet");
    assert_eq!(f.query_mode(), QueryMode::Functions);
    assert_eq!(function_of(&f), Some(String::from("greet")));
    assert!(!f.is_typed());

    let c = Target::new_class("Point");
    assert_eq!(c.query_mode(), QueryMode::Types);
    assert_eq!(type_of(&c), Some(String::from("Point")));
    assert!(c.is_typed());
}

#[test]
fn display_renders_canonically() {
    assert_eq!(Target::new_method("Foo", "Bar").display_string(), "Foo.Bar()");
    assert_eq!(Target::new_function("bar").display_string(), "bar()");
    assert_eq!(Target::new_class("Foo").display_string(), "Foo");
}

#[test]
fn parse_display_round_trip() {
    for s in ["Foo", "bar()", "Foo.Bar()"] {
        let t = Target::parse(s).unwrap();
        assert_eq!(t.display_string(), s);
    }
}

#[test]
fn vars_supply_function_and_receiver() {
    let vars = Target::new_method("Point", "Dist").vars();
    assert_eq!(
        vars,
        vec![
            (String::from("function"), String::from("Dist")),
            (String::from("receiver"), String::from("Point")),
        ]
    );

    let vars = Target::new_function("greet").vars();
    assert_eq!(vars, vec![(String::from("function"), String::from("greet"))]);

    let vars = Target::new_class("Point").vars();
    assert_eq!(vars, vec![(String::from("receiver"), String::from("Point"))]);
}

#[test]
fn update_query_substitutes() {
    let t = Target::new_method("Point", "Dist");
    let q = t.update_query("name: {receiver} method: {function}").unwrap();
    assert_eq!(q, "name: Point method: Dist");

    // A template with no placeholder passes through unchanged.
    let q = t.update_query("(function_declaration)").unwrap();
    assert_eq!(q, "(function_declaration)");
}

#[test]
fn update_query_missing_variable_fails() {
    let t = Target::new_function("greet");
    let e = t.update_query("class {receiver}").unwrap_err();
    assert!(matches!(e, CodeError::QueryPopulationError(_)));
}

#[test]
fn parse_keeps_empty_segments() {
    let t = Target::parse("a..b()").unwrap();
    assert_eq!(type_of(&t), Some(String::from("")));
    assert_eq!(function_of(&t), Some(String::from("b")));
}

#[test]
fn error_messages() {
    assert_eq!(
        CodeError::TargetCanNotBeEmpty.message(),
        "expected to have a type or a function, but got none"
    );
    assert_eq!(CodeError::TSParseError.message(), "tree-sitter parse failed");
    assert_eq!(
        CodeError::QueryPopulationError(String::from("key absent")).message(),
        "query population failed: key absent"
    );
    assert_eq!(
        CodeError::FileReadError(String::from("denied")).message(),
        "failed to read the file: denied"
    );
    assert_eq!(
        CodeError::FileNotFound(String::from("a/b.go")).message(),
        "file not found: a/b.go"
    );
}
