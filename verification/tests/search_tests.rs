use code_wrapper::Driver;
use code_wrapper::Lang;
use code_wrapper::Target;

const GO_SAMPLE: &str = r#"package main

// a point
type Point struct{}

// Dist on a pointer receiver
func (p *Point) Dist() int {
	return 1
}

type Line struct{}

// Dist on a value receiver of another type
func (l Line) Dist() int {
	return 2
}

func greet() int {
	return 3
}
"#;

#[test]
fn go_type_with_comment() {
    let lang = Lang::go();
    let target = Target::new_class("Point");
    let matches = lang.find_in(&target, GO_SAMPLE).unwrap();
    assert_eq!(matches.len(), 1);
    let (definition, documentation) = &matches[0];
    assert!(definition.contains("struct"));
    assert_eq!(definition, "type Point struct{}");
    assert_eq!(documentation, "// a point");
}

#[test]
fn go_method_receiver_is_exact() {
    let lang = Lang::go();
    let target = Target::new_method("Point", "Dist");
    let matches = lang.find_in(&target, GO_SAMPLE).unwrap();
    // Only the pointer-receiver Dist on Point; the value-receiver Dist on
    // Line does not qualify.
    assert_eq!(matches.len(), 1);
    assert!(matches[0].0.contains("*Point"));
    assert_eq!(matches[0].1, "// Dist on a pointer receiver");
}

#[test]
fn go_function_without_comment_has_empty_documentation() {
    let lang = Lang::go();
    let target = Target::new_function("greet");
    let matches = lang.find_in(&target, GO_SAMPLE).unwrap();
    assert_eq!(matches.len(), 1);
    assert_eq!(matches[0].0, "func greet() int {\n\treturn 3\n}");
    assert_eq!(matches[0].1, "");
}

#[test]
fn find_in_is_idempotent() {
    let lang = Lang::go();
    for target in [
        Target::new_class("Point"),
        Target::new_method("Point", "Dist"),
        Target::new_function("greet"),
    ] {
        let first = lang.find_in(&target, GO_SAMPLE).unwrap();
        let second = lang.find_in(&target, GO_SAMPLE).unwrap();
        assert_eq!(first, second);
    }
}

#[test]
fn find_in_no_match_is_empty() {
    let lang = Lang::go();
    let matches = lang.find_in(&Target::new_class("Absent"), GO_SAMPLE).unwrap();
    assert!(matches.is_empty());
}

#[test]
fn accepts_is_extension_exact() {
    let lang = Lang::go();
    assert!(lang.accepts("main.go"));
    assert!(lang.accepts("dir/sub/main.go"));
    // Same extension in a different case is rejected.
    assert!(!lang.accepts("main.GO"));
    assert!(!lang.accepts("main.Go"));
    // A trailing suffix is rejected.
    assert!(!lang.accepts("main.gox"));
    // No extension at all.
    assert!(!lang.accepts("go"));
    assert!(!lang.accepts("main"));
    // A dot leading the file name does not open an extension.
    assert!(!lang.accepts(".go"));
    // A dot only in a directory name does not count.
    assert!(!lang.accepts("v1.go/main"));
}

#[test]
fn fetch_unsupported_extension_is_empty_and_no_error() {
    let driver = Driver::new();
    let r = driver.fetch(&Target::new_class("Point"), "notes.txt", GO_SAMPLE);
    assert_eq!(r.unwrap(), Vec::new());
    let r = driver.fetch(&Target::new_class("Point"), "main", GO_SAMPLE);
    assert_eq!(r.unwrap(), Vec::new());
}

#[test]
fn fetch_dispatches_on_extension() {
    let driver = Driver::new();
    let matches = driver.fetch(&Target::new_class("Point"), "src/geo.go", GO_SAMPLE).unwrap();
    assert_eq!(matches.len(), 1);
    assert_eq!(matches[0].1, "// a point");

    let py = "# a greeter\ndef greet():\n    return 3\n";
    let matches = driver.fetch(&Target::new_function("greet"), "pkg/mod.py", py).unwrap();
    assert_eq!(matches.len(), 1);
    assert_eq!(matches[0].0, "def greet():\n    return 3");
    assert_eq!(matches[0].1, "# a greeter");
}

#[test]
fn go_method_match_from_pointer_template() {
    // The pointer-receiver template contributes the match; the value
    // template finds nothing here.
    let source = "package main\n\ntype A struct{}\n\nfunc (a *A) f() {}\n\ntype B struct{}\n";
    let lang = Lang::go();
    let matches = lang.find_in(&Target::new_method("A", "f"), source).unwrap();
    assert_eq!(matches.len(), 1);
    assert!(matches[0].0.starts_with("func (a *A) f()"));
}
