use code_wrapper::Lang;
use code_wrapper::Target;

const GO_SAMPLE: &str = r#"package main

// Struct1 is a sample struct
type Struct1 struct {
	x int
}

// method1 has a pointer receiver
func (s *Struct1) method1() int {
	return s.x
}

// method2 has a value receiver
func (s Struct1) method2() int {
	return s.x
}

// Alias1 is an alias
type Alias1 = Struct1

// Interface1 is an interface
type Interface1 interface {
	method1() int
}

// staticFunction is a free function
func staticFunction() int {
	return 1
}
"#;

const PYTHON_SAMPLE: &str = r#"from enum import Enum


# Type1 is a sample class
class Type1:
    # the constructor
    def __init__(self):
        self.x = 1

    # method1 returns x
    def method1(self):
        return self.x


# Type2 inherits from Type1
class Type2(Type1):
    pass


# Enum1 is an enum
class Enum1(Enum):
    A = 1


# static_function is a free function
def static_function():
    return 1
"#;

const JAVA_SAMPLE: &str = r#"// Class1 is a sample class
class Class1 {
    // the constructor
    Class1() {
    }

    // method1 returns one
    int method1() {
        return 1;
    }

    // static1 is a static method
    static int static1() {
        return 2;
    }
}

// Class2 implements Interface1
class Class2 implements Interface1 {
    // the implementation
    public int interfaceMethod1() {
        return 3;
    }
}

// Interface1 is an interface
interface Interface1 {
    // the declaration
    int interfaceMethod1();
}

// Enum1 is an enum
enum Enum1 {
    A,
    B
}
"#;

fn find_targets_for_lang(targets: Vec<Target>, lang: Lang, source: &str) {
    for target in targets {
        println!("Target: {}", target.display_string());
        let matches = lang.find_in(&target, source).unwrap();
        println!("Match found for: {}", target.display_string());
        println!("Found {}", matches.len());
        assert!(!matches.is_empty());
        for (definition, documentation) in &matches {
            println!("--- Documentation ---\n{}", documentation);
            println!("--- Definition ---\n{}", definition);
        }
    }
}

#[test]
fn go() {
    let targets = vec![
        Target::new_class("Struct1"),
        Target::new_method("Struct1", "method1"),
        Target::new_method("Struct1", "method2"),
        Target::new_class("Alias1"),
        Target::new_class("Interface1"),
        Target::new_function("staticFunction"),
    ];
    find_targets_for_lang(targets, Lang::go(), GO_SAMPLE);
}

#[test]
fn python() {
    let targets = vec![
        Target::new_class("Type1"),
        Target::new_method("Type1", "method1"),
        Target::new_method("Type1", "__init__"),
        Target::new_class("Type2"),
        Target::new_class("Enum1"),
        Target::new_function("static_function"),
    ];
    find_targets_for_lang(targets, Lang::python(), PYTHON_SAMPLE);
}

#[test]
fn java() {
    let targets = vec![
        Target::new_class("Class1"),
        Target::new_method("Class1", "method1"),
        Target::new_method("Class1", "Class1"),
        Target::new_method("Class1", "static1"),
        Target::new_class("Class2"),
        Target::new_method("Class2", "interfaceMethod1"),
        Target::new_class("Interface1"),
        Target::new_method("Interface1", "interfaceMethod1"),
        Target::new_class("Enum1"),
    ];
    find_targets_for_lang(targets, Lang::java(), JAVA_SAMPLE);
}

// Exercises target construction and Go language setup over an empty set of
// candidate files, as the directory-walking entry points do when the
// directory they scan holds nothing.
#[test]
fn cherk_main() {
    let targets = vec![
        Target::new_method("Mamad", "SayHello"),
        Target::new_method("Mamad", "SayGoodBye"),
    ];
    let candidate_files: Vec<&str> = Vec::new();
    for target in targets {
        let lang = Lang::go();
        println!("Target: {}", target.display_string());
        for path in &candidate_files {
            if lang.accepts(path) {
                panic!("no file of the missing directory can be accepted");
            }
        }
    }
}

#[test]
fn code_main() {
    let queries = vec!["Mamad.SayHello()"];
    let candidate_files: Vec<&str> = Vec::new();
    for query in queries {
        let parsed = Target::parse(query).unwrap();
        println!("Parsed path: {}", parsed.display_string());
        let lang = Lang::go();
        for path in &candidate_files {
            assert!(!lang.accepts(path));
        }
    }
}
