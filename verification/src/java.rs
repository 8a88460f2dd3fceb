//! The Java catalog: structural query templates for method and type lookups
//! against the Java grammar.
use vstd::prelude::*;

use crate::catalog::Catalog;

verus! {

/// Constructor declarations.
pub const JAVA_CONSTRUCTOR: &'static str = r#"
(
  (class_declaration
    name: (identifier) @receiver_type
    body: (class_body
            (constructor_declaration
              name: (identifier) @method_name
              )@capture
            )
    )
  (#eq?  @receiver_type "{receiver}")
  (#eq?  @method_name "{function}")
)
"#;

/// Method declarations, static ones included.
pub const JAVA_METHOD: &'static str = r#"
(
  (class_declaration
    name: (identifier) @receiver_type
    body: (class_body
            (method_declaration
              name: (identifier) @method_name
              )@capture
            )
    )
  (#eq?  @receiver_type "{receiver}")
  (#eq?  @method_name "{function}")
)
"#;

/// Interface method declarations.
pub const JAVA_INTERFACE_METHOD: &'static str = r#"
(
 (interface_declaration
   name: (identifier) @receiver_type
   body: (interface_body
            (method_declaration
              name: (identifier) @method_name
              ) @capture
           )
   )
  (#eq? @receiver_type "{receiver}")
  (#eq? @method_name "{function}")
 )
"#;

/// Class definitions.
pub const JAVA_CLASS: &'static str = r#"
(
  (class_declaration
    name: (identifier) @receiver_type
    )
  (#eq?  @receiver_type "{receiver}")
)@capture
"#;

/// Interface definitions.
pub const JAVA_INTERFACE: &'static str = r#"
(
 (interface_declaration
   name: (identifier) @receiver_type
   )
  (#eq? @receiver_type "{receiver}")
 ) @capture
"#;

/// Enum definitions.
pub const JAVA_ENUM: &'static str = r#"
(
  (enum_declaration
    name: (identifier) @receiver_type
    )
  (#eq?  @receiver_type "{receiver}")
)@capture
"#;

/// The Java template catalog: constructor declarations, (static) method
/// declarations, interface method declarations, and class/interface/enum
/// definitions. Java has no free functions, so the function list is empty.
/// Each template tags the node of the whole matched definition with
/// `@capture`.
pub fn queries() -> (r: Catalog)
    ensures
        r.methods@.len() == 3,
        r.methods@[0]@ == JAVA_CONSTRUCTOR@,
        r.methods@[1]@ == JAVA_METHOD@,
        r.methods@[2]@ == JAVA_INTERFACE_METHOD@,
        r.functions@.len() == 0,
        r.types@.len() == 3,
        r.types@[0]@ == JAVA_CLASS@,
        r.types@[1]@ == JAVA_INTERFACE@,
        r.types@[2]@ == JAVA_ENUM@,
{
    let mut methods: Vec<String> = Vec::new();
    methods.push(String::from_str(JAVA_CONSTRUCTOR));
    methods.push(String::from_str(JAVA_METHOD));
    methods.push(String::from_str(JAVA_INTERFACE_METHOD));

    let functions: Vec<String> = Vec::new();

    let mut types: Vec<String> = Vec::new();
    types.push(String::from_str(JAVA_CLASS));
    types.push(String::from_str(JAVA_INTERFACE));
    types.push(String::from_str(JAVA_ENUM));

    Catalog { methods, functions, types }
}

} // verus!
