//! The Python catalog: structural query templates for method, function, and
//! class lookups against the Python grammar.
use vstd::prelude::*;

use crate::catalog::Catalog;

verus! {

/// Methods: function definitions inside a class body.
pub const PYTHON_METHOD: &'static str = r#"
(
 ( class_definition
  name: (identifier) @receiver_type
    body: (block
      (function_definition
        name: (identifier) @function_name
        ) @capture
      )
  )
  (#eq? @receiver_type "{receiver}")
  (#eq? @function_name "{function}")
 )
"#;

/// Free function definitions.
pub const PYTHON_FUNCTION: &'static str = r#"
(
 (function_definition
    name: (identifier) @function_name
   )
  (#eq? @function_name "{function}")
 ) @capture
"#;

/// Class definitions: plain, with inheritance, or enums.
pub const PYTHON_CLASS: &'static str = r#"
(
 ( class_definition
  name: (identifier) @receiver_type
  )
  (#eq? @receiver_type "{receiver}")
 ) @capture
"#;

/// The Python template catalog: methods inside a class body, free function
/// definitions, and class definitions (plain, with inheritance, or enums).
/// Each template tags the node of the whole matched definition with
/// `@capture`.
pub fn queries() -> (r: Catalog)
    ensures
        r.methods@.len() == 1,
        r.methods@[0]@ == PYTHON_METHOD@,
        r.functions@.len() == 1,
        r.functions@[0]@ == PYTHON_FUNCTION@,
        r.types@.len() == 1,
        r.types@[0]@ == PYTHON_CLASS@,
{
    let mut methods: Vec<String> = Vec::new();
    methods.push(String::from_str(PYTHON_METHOD));

    let mut functions: Vec<String> = Vec::new();
    functions.push(String::from_str(PYTHON_FUNCTION));

    let mut types: Vec<String> = Vec::new();
    types.push(String::from_str(PYTHON_CLASS));

    Catalog { methods, functions, types }
}

} // verus!
