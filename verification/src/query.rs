//! The Go catalog: structural query templates for method, function, and type
//! lookups against the Go grammar.
use vstd::prelude::*;

use crate::catalog::Catalog;

verus! {

/// Method with a pointer receiver: `func (*receiver).function()`.
pub const GO_METHOD_POINTER: &'static str = r#"
(
  (method_declaration
    receiver: (parameter_list
      (parameter_declaration
        type: (pointer_type
                (type_identifier) @receiver_type)
        )
        (#eq? @receiver_type "{receiver}")
      )
    name: (field_identifier) @method_name
    body: (block) @body
    )
  (#eq? @method_name "{function}")
) @capture
"#;

/// Method with a value receiver: `func (receiver).function()`.
pub const GO_METHOD_VALUE: &'static str = r#"
(
  (method_declaration
    receiver: (parameter_list
      (parameter_declaration
        type: (type_identifier) @receiver_type
        )
        (#eq? @receiver_type "{receiver}")
      )
    name: (field_identifier) @method_name
    body: (block) @body
    )
  (#eq? @method_name "{function}")
) @capture
"#;

/// Free function declarations.
pub const GO_FUNCTION: &'static str = r#"
(
  (function_declaration
    name: (identifier) @function_name
    body: (block) @body
    )
  (#eq? @function_name "{function}")
) @capture
"#;

/// Struct and interface type declarations.
pub const GO_TYPE_SPEC: &'static str = r#"
(
  (type_declaration
    (type_spec
      name: (type_identifier) @receiver_type
      )
    )
  (#eq?  @receiver_type "{receiver}")
) @capture
"#;

/// Alias type declarations.
pub const GO_TYPE_ALIAS: &'static str = r#"
(
  (type_declaration
    (type_alias
      name: (type_identifier) @receiver_type
      )
    )
  (#eq?  @receiver_type "{receiver}")
) @capture
"#;

/// The Go template catalog: methods by pointer or value receiver, free
/// function declarations, and struct/interface/alias type declarations. Each
/// template tags the node of the whole matched definition with `@capture`.
pub fn go() -> (r: Catalog)
    ensures
        r.methods@.len() == 2,
        r.methods@[0]@ == GO_METHOD_POINTER@,
        r.methods@[1]@ == GO_METHOD_VALUE@,
        r.functions@.len() == 1,
        r.functions@[0]@ == GO_FUNCTION@,
        r.types@.len() == 2,
        r.types@[0]@ == GO_TYPE_SPEC@,
        r.types@[1]@ == GO_TYPE_ALIAS@,
{
    let mut methods: Vec<String> = Vec::new();
    methods.push(String::from_str(GO_METHOD_POINTER));
    methods.push(String::from_str(GO_METHOD_VALUE));

    let mut functions: Vec<String> = Vec::new();
    functions.push(String::from_str(GO_FUNCTION));

    let mut types: Vec<String> = Vec::new();
    types.push(String::from_str(GO_TYPE_SPEC));
    types.push(String::from_str(GO_TYPE_ALIAS));

    Catalog { methods, functions, types }
}

} // verus!
