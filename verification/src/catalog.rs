//! A language's catalog: per request kind, an ordered list of structural
//! query templates expressing the syntactic alternatives for that kind.
use vstd::prelude::*;

use crate::target::QueryMode;

verus! {

/// The ordered template lists of one language, keyed by request kind.
/// Built once at startup and never mutated.
pub struct Catalog {
    pub methods: Vec<String>,
    pub functions: Vec<String>,
    pub types: Vec<String>,
}

impl Catalog {
    /// The template list the given request kind selects.
    pub open spec fn spec_templates_for(self, mode: QueryMode) -> Seq<String> {
        match mode {
            QueryMode::Methods => self.methods@,
            QueryMode::Functions => self.functions@,
            QueryMode::Types => self.types@,
        }
    }

    /// Looks up the template list for a request kind.
    pub fn templates_for(&self, mode: QueryMode) -> (r: &Vec<String>)
        ensures
            r@ == self.spec_templates_for(mode),
    {
        match mode {
            QueryMode::Methods => &self.methods,
            QueryMode::Functions => &self.functions,
            QueryMode::Types => &self.types,
        }
    }
}

} // verus!
