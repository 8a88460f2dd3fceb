//! The error taxonomy of the lookup core. Every failure a lookup can surface
//! is one of these typed variants; none is retried.
use vstd::prelude::*;

verus! {

/// Errors surfaced by reference parsing and per-file search.
#[derive(Debug, Clone)]
pub enum CodeError {
    /// A lookup target carried neither a type name nor a function name.
    TargetCanNotBeEmpty,
    /// Reading a file's content failed; carries a description of the failure.
    FileReadError(String),
    /// The grammar rejected the file's content.
    TSParseError,
    /// A query template referenced a variable the target does not supply;
    /// carries a description of the failed substitution.
    QueryPopulationError(String),
    /// The path was absent from the snapshot; carries the path.
    FileNotFound(String),
}

impl CodeError {
    /// Stable renderings for callers that need a message.
    pub fn message(&self) -> (r: String)
        ensures
            self is TargetCanNotBeEmpty ==> r@ == "expected to have a type or a function, but got none"@,
            self is TSParseError ==> r@ == "tree-sitter parse failed"@,
            self is FileReadError ==> r@ == "failed to read the file: "@ + self->FileReadError_0@,
            self is QueryPopulationError ==> r@ == "query population failed: "@
                + self->QueryPopulationError_0@,
            self is FileNotFound ==> r@ == "file not found: "@ + self->FileNotFound_0@,
    {
        match self {
            CodeError::TargetCanNotBeEmpty => {
                String::from_str("expected to have a type or a function, but got none")
            },
            CodeError::FileReadError(d) => String::from_str("failed to read the file: ").concat(
                d.as_str(),
            ),
            CodeError::TSParseError => String::from_str("tree-sitter parse failed"),
            CodeError::QueryPopulationError(d) => String::from_str(
                "query population failed: ",
            ).concat(d.as_str()),
            CodeError::FileNotFound(p) => String::from_str("file not found: ").concat(p.as_str()),
        }
    }
}

} // verus!
