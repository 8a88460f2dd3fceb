//! The syntax query capability: named results for the tree-sitter engine's
//! parse-and-match runs, one per language, with the trusted runners that
//! produce them. A run's outcome depends on the grammar, the query texts,
//! and the source text alone, so each language's captures get a name that
//! the search orchestrator's contract is stated over. Everything around the
//! engine — the result-marker filter, the documentation decision, the
//! collection order — is verified.
use vstd::prelude::*;

use tree_sitter::StreamingIterator;

use crate::lang::sibling_view;
use crate::text::is_substring_of;

verus! {

#[verifier::external_type_specification]
#[verifier::external_body]
pub struct ExLanguage(tree_sitter::Language);

#[verifier::external_type_specification]
#[verifier::external_body]
pub struct ExTree(tree_sitter::Tree);

#[verifier::external_type_specification]
#[verifier::external_body]
pub struct ExNode<'tree>(tree_sitter::Node<'tree>);

/// The view of one raw capture: its capture name, the verbatim text of its
/// node, and the kind and text of that node's immediate preceding sibling,
/// if any.
pub open spec fn cap_view(c: (String, String, Option<(String, String)>)) -> (
    Seq<char>,
    Seq<char>,
    Option<(Seq<char>, Seq<char>)>,
) {
    (c.0@, c.1@, sibling_view(c.2))
}

/// The views of a list of raw captures.
pub open spec fn caps_view(cs: Seq<(String, String, Option<(String, String)>)>) -> Seq<
    (Seq<char>, Seq<char>, Option<(Seq<char>, Seq<char>)>),
> {
    cs.map_values(|c: (String, String, Option<(String, String)>)| cap_view(c))
}

/// Whether the Go grammar yields a tree for the source; a function of the
/// source alone.
pub uninterp spec fn go_parses(source: Seq<char>) -> bool;

/// The raw captures the engine yields for one query over the Go parse tree
/// of the source, in match order: a function of the query and the source
/// alone.
pub uninterp spec fn go_captures(query: Seq<char>, source: Seq<char>) -> Seq<
    (Seq<char>, Seq<char>, Option<(Seq<char>, Seq<char>)>),
>;

/// As `go_parses`, for the Python grammar.
pub uninterp spec fn python_parses(source: Seq<char>) -> bool;

/// As `go_captures`, for the Python grammar.
pub uninterp spec fn python_captures(query: Seq<char>, source: Seq<char>) -> Seq<
    (Seq<char>, Seq<char>, Option<(Seq<char>, Seq<char>)>),
>;

/// As `go_parses`, for the Java grammar.
pub uninterp spec fn java_parses(source: Seq<char>) -> bool;

/// As `go_captures`, for the Java grammar.
pub uninterp spec fn java_captures(query: Seq<char>, source: Seq<char>) -> Seq<
    (Seq<char>, Seq<char>, Option<(Seq<char>, Seq<char>)>),
>;

/// Relies on tree_sitter_go::LANGUAGE with Parser::new, Parser::set_language
/// and Parser::parse: parses the source exactly once, then runs every query
/// against the one tree. The engine is deterministic, so success is
/// `go_parses` of the source and each query's captures are `go_captures` of
/// that query and the source; every captured text and sibling text is a
/// verbatim substring of the source.
#[verifier::external_body]
pub(crate) fn go_run(queries: &Vec<String>, source: &str) -> (r: Option<
    Vec<Vec<(String, String, Option<(String, String)>)>>,
>)
    ensures
        r is Some <==> go_parses(source@),
        r is Some ==> r->0@.len() == queries@.len(),
        r is Some ==> forall|i: int|
            0 <= i < queries@.len() ==> #[trigger] caps_view(r->0@[i]@) == go_captures(
                queries@[i]@,
                source@,
            ),
        r is Some ==> forall|i: int, j: int|
            0 <= i < r->0@.len() && 0 <= j < r->0@[i]@.len() ==> {
                &&& is_substring_of((#[trigger] r->0@[i]@[j]).1@, source@)
                &&& (r->0@[i]@[j].2 is Some ==> is_substring_of((r->0@[i]@[j].2->0).1@, source@))
            },
{
    let mut parser = tree_sitter::Parser::new();
    let language: tree_sitter::Language = tree_sitter_go::LANGUAGE.into();
    if parser.set_language(&language).is_err() {
        return None;
    }
    let tree = parser.parse(source, None)?;
    let mut out = Vec::new();
    for q in queries.iter() {
        out.push(collect_query_caps(&language, &tree, q, source));
    }
    Some(out)
}

/// Relies on tree_sitter_python::LANGUAGE; otherwise as `go_run`.
#[verifier::external_body]
pub(crate) fn python_run(queries: &Vec<String>, source: &str) -> (r: Option<
    Vec<Vec<(String, String, Option<(String, String)>)>>,
>)
    ensures
        r is Some <==> python_parses(source@),
        r is Some ==> r->0@.len() == queries@.len(),
        r is Some ==> forall|i: int|
            0 <= i < queries@.len() ==> #[trigger] caps_view(r->0@[i]@) == python_captures(
                queries@[i]@,
                source@,
            ),
        r is Some ==> forall|i: int, j: int|
            0 <= i < r->0@.len() && 0 <= j < r->0@[i]@.len() ==> {
                &&& is_substring_of((#[trigger] r->0@[i]@[j]).1@, source@)
                &&& (r->0@[i]@[j].2 is Some ==> is_substring_of((r->0@[i]@[j].2->0).1@, source@))
            },
{
    let mut parser = tree_sitter::Parser::new();
    let language: tree_sitter::Language = tree_sitter_python::LANGUAGE.into();
    if parser.set_language(&language).is_err() {
        return None;
    }
    let tree = parser.parse(source, None)?;
    let mut out = Vec::new();
    for q in queries.iter() {
        out.push(collect_query_caps(&language, &tree, q, source));
    }
    Some(out)
}

/// Relies on tree_sitter_java::LANGUAGE; otherwise as `go_run`.
#[verifier::external_body]
pub(crate) fn java_run(queries: &Vec<String>, source: &str) -> (r: Option<
    Vec<Vec<(String, String, Option<(String, String)>)>>,
>)
    ensures
        r is Some <==> java_parses(source@),
        r is Some ==> r->0@.len() == queries@.len(),
        r is Some ==> forall|i: int|
            0 <= i < queries@.len() ==> #[trigger] caps_view(r->0@[i]@) == java_captures(
                queries@[i]@,
                source@,
            ),
        r is Some ==> forall|i: int, j: int|
            0 <= i < r->0@.len() && 0 <= j < r->0@[i]@.len() ==> {
                &&& is_substring_of((#[trigger] r->0@[i]@[j]).1@, source@)
                &&& (r->0@[i]@[j].2 is Some ==> is_substring_of((r->0@[i]@[j].2->0).1@, source@))
            },
{
    let mut parser = tree_sitter::Parser::new();
    let language: tree_sitter::Language = tree_sitter_java::LANGUAGE.into();
    if parser.set_language(&language).is_err() {
        return None;
    }
    let tree = parser.parse(source, None)?;
    let mut out = Vec::new();
    for q in queries.iter() {
        out.push(collect_query_caps(&language, &tree, q, source));
    }
    Some(out)
}

/// Relies on tree_sitter::Query::new, QueryCursor::matches and
/// Query::capture_names: drains one query's matches over the tree into raw
/// capture records. A query the grammar rejects contributes an empty list.
/// The streaming iterator the engine hands out cannot be driven from
/// verified code, so it is drained here; each capture is converted by
/// `capture_data`.
#[verifier::external_body]
fn collect_query_caps(
    language: &tree_sitter::Language,
    tree: &tree_sitter::Tree,
    query_src: &str,
    source: &str,
) -> Vec<(String, String, Option<(String, String)>)> {
    let query = match tree_sitter::Query::new(language, query_src) {
        Ok(q) => q,
        Err(_) => return Vec::new(),
    };
    let names = query.capture_names();
    let mut cursor = tree_sitter::QueryCursor::new();
    let mut matches = cursor.matches(&query, tree.root_node(), source.as_bytes());
    let mut out = Vec::new();
    while let Some(m) = matches.next() {
        for c in m.captures() {
            let name = names.get(c.index as usize).copied().unwrap_or("");
            out.push(capture_data(name, &c.node, source));
        }
    }
    out
}

/// Relies on tree_sitter::Node::utf8_text, Node::prev_sibling and
/// Node::kind: converts one capture to its name, its node's verbatim text,
/// and the kind and text of the immediate preceding sibling, if any.
#[verifier::external_body]
fn capture_data(name: &str, node: &tree_sitter::Node<'_>, source: &str) -> (
    String,
    String,
    Option<(String, String)>,
) {
    let text = node.utf8_text(source.as_bytes()).unwrap_or("").to_string();
    let sibling = node.prev_sibling().map(
        |p| (p.kind().to_string(), p.utf8_text(source.as_bytes()).unwrap_or("").to_string()),
    );
    (name.to_string(), text, sibling)
}

} // verus!
