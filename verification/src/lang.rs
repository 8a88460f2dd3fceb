//! One supported language: its template catalog, its grammar, and the file
//! extension that selects it; with the per-file search orchestration and the
//! documentation-association heuristic.
use vstd::prelude::*;

use crate::catalog::Catalog;
use crate::error::CodeError;
use crate::sitter;
use crate::sitter::{cap_view, caps_view};
use crate::subst::{param_seq, views_of};
use crate::target::{QueryMode, Target};
use crate::text::{is_substring_of, last_index_before, rfind_char};

verus! {

/// Character index of the first character of the path's file name: right
/// after the last `/`, or `0` with no separator.
pub open spec fn file_name_start(path: Seq<char>) -> int {
    last_index_before(path, path.len() as int, '/') + 1
}

/// The path's extension: what follows the last dot of the file name,
/// provided that dot comes after the file name's first character. A name
/// with no dot, or one whose only dot leads it, has no extension.
pub open spec fn extension_of(path: Seq<char>) -> Option<Seq<char>> {
    let d = last_index_before(path, path.len() as int, '.');
    if d > file_name_start(path) {
        Some(path.subrange(d + 1, path.len() as int))
    } else {
        None
    }
}

/// The view of a captured node's immediate preceding sibling: its syntactic
/// kind and its verbatim text.
pub open spec fn sibling_view(s: Option<(String, String)>) -> Option<(Seq<char>, Seq<char>)> {
    match s {
        Some(p) => Some((p.0@, p.1@)),
        None => None,
    }
}

/// The documentation a sibling yields: its verbatim text if and only if its
/// kind is exactly `comment`; otherwise, or with no sibling at all, the
/// empty string.
pub open spec fn doc_spec(s: Option<(Seq<char>, Seq<char>)>) -> Seq<char> {
    match s {
        Some(p) => if p.0 == "comment"@ {
            p.1
        } else {
            Seq::empty()
        },
        None => Seq::empty(),
    }
}

/// Associates documentation to a matched definition from its immediate
/// preceding sibling — a single immediate-sibling check, no distance
/// threshold and no multi-comment aggregation. A definition with no
/// preceding sibling, or whose sibling is not a comment, gets the empty
/// string.
pub fn doc_from_sibling(sibling: &Option<(String, String)>) -> (r: String)
    ensures
        r@ == doc_spec(sibling_view(*sibling)),
        sibling is None ==> r@ == Seq::<char>::empty(),
{
    match sibling {
        Some((kind, text)) => {
            if *kind == String::from_str("comment") {
                text.clone()
            } else {
                String::new()
            }
        },
        None => String::new(),
    }
}

/// Whether a capture is the designated result marker: the one named exactly
/// `capture`, tagging the node of the whole matched definition. A capture
/// without this name is skipped.
pub fn is_result_marker(name: &String) -> (r: bool)
    ensures
        r == (name@ == "capture"@),
{
    *name == String::from_str("capture")
}

/// The match results one query's raw captures yield, in capture order: for
/// each capture carrying the designated result marker, its node's verbatim
/// text paired with the documentation its sibling yields; other captures
/// contribute nothing. No deduplication.
pub open spec fn matches_of(
    caps: Seq<(Seq<char>, Seq<char>, Option<(Seq<char>, Seq<char>)>)>,
) -> Seq<(Seq<char>, Seq<char>)>
    decreases caps.len(),
{
    if caps.len() == 0 {
        Seq::empty()
    } else {
        let rest = matches_of(caps.drop_first());
        if caps[0].0 == "capture"@ {
            seq![(caps[0].1, doc_spec(caps[0].2))] + rest
        } else {
            rest
        }
    }
}

/// The grammar a language parses and matches with.
#[derive(Debug, Clone, Copy, PartialEq, Eq, Structural)]
pub enum Grammar {
    Go,
    Python,
    Java,
}

/// One supported language. Immutable after construction; shared read-only
/// across lookups.
pub struct Lang {
    queries: Catalog,
    grammar: Grammar,
    file_extension: &'static str,
}

/// The Go language's value: grammar, extension, and the Go catalog's
/// template texts per request kind.
pub open spec fn spec_is_go(l: Lang) -> bool {
    &&& l.grammar_view() == Grammar::Go
    &&& l.ext_view() == "go"@
    &&& l.templates_view(QueryMode::Methods) == seq![
        crate::query::GO_METHOD_POINTER@,
        crate::query::GO_METHOD_VALUE@,
    ]
    &&& l.templates_view(QueryMode::Functions) == seq![crate::query::GO_FUNCTION@]
    &&& l.templates_view(QueryMode::Types) == seq![
        crate::query::GO_TYPE_SPEC@,
        crate::query::GO_TYPE_ALIAS@,
    ]
}

/// The Python language's value, as `spec_is_go`.
pub open spec fn spec_is_python(l: Lang) -> bool {
    &&& l.grammar_view() == Grammar::Python
    &&& l.ext_view() == "py"@
    &&& l.templates_view(QueryMode::Methods) == seq![crate::python::PYTHON_METHOD@]
    &&& l.templates_view(QueryMode::Functions) == seq![crate::python::PYTHON_FUNCTION@]
    &&& l.templates_view(QueryMode::Types) == seq![crate::python::PYTHON_CLASS@]
}

/// The Java language's value, as `spec_is_go`.
pub open spec fn spec_is_java(l: Lang) -> bool {
    &&& l.grammar_view() == Grammar::Java
    &&& l.ext_view() == "java"@
    &&& l.templates_view(QueryMode::Methods) == seq![
        crate::java::JAVA_CONSTRUCTOR@,
        crate::java::JAVA_METHOD@,
        crate::java::JAVA_INTERFACE_METHOD@,
    ]
    &&& l.templates_view(QueryMode::Functions) == Seq::<Seq<char>>::empty()
    &&& l.templates_view(QueryMode::Types) == seq![
        crate::java::JAVA_CLASS@,
        crate::java::JAVA_INTERFACE@,
        crate::java::JAVA_ENUM@,
    ]
}

impl Lang {
    /// The file extension that selects this language.
    pub closed spec fn ext_view(self) -> Seq<char> {
        self.file_extension@
    }

    /// The grammar this language runs.
    pub closed spec fn grammar_view(self) -> Grammar {
        self.grammar
    }

    /// The views of the catalog's template list for a request kind.
    pub closed spec fn templates_view(self, mode: QueryMode) -> Seq<Seq<char>> {
        views_of(self.queries.spec_templates_for(mode))
    }

    /// Whether this language's grammar yields a tree for the source.
    pub open spec fn spec_parses(self, source: Seq<char>) -> bool {
        match self.grammar_view() {
            Grammar::Go => sitter::go_parses(source),
            Grammar::Python => sitter::python_parses(source),
            Grammar::Java => sitter::java_parses(source),
        }
    }

    /// The raw captures this language's engine yields for one query over the
    /// source's parse tree.
    pub open spec fn spec_captures(self, query: Seq<char>, source: Seq<char>) -> Seq<
        (Seq<char>, Seq<char>, Option<(Seq<char>, Seq<char>)>),
    > {
        match self.grammar_view() {
            Grammar::Go => sitter::go_captures(query, source),
            Grammar::Python => sitter::python_captures(query, source),
            Grammar::Java => sitter::java_captures(query, source),
        }
    }

    /// The full result of a search: the concatenation, in query order, of
    /// each query's marker-filtered, documentation-associated matches.
    pub open spec fn results_spec(
        self,
        queries: Seq<Seq<char>>,
        source: Seq<char>,
    ) -> Seq<(Seq<char>, Seq<char>)>
        decreases queries.len(),
    {
        if queries.len() == 0 {
            Seq::empty()
        } else {
            matches_of(self.spec_captures(queries[0], source)) + self.results_spec(
                queries.drop_first(),
                source,
            )
        }
    }

    /// A path is accepted exactly when its extension equals the declared
    /// one — character for character, case included.
    pub open spec fn spec_accepts(self, path: Seq<char>) -> bool {
        extension_of(path) == Some(self.ext_view())
    }

    /// The Go language: its catalog, grammar, and the `go` extension.
    pub fn go() -> (r: Lang)
        ensures
            spec_is_go(r),
    {
        let l = Lang {
            queries: crate::query::go(),
            grammar: Grammar::Go,
            file_extension: "go",
        };
        proof {
            assert(l.templates_view(QueryMode::Methods) =~= seq![
                crate::query::GO_METHOD_POINTER@,
                crate::query::GO_METHOD_VALUE@,
            ]);
            assert(l.templates_view(QueryMode::Functions) =~= seq![crate::query::GO_FUNCTION@]);
            assert(l.templates_view(QueryMode::Types) =~= seq![
                crate::query::GO_TYPE_SPEC@,
                crate::query::GO_TYPE_ALIAS@,
            ]);
        }
        l
    }

    /// The Python language: its catalog, grammar, and the `py` extension.
    pub fn python() -> (r: Lang)
        ensures
            spec_is_python(r),
    {
        let l = Lang {
            queries: crate::python::queries(),
            grammar: Grammar::Python,
            file_extension: "py",
        };
        proof {
            assert(l.templates_view(QueryMode::Methods) =~= seq![crate::python::PYTHON_METHOD@]);
            assert(l.templates_view(QueryMode::Functions) =~= seq![
                crate::python::PYTHON_FUNCTION@,
            ]);
            assert(l.templates_view(QueryMode::Types) =~= seq![crate::python::PYTHON_CLASS@]);
        }
        l
    }

    /// The Java language: its catalog, grammar, and the `java` extension.
    pub fn java() -> (r: Lang)
        ensures
            spec_is_java(r),
    {
        let l = Lang {
            queries: crate::java::queries(),
            grammar: Grammar::Java,
            file_extension: "java",
        };
        proof {
            assert(l.templates_view(QueryMode::Methods) =~= seq![
                crate::java::JAVA_CONSTRUCTOR@,
                crate::java::JAVA_METHOD@,
                crate::java::JAVA_INTERFACE_METHOD@,
            ]);
            assert(l.templates_view(QueryMode::Functions) =~= Seq::<Seq<char>>::empty());
            assert(l.templates_view(QueryMode::Types) =~= seq![
                crate::java::JAVA_CLASS@,
                crate::java::JAVA_INTERFACE@,
                crate::java::JAVA_ENUM@,
            ]);
        }
        l
    }

    /// Whether this language supports the file: an exact, case-sensitive
    /// match of the path's extension against the declared one.
    pub fn accepts(&self, path: &str) -> (r: bool)
        ensures
            r == self.spec_accepts(path@),
    {
        let n = path.unicode_len();
        match rfind_char(path, '.') {
            None => {
                proof {
                    crate::text::lemma_last_index_before_bounds(path@, path@.len() as int, '/');
                }
                false
            },
            Some(d) => {
                let start = match rfind_char(path, '/') {
                    None => 0usize,
                    Some(i) => i + 1,
                };
                if d > start {
                    let ext = String::from_str(path.substring_char(d + 1, n));
                    let declared = String::from_str(self.file_extension);
                    ext == declared
                } else {
                    false
                }
            },
        }
    }

    /// Parameterizes every template of the target's request kind with the
    /// target's identifiers: exactly the successful substitutions remain, in
    /// template order. The outcome is a function of the catalog and the
    /// target alone, so two runs against an unchanged pair agree.
    pub fn parameterized_queries(&self, target: &Target) -> (r: Vec<String>)
        ensures
            views_of(r@) == param_seq(
                self.templates_view(target.spec_mode()),
                target.vars_spec(),
            ),
    {
        let mode = target.query_mode();
        let templates = self.queries.templates_for(mode);
        let ghost tmpl_views = self.templates_view(mode);
        let ghost vars_v = target.vars_spec();

        let mut queries: Vec<String> = Vec::new();
        let mut ti: usize = 0;
        proof {
            assert(tmpl_views.skip(0) =~= tmpl_views);
            assert(views_of(queries@) =~= Seq::<Seq<char>>::empty());
        }
        while ti < templates.len()
            invariant
                ti <= templates@.len(),
                tmpl_views == views_of(templates@),
                views_of(queries@) + param_seq(tmpl_views.skip(ti as int), vars_v) == param_seq(
                    tmpl_views,
                    vars_v,
                ),
                vars_v == target.vars_spec(),
            decreases templates@.len() - ti,
        {
            let ghost suffix = tmpl_views.skip(ti as int);
            proof {
                assert(suffix[0] == templates@[ti as int]@);
                assert(suffix.drop_first() =~= tmpl_views.skip(ti as int + 1));
            }
            match target.update_query(templates[ti].as_str()) {
                Ok(q) => {
                    proof {
                        assert(param_seq(suffix, vars_v) =~= seq![q@] + param_seq(
                            suffix.drop_first(),
                            vars_v,
                        ));
                    }
                    let ghost old_queries = queries@;
                    queries.push(q);
                    proof {
                        assert(views_of(queries@) =~= views_of(old_queries) + seq![q@]);
                        assert(views_of(queries@) + param_seq(
                            tmpl_views.skip(ti as int + 1),
                            vars_v,
                        ) =~= views_of(old_queries) + param_seq(suffix, vars_v));
                    }
                },
                Err(_) => {
                    proof {
                        assert(param_seq(suffix, vars_v) == param_seq(
                            suffix.drop_first(),
                            vars_v,
                        ));
                    }
                },
            }
            ti += 1;
        }
        proof {
            assert(tmpl_views.skip(templates@.len() as int) =~= Seq::<Seq<char>>::empty());
            assert(views_of(queries@) =~= views_of(queries@) + param_seq(
                tmpl_views.skip(templates@.len() as int),
                vars_v,
            ));
        }
        queries
    }

    /// Runs the engine of this language's grammar: parses the source exactly
    /// once and yields each query's raw captures, or None when the grammar
    /// yields no tree.
    fn run_engine(&self, queries: &Vec<String>, source: &str) -> (r: Option<
        Vec<Vec<(String, String, Option<(String, String)>)>>,
    >)
        ensures
            r is Some <==> self.spec_parses(source@),
            r is Some ==> r->0@.len() == queries@.len(),
            r is Some ==> forall|i: int|
                0 <= i < queries@.len() ==> #[trigger] caps_view(r->0@[i]@)
                    == self.spec_captures(queries@[i]@, source@),
            r is Some ==> forall|i: int, j: int|
                0 <= i < r->0@.len() && 0 <= j < r->0@[i]@.len() ==> {
                    &&& is_substring_of((#[trigger] r->0@[i]@[j]).1@, source@)
                    &&& (r->0@[i]@[j].2 is Some ==> is_substring_of(
                        (r->0@[i]@[j].2->0).1@,
                        source@,
                    ))
                },
    {
        match self.grammar {
            Grammar::Go => sitter::go_run(queries, source),
            Grammar::Python => sitter::python_run(queries, source),
            Grammar::Java => sitter::java_run(queries, source),
        }
    }

    /// Searches the file's text for the target: parameterizes every template
    /// of the target's request kind (silently dropping any that fail to
    /// parameterize), parses the text exactly once, runs each query against
    /// the one tree, and returns exactly the concatenation, in template
    /// order then tree order, of each tagged match's verbatim definition
    /// text with its associated documentation. Fails, with `TSParseError`,
    /// exactly when the grammar yields no tree.
    pub fn find_in(&self, target: &Target, source: &str) -> (r: Result<
        Vec<(String, String)>,
        CodeError,
    >)
        ensures
            r is Ok <==> self.spec_parses(source@),
            r is Err ==> r->Err_0 is TSParseError,
            r is Ok ==> crate::subst::pairs_view(r->Ok_0@) == self.results_spec(
                param_seq(self.templates_view(target.spec_mode()), target.vars_spec()),
                source@,
            ),
            r is Ok && self.templates_view(target.spec_mode()).len() == 0 ==> r->Ok_0@.len()
                == 0,
            r is Ok ==> forall|i: int|
                0 <= i < r->Ok_0@.len() ==> {
                    &&& is_substring_of((#[trigger] r->Ok_0@[i]).0@, source@)
                    &&& (r->Ok_0@[i].1@.len() == 0 || is_substring_of(r->Ok_0@[i].1@, source@))
                },
    {
        // Parameterize every template; the ones that fail are dropped.
        let queries = self.parameterized_queries(target);
        let ghost qviews = views_of(queries@);

        // Parse the text exactly once; the tree is reused for every query.
        let runs = match self.run_engine(&queries, source) {
            Some(v) => v,
            None => { return Err(CodeError::TSParseError) },
        };
        let ghost total = self.results_spec(qviews, source@);

        let mut results: Vec<(String, String)> = Vec::new();
        let mut qi: usize = 0;
        proof {
            assert(qviews.skip(0) =~= qviews);
            assert(crate::subst::pairs_view(results@) =~= Seq::<(Seq<char>, Seq<char>)>::empty());
        }
        while qi < queries.len()
            invariant
                qi <= queries@.len(),
                qviews == views_of(queries@),
                runs@.len() == queries@.len(),
                total == self.results_spec(qviews, source@),
                forall|k: int|
                    0 <= k < queries@.len() ==> #[trigger] caps_view(runs@[k]@)
                        == self.spec_captures(qviews[k], source@),
                forall|k: int, j: int|
                    0 <= k < runs@.len() && 0 <= j < runs@[k]@.len() ==> {
                        &&& is_substring_of((#[trigger] runs@[k]@[j]).1@, source@)
                        &&& (runs@[k]@[j].2 is Some ==> is_substring_of(
                            (runs@[k]@[j].2->0).1@,
                            source@,
                        ))
                    },
                crate::subst::pairs_view(results@) + self.results_spec(
                    qviews.skip(qi as int),
                    source@,
                ) == total,
                forall|i: int|
                    0 <= i < results@.len() ==> {
                        &&& is_substring_of((#[trigger] results@[i]).0@, source@)
                        &&& (results@[i].1@.len() == 0 || is_substring_of(
                            results@[i].1@,
                            source@,
                        ))
                    },
            decreases queries@.len() - qi,
        {
            let caps = &runs[qi];
            let ghost capsv = caps_view(caps@);
            proof {
                assert(qviews.skip(qi as int)[0] == qviews[qi as int]);
                assert(qviews.skip(qi as int).drop_first() =~= qviews.skip(qi as int + 1));
                assert(self.results_spec(qviews.skip(qi as int), source@) == matches_of(capsv)
                    + self.results_spec(qviews.skip(qi as int + 1), source@));
                assert(capsv.skip(0) =~= capsv);
            }
            let mut ci: usize = 0;
            while ci < caps.len()
                invariant
                    ci <= caps@.len(),
                    qi < queries@.len(),
                    qviews == views_of(queries@),
                    runs@.len() == queries@.len(),
                    caps@ == runs@[qi as int]@,
                    capsv == caps_view(caps@),
                    total == self.results_spec(qviews, source@),
                    forall|k: int, j: int|
                        0 <= k < runs@.len() && 0 <= j < runs@[k]@.len() ==> {
                            &&& is_substring_of((#[trigger] runs@[k]@[j]).1@, source@)
                            &&& (runs@[k]@[j].2 is Some ==> is_substring_of(
                                (runs@[k]@[j].2->0).1@,
                                source@,
                            ))
                        },
                    crate::subst::pairs_view(results@) + matches_of(capsv.skip(ci as int))
                        + self.results_spec(qviews.skip(qi as int + 1), source@) == total,
                    forall|i: int|
                        0 <= i < results@.len() ==> {
                            &&& is_substring_of((#[trigger] results@[i]).0@, source@)
                            &&& (results@[i].1@.len() == 0 || is_substring_of(
                                results@[i].1@,
                                source@,
                            ))
                        },
                decreases caps@.len() - ci,
            {
                proof {
                    assert(capsv.skip(ci as int)[0] == capsv[ci as int]);
                    assert(capsv.skip(ci as int).drop_first() =~= capsv.skip(ci as int + 1));
                    assert(capsv[ci as int] == cap_view(caps@[ci as int]));
                }
                if is_result_marker(&caps[ci].0) {
                    let definition = caps[ci].1.clone();
                    let documentation = doc_from_sibling(&caps[ci].2);
                    proof {
                        assert(matches_of(capsv.skip(ci as int)) == seq![
                            (capsv[ci as int].1, doc_spec(capsv[ci as int].2)),
                        ] + matches_of(capsv.skip(ci as int + 1)));
                    }
                    let ghost old_results = results@;
                    results.push((definition, documentation));
                    proof {
                        assert(crate::subst::pairs_view(results@) =~= crate::subst::pairs_view(
                            old_results,
                        ) + seq![(capsv[ci as int].1, doc_spec(capsv[ci as int].2))]);
                        assert(crate::subst::pairs_view(results@) + matches_of(
                            capsv.skip(ci as int + 1),
                        ) + self.results_spec(qviews.skip(qi as int + 1), source@)
                            =~= crate::subst::pairs_view(old_results) + matches_of(
                            capsv.skip(ci as int),
                        ) + self.results_spec(qviews.skip(qi as int + 1), source@));
                    }
                } else {
                    proof {
                        assert(matches_of(capsv.skip(ci as int)) == matches_of(
                            capsv.skip(ci as int + 1),
                        ));
                    }
                }
                ci += 1;
            }
            proof {
                assert(capsv.skip(caps@.len() as int) =~= Seq::<
                    (Seq<char>, Seq<char>, Option<(Seq<char>, Seq<char>)>),
                >::empty());
            }
            qi += 1;
        }
        proof {
            assert(qviews.skip(queries@.len() as int) =~= Seq::<Seq<char>>::empty());
            assert(crate::subst::pairs_view(results@) =~= crate::subst::pairs_view(results@)
                + self.results_spec(qviews.skip(queries@.len() as int), source@));
            if self.templates_view(target.spec_mode()).len() == 0 {
                assert(param_seq(self.templates_view(target.spec_mode()), target.vars_spec())
                    =~= Seq::<Seq<char>>::empty());
                assert(results@.len() == crate::subst::pairs_view(results@).len());
            }
        }
        Ok(results)
    }
}

} // verus!
