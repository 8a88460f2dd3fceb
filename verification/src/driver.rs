//! The multi-language driver: an ordered list of languages; a lookup
//! delegates to the first language that accepts the file, and an unsupported
//! file type yields an empty result, never an error.
use vstd::prelude::*;

use crate::error::CodeError;
use crate::lang::{spec_is_go, spec_is_java, spec_is_python, Lang};
use crate::subst::{pairs_view, param_seq};
use crate::target::Target;
use crate::text::is_substring_of;

verus! {

/// Index of the first language at or after `i` that accepts the path, or
/// `langs.len()` if none does.
pub open spec fn first_acceptor_from(langs: Seq<Lang>, path: Seq<char>, i: int) -> int
    decreases langs.len() - i when 0 <= i <= langs.len()
{
    if i >= langs.len() {
        langs.len() as int
    } else if langs[i].spec_accepts(path) {
        i
    } else {
        first_acceptor_from(langs, path, i + 1)
    }
}

/// The registered languages, in registration order.
pub struct Driver {
    langs: Vec<Lang>,
}

impl Driver {
    /// The languages' views, in registration order.
    pub closed spec fn langs_view(self) -> Seq<Lang> {
        self.langs@
    }

    /// Some registered language accepts the path.
    pub open spec fn spec_accepts(self, path: Seq<char>) -> bool {
        exists|k: int|
            0 <= k < self.langs_view().len() && (#[trigger] self.langs_view()[k]).spec_accepts(
                path,
            )
    }

    /// The language a lookup on the path delegates to: the first acceptor in
    /// registration order.
    pub open spec fn spec_dispatch(self, path: Seq<char>) -> Lang {
        self.langs_view()[first_acceptor_from(self.langs_view(), path, 0)]
    }

    /// The default driver: Go, Python, and Java, in that order.
    pub fn new() -> (r: Driver)
        ensures
            r.langs_view().len() == 3,
            spec_is_go(r.langs_view()[0]),
            spec_is_python(r.langs_view()[1]),
            spec_is_java(r.langs_view()[2]),
    {
        let mut langs: Vec<Lang> = Vec::new();
        langs.push(Lang::go());
        langs.push(Lang::python());
        langs.push(Lang::java());
        Driver { langs }
    }

    /// A driver over the given languages, in the given order.
    pub fn with_langs(langs: Vec<Lang>) -> (r: Driver)
        ensures
            r.langs_view() == langs@,
    {
        Driver { langs }
    }

    /// Whether some registered language accepts the file.
    pub fn accepts(&self, path: &str) -> (r: bool)
        ensures
            r == self.spec_accepts(path@),
    {
        let mut i: usize = 0;
        while i < self.langs.len()
            invariant
                i <= self.langs@.len(),
                forall|k: int| 0 <= k < i ==> !(#[trigger] self.langs@[k]).spec_accepts(path@),
            decreases self.langs@.len() - i,
        {
            if self.langs[i].accepts(path) {
                proof {
                    assert(self.langs_view()[i as int].spec_accepts(path@));
                }
                return true;
            }
            i += 1;
        }
        false
    }

    /// Searches the file's text for the target with the first language in
    /// registration order that accepts the path; later languages are never
    /// consulted. A file whose extension no registered language accepts
    /// yields an empty list and no error. Otherwise the lookup succeeds
    /// exactly when the delegate's grammar yields a tree, the result is the
    /// delegate's — the marker-filtered, documentation-associated matches of
    /// its parameterized queries, in template order then tree order — and
    /// every definition or non-empty documentation is a verbatim substring
    /// of the source.
    pub fn fetch(&self, target: &Target, path: &str, source: &str) -> (r: Result<
        Vec<(String, String)>,
        CodeError,
    >)
        ensures
            !self.spec_accepts(path@) ==> r is Ok && r->Ok_0@.len() == 0,
            self.spec_accepts(path@) ==> (r is Ok <==> self.spec_dispatch(
                path@,
            ).spec_parses(source@)),
            self.spec_accepts(path@) && r is Ok ==> pairs_view(r->Ok_0@) == self.spec_dispatch(
                path@,
            ).results_spec(
                param_seq(
                    self.spec_dispatch(path@).templates_view(target.spec_mode()),
                    target.vars_spec(),
                ),
                source@,
            ),
            r is Err ==> r->Err_0 is TSParseError,
            r is Ok ==> forall|i: int|
                0 <= i < r->Ok_0@.len() ==> {
                    &&& is_substring_of((#[trigger] r->Ok_0@[i]).0@, source@)
                    &&& (r->Ok_0@[i].1@.len() == 0 || is_substring_of(r->Ok_0@[i].1@, source@))
                },
    {
        let ghost lv = self.langs_view();
        let mut i: usize = 0;
        proof {
            assert(first_acceptor_from(lv, path@, 0) == first_acceptor_from(lv, path@, 0));
        }
        while i < self.langs.len()
            invariant
                i <= self.langs@.len(),
                lv == self.langs@,
                forall|k: int| 0 <= k < i ==> !(#[trigger] self.langs@[k]).spec_accepts(path@),
                first_acceptor_from(lv, path@, 0) == first_acceptor_from(lv, path@, i as int),
            decreases self.langs@.len() - i,
        {
            if self.langs[i].accepts(path) {
                proof {
                    assert(self.langs_view()[i as int].spec_accepts(path@));
                    assert(self.spec_accepts(path@));
                    assert(first_acceptor_from(lv, path@, i as int) == i as int);
                }
                return self.langs[i].find_in(target, source);
            }
            proof {
                assert(first_acceptor_from(lv, path@, i as int) == first_acceptor_from(
                    lv,
                    path@,
                    i as int + 1,
                ));
            }
            i += 1;
        }
        proof {
            assert(!self.spec_accepts(path@));
        }
        Ok(Vec::new())
    }
}

/// The definition texts of a list of match results, in order.
pub fn definitions_of(matches: &Vec<(String, String)>) -> (r: Vec<String>)
    ensures
        r@.len() == matches@.len(),
        forall|i: int| 0 <= i < matches@.len() ==> (#[trigger] r@[i])@ == matches@[i].0@,
{
    let mut out: Vec<String> = Vec::new();
    let mut i: usize = 0;
    while i < matches.len()
        invariant
            i <= matches@.len(),
            out@.len() == i,
            forall|k: int| 0 <= k < i ==> (#[trigger] out@[k])@ == matches@[k].0@,
        decreases matches@.len() - i,
    {
        out.push(matches[i].0.clone());
        i += 1;
    }
    out
}

/// The documentation texts of a list of match results, in order.
pub fn documentations_of(matches: &Vec<(String, String)>) -> (r: Vec<String>)
    ensures
        r@.len() == matches@.len(),
        forall|i: int| 0 <= i < matches@.len() ==> (#[trigger] r@[i])@ == matches@[i].1@,
{
    let mut out: Vec<String> = Vec::new();
    let mut i: usize = 0;
    while i < matches.len()
        invariant
            i <= matches@.len(),
            out@.len() == i,
            forall|k: int| 0 <= k < i ==> (#[trigger] out@[k])@ == matches@[k].1@,
        decreases matches@.len() - i,
    {
        out.push(matches[i].1.clone());
        i += 1;
    }
    out
}

} // verus!
