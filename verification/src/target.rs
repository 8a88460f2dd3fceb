//! The lookup target: a reference string classified into a free function, a
//! method bound to a type, or a type definition, together with the verified
//! reference parser.
use vstd::prelude::*;

use crate::error::CodeError;
use crate::subst::{pairs_view, strfmt_subst};
use crate::text::{
    first_non_ws_from, is_ws, is_ws_exec, last_index_before,
    last_non_ws_before, lemma_last_index_before_step, lemma_last_non_ws_all_ws, trim_spec,
};

verus! {

/// Classification of a lookup target; selects which template list of a
/// language catalog is run.
#[derive(Debug, Clone, Copy, PartialEq, Eq, Structural)]
pub enum QueryMode {
    Functions,
    Methods,
    Types,
}

/// The trimmed reference ends in the call-syntax marker `()`.
pub open spec fn has_marker(t: Seq<char>) -> bool {
    t.len() >= 2 && t[t.len() - 2] == '(' && t[t.len() - 1] == ')'
}

/// The reference with every trailing call-syntax marker removed.
pub open spec fn strip_markers(t: Seq<char>) -> Seq<char>
    decreases t.len(),
{
    if has_marker(t) {
        strip_markers(t.take(t.len() - 2))
    } else {
        t
    }
}

/// The part of the reference that names segments: trimmed of whitespace and
/// of trailing call-syntax markers.
pub open spec fn parse_core(s: Seq<char>) -> Seq<char> {
    strip_markers(trim_spec(s))
}

/// The trimmed reference carried a call-syntax marker.
pub open spec fn parse_is_call(s: Seq<char>) -> bool {
    has_marker(trim_spec(s))
}

/// Parsing succeeds exactly when something remains after trimming and
/// stripping the markers.
pub open spec fn parse_ok(s: Seq<char>) -> bool {
    parse_core(s).len() > 0
}

/// The function name a successful parse yields: the segment after the last
/// dot; with no dot, the whole core when the call-syntax marker was present.
pub open spec fn parse_function(s: Seq<char>) -> Option<Seq<char>> {
    let core = parse_core(s);
    let d = last_index_before(core, core.len() as int, '.');
    if d >= 0 {
        Some(core.subrange(d + 1, core.len() as int))
    } else if parse_is_call(s) {
        Some(core)
    } else {
        None
    }
}

/// The type name a successful parse yields: the second-to-last dot-separated
/// segment (earlier segments are discarded); with no dot, the whole core when
/// no call-syntax marker was present.
pub open spec fn parse_type(s: Seq<char>) -> Option<Seq<char>> {
    let core = parse_core(s);
    let d = last_index_before(core, core.len() as int, '.');
    if d >= 0 {
        let before = core.subrange(0, d);
        let d2 = last_index_before(before, before.len() as int, '.');
        if d2 >= 0 {
            Some(before.subrange(d2 + 1, before.len() as int))
        } else {
            Some(before)
        }
    } else if parse_is_call(s) {
        None
    } else {
        Some(core)
    }
}

/// A classified lookup target. At least one of the two names is always
/// present: a target with neither is rejected at construction and cannot be
/// built.
#[derive(Debug)]
pub struct Target {
    function_name: Option<String>,
    ty_name: Option<String>,
}

impl Target {
    /// At least one name is present.
    #[verifier::type_invariant]
    pub closed spec fn wf(self) -> bool {
        self.function_name is Some || self.ty_name is Some
    }

    pub closed spec fn spec_function_name(self) -> Option<Seq<char>> {
        match self.function_name {
            Some(n) => Some(n@),
            None => None,
        }
    }

    pub closed spec fn spec_ty_name(self) -> Option<Seq<char>> {
        match self.ty_name {
            Some(n) => Some(n@),
            None => None,
        }
    }

    /// The classification the two optional names induce.
    pub open spec fn spec_mode(self) -> QueryMode {
        if self.spec_ty_name() is Some {
            if self.spec_function_name() is Some {
                QueryMode::Methods
            } else {
                QueryMode::Types
            }
        } else {
            QueryMode::Functions
        }
    }

    /// A target for a method `function` bound to `ty_name`.
    pub fn new_method(ty_name: &str, function_name: &str) -> (r: Target)
        ensures
            r.spec_ty_name() == Some(ty_name@),
            r.spec_function_name() == Some(function_name@),
            r.spec_mode() == QueryMode::Methods,
    {
        Target {
            function_name: Some(String::from_str(function_name)),
            ty_name: Some(String::from_str(ty_name)),
        }
    }

    /// A target for a free function.
    pub fn new_function(function_name: &str) -> (r: Target)
        ensures
            r.spec_ty_name() is None,
            r.spec_function_name() == Some(function_name@),
            r.spec_mode() == QueryMode::Functions,
    {
        Target { function_name: Some(String::from_str(function_name)), ty_name: None }
    }

    /// A target for a type or class definition.
    pub fn new_class(ty_name: &str) -> (r: Target)
        ensures
            r.spec_ty_name() == Some(ty_name@),
            r.spec_function_name() is None,
            r.spec_mode() == QueryMode::Types,
    {
        Target { function_name: None, ty_name: Some(String::from_str(ty_name)) }
    }

    /// Whether a type name is present.
    pub fn is_typed(&self) -> (r: bool)
        ensures
            r == (self.spec_ty_name() is Some),
    {
        self.ty_name.is_some()
    }

    /// The classification of this target. Total: a target with neither name
    /// cannot be constructed.
    pub fn query_mode(&self) -> (m: QueryMode)
        ensures
            m == self.spec_mode(),
    {
        match (&self.ty_name, &self.function_name) {
            (Some(_), Some(_)) => QueryMode::Methods,
            (Some(_), None) => QueryMode::Types,
            (None, Some(_)) => QueryMode::Functions,
            (None, None) => {
                proof {
                    use_type_invariant(&*self);
                }
                vstd::pervasive::unreached()
            },
        }
    }

    pub fn function_name(&self) -> (r: &Option<String>)
        ensures
            r is Some <==> self.spec_function_name() is Some,
            r is Some ==> r->0@ == self.spec_function_name()->Some_0,
    {
        &self.function_name
    }

    pub fn ty_name(&self) -> (r: &Option<String>)
        ensures
            r is Some <==> self.spec_ty_name() is Some,
            r is Some ==> r->0@ == self.spec_ty_name()->Some_0,
    {
        &self.ty_name
    }

    /// The canonical rendering: `name()`, `Type.name()`, or `Type`.
    pub open spec fn display_spec(self) -> Seq<char> {
        match self.spec_mode() {
            QueryMode::Functions => self.spec_function_name()->Some_0 + "()"@,
            QueryMode::Methods => self.spec_ty_name()->Some_0 + "."@
                + self.spec_function_name()->Some_0 + "()"@,
            QueryMode::Types => self.spec_ty_name()->Some_0,
        }
    }

    /// Renders the canonical reference string for this target.
    pub fn display_string(&self) -> (r: String)
        ensures
            r@ == self.display_spec(),
    {
        proof {
            use_type_invariant(&*self);
        }
        match (&self.ty_name, &self.function_name) {
            (Some(t), Some(f)) => String::from_str(t.as_str()).concat(".").concat(
                f.as_str(),
            ).concat("()"),
            (Some(t), None) => String::from_str(t.as_str()),
            (None, Some(f)) => String::from_str(f.as_str()).concat("()"),
            (None, None) => vstd::pervasive::unreached(),
        }
    }

    /// The key-value pairs this target supplies to template substitution:
    /// the function name under `function`, the type name under `receiver`.
    pub open spec fn vars_spec(self) -> Seq<(Seq<char>, Seq<char>)> {
        (match self.spec_function_name() {
            Some(n) => seq![("function"@, n)],
            None => seq![],
        }) + (match self.spec_ty_name() {
            Some(n) => seq![("receiver"@, n)],
            None => seq![],
        })
    }

    /// The key-value pairs used to parameterize a query template.
    pub fn vars(&self) -> (r: Vec<(String, String)>)
        ensures
            pairs_view(r@) == self.vars_spec(),
    {
        let mut v: Vec<(String, String)> = Vec::new();
        if let Some(name) = &self.function_name {
            v.push((String::from_str("function"), name.clone()));
        }
        if let Some(name) = &self.ty_name {
            v.push((String::from_str("receiver"), name.clone()));
        }
        proof {
            assert(pairs_view(v@) =~= self.vars_spec());
        }
        v
    }

    /// Substitutes this target's identifiers into a query template. A
    /// template referencing a variable the target does not supply fails with
    /// `QueryPopulationError`.
    pub fn update_query(&self, query: &str) -> (r: Result<String, CodeError>)
        ensures
            r is Ok <==> strfmt_subst(query@, self.vars_spec()) is Ok,
            r is Ok ==> r->Ok_0@ == strfmt_subst(query@, self.vars_spec())->Ok_0,
            r is Err ==> r->Err_0 is QueryPopulationError,
    {
        let vars = self.vars();
        match crate::subst::run_strfmt(query, &vars) {
            Ok(s) => Ok(s),
            Err(e) => Err(CodeError::QueryPopulationError(e)),
        }
    }

    /// Parses a reference string of the form `Type`, `function()`, or
    /// `Type.function()` into a target. Whitespace is trimmed; trailing
    /// call-syntax markers are stripped; of a dotted path only the last two
    /// segments are kept. An empty reference is rejected.
    pub fn parse(full_path: &str) -> (r: Result<Target, CodeError>)
        ensures
            r is Ok <==> parse_ok(full_path@),
            r is Ok ==> r->Ok_0.spec_function_name() == parse_function(full_path@),
            r is Ok ==> r->Ok_0.spec_ty_name() == parse_type(full_path@),
            r is Err ==> r->Err_0 is TargetCanNotBeEmpty,
    {
        let ghost s = full_path@;
        let n = full_path.unicode_len();

        // Trim leading whitespace.
        let mut lo: usize = 0;
        while lo < n && is_ws_exec(full_path.get_char(lo))
            invariant
                n == s.len(),
                s == full_path@,
                0 <= lo <= n,
                first_non_ws_from(s, 0) == first_non_ws_from(s, lo as int),
                forall|k: int| 0 <= k < lo ==> is_ws(s[k]),
            decreases n - lo,
        {
            proof {
                assert(first_non_ws_from(s, lo as int) == first_non_ws_from(s, lo as int + 1));
            }
            lo += 1;
        }
        proof {
            assert(first_non_ws_from(s, 0) == lo as int);
        }

        // Trim trailing whitespace.
        let mut hi: usize = n;
        while hi > lo && is_ws_exec(full_path.get_char(hi - 1))
            invariant
                n == s.len(),
                s == full_path@,
                0 <= lo <= hi <= n,
                forall|k: int| 0 <= k < lo ==> is_ws(s[k]),
                last_non_ws_before(s, n as int) == last_non_ws_before(s, hi as int),
                forall|k: int| hi <= k < n ==> is_ws(s[k]),
            decreases hi,
        {
            proof {
                assert(last_non_ws_before(s, hi as int) == last_non_ws_before(s, hi as int - 1));
            }
            hi -= 1;
        }
        proof {
            if hi > lo {
                assert(last_non_ws_before(s, n as int) == hi - 1);
                assert(trim_spec(s) == s.subrange(lo as int, hi as int));
            } else {
                lemma_last_non_ws_all_ws(s, hi as int);
                assert(trim_spec(s) =~= s.subrange(lo as int, hi as int));
            }
        }
        let ghost t = trim_spec(s);

        // Note the call-syntax marker, then strip every trailing marker.
        let is_call = hi - lo >= 2 && full_path.get_char(hi - 2) == '(' && full_path.get_char(
            hi - 1,
        ) == ')';
        proof {
            assert(is_call == has_marker(t));
        }
        while hi - lo >= 2 && full_path.get_char(hi - 2) == '(' && full_path.get_char(hi - 1)
            == ')'
            invariant
                n == s.len(),
                s == full_path@,
                0 <= lo <= hi <= n,
                strip_markers(t) == strip_markers(s.subrange(lo as int, hi as int)),
            decreases hi,
        {
            proof {
                let cur = s.subrange(lo as int, hi as int);
                assert(has_marker(cur));
                assert(cur.take(cur.len() - 2) =~= s.subrange(lo as int, hi as int - 2));
            }
            hi -= 2;
        }
        proof {
            assert(!has_marker(s.subrange(lo as int, hi as int)));
            assert(parse_core(s) == s.subrange(lo as int, hi as int));
        }
        let ghost core = parse_core(s);

        if hi == lo {
            return Err(CodeError::TargetCanNotBeEmpty);
        }

        // Find the last dot of the core.
        let mut j: usize = hi;
        while j > lo && full_path.get_char(j - 1) != '.'
            invariant
                n == s.len(),
                s == full_path@,
                0 <= lo <= j <= hi <= n,
                core == s.subrange(lo as int, hi as int),
                last_index_before(core, core.len() as int, '.') == last_index_before(
                    core,
                    j as int - lo as int,
                    '.',
                ),
                forall|k: int| j <= k < hi ==> s[k] != '.',
            decreases j,
        {
            proof {
                assert(core[j as int - lo as int - 1] == s[j as int - 1]);
                lemma_last_index_before_step(core, j as int - lo as int, '.');
            }
            j -= 1;
        }
        let ghost d = last_index_before(core, core.len() as int, '.');

        if j == lo {
            // No dot: a single segment.
            proof {
                assert(d == -1);
            }
            let name = String::from_str(full_path.substring_char(lo, hi));
            if is_call {
                Ok(Target { function_name: Some(name), ty_name: None })
            } else {
                Ok(Target { function_name: None, ty_name: Some(name) })
            }
        } else {
            // A dot at j - 1: the segment after it is the function name.
            proof {
                assert(core[j as int - lo as int - 1] == s[j as int - 1]);
                assert(d == j as int - lo as int - 1);
                assert(s.subrange(j as int, hi as int) =~= core.subrange(
                    d + 1,
                    core.len() as int,
                ));
            }
            let function = String::from_str(full_path.substring_char(j, hi));
            let d1: usize = j - 1;
            let ghost before = core.subrange(0, d);
            proof {
                assert(before =~= s.subrange(lo as int, d1 as int));
            }

            // Find the dot before it, if any.
            let mut k: usize = d1;
            while k > lo && full_path.get_char(k - 1) != '.'
                invariant
                    n == s.len(),
                    s == full_path@,
                    0 <= lo <= k <= d1 < n,
                    before == s.subrange(lo as int, d1 as int),
                    last_index_before(before, before.len() as int, '.') == last_index_before(
                        before,
                        k as int - lo as int,
                        '.',
                    ),
                decreases k,
            {
                proof {
                    assert(before[k as int - lo as int - 1] == s[k as int - 1]);
                    lemma_last_index_before_step(before, k as int - lo as int, '.');
                }
                k -= 1;
            }
            let ghost d2 = last_index_before(before, before.len() as int, '.');

            let ty_name: String;
            if k == lo {
                proof {
                    assert(d2 == -1);
                }
                ty_name = String::from_str(full_path.substring_char(lo, d1));
            } else {
                proof {
                    assert(before[k as int - lo as int - 1] == s[k as int - 1]);
                    assert(d2 == k as int - lo as int - 1);
                    assert(s.subrange(k as int, d1 as int) =~= before.subrange(
                        d2 + 1,
                        before.len() as int,
                    ));
                }
                ty_name = String::from_str(full_path.substring_char(k, d1));
            }
            Ok(Target { function_name: Some(function), ty_name: Some(ty_name) })
        }
    }
}

} // verus!
