//! Template parameterization: substituting a target's identifiers into a
//! query template through the `strfmt` formatting crate.
use vstd::prelude::*;

verus! {

/// What `strfmt::strfmt` returns for a template and a list of key-value
/// pairs: `Ok` with the substituted text, or `Err` when the template refers
/// to a missing key or is itself malformed. The outcome depends on the
/// template and the pairs alone.
pub uninterp spec fn strfmt_subst(template: Seq<char>, vars: Seq<(Seq<char>, Seq<char>)>) -> Result<
    Seq<char>,
    (),
>;

/// The views of a list of key-value pairs.
pub open spec fn pairs_view(vs: Seq<(String, String)>) -> Seq<(Seq<char>, Seq<char>)> {
    vs.map_values(|p: (String, String)| (p.0@, p.1@))
}

/// The views of a list of strings.
pub open spec fn views_of(vs: Seq<String>) -> Seq<Seq<char>> {
    vs.map_values(|s: String| s@)
}

/// The queries an ordered template list yields under substitution: each
/// template's substituted text, in template order, with the templates that
/// fail to substitute dropped.
pub open spec fn param_seq(templates: Seq<Seq<char>>, vars: Seq<(Seq<char>, Seq<char>)>) -> Seq<
    Seq<char>,
>
    decreases templates.len(),
{
    if templates.len() == 0 {
        Seq::empty()
    } else {
        let rest = param_seq(templates.drop_first(), vars);
        match strfmt_subst(templates[0], vars) {
            Ok(q) => seq![q] + rest,
            Err(_) => rest,
        }
    }
}

/// Relies on strfmt::strfmt: it replaces each `{key}` placeholder of the
/// template with the value bound to that key, errs on a key it cannot
/// resolve, and computes the outcome from the template and the pairs alone.
/// A later pair with the same key shadows an earlier one.
#[verifier::external_body]
pub(crate) fn run_strfmt(template: &str, vars: &Vec<(String, String)>) -> (r: Result<
    String,
    String,
>)
    ensures
        r is Ok <==> strfmt_subst(template@, pairs_view(vars@)) is Ok,
        r is Ok ==> r->Ok_0@ == strfmt_subst(template@, pairs_view(vars@))->Ok_0,
{
    let mut map: std::collections::HashMap<String, String> = std::collections::HashMap::new();
    for (k, v) in vars.iter() {
        map.insert(k.clone(), v.clone());
    }
    match strfmt::strfmt(template, &map) {
        Ok(s) => Ok(s),
        Err(e) => Err(e.to_string()),
    }
}

} // verus!
