use vstd::prelude::*;

verus! {

/// What `strfmt::strfmt` gives for a template and a table of named string values, `None`
/// standing for its error. The table is given as a list of `(key, value)` pairs; where a
/// key occurs twice, the later pair is the one in the table.
pub uninterp spec fn strfmt_output(template: Seq<char>, vars: Seq<(Seq<char>, Seq<char>)>) -> Option<
    Seq<char>,
>;

/// The characters of each key and value in a list of pairs.
pub open spec fn pairs_view(vars: Seq<(String, String)>) -> Seq<(Seq<char>, Seq<char>)> {
    vars.map_values(|p: (String, String)| (p.0@, p.1@))
}

/// The characters of an optional string.
pub open spec fn opt_view(o: Option<String>) -> Option<Seq<char>> {
    match o {
        Some(s) => Some(s@),
        None => None,
    }
}

/// Calls `strfmt::strfmt` with a `HashMap` built from `vars`. The contract claims only that
/// the outcome is the one `strfmt_output` names for the template and the pairs; how the
/// template is expanded is not stated here.
#[verifier::external_body]
fn strfmt_call(template: &str, vars: &Vec<(String, String)>) -> (r: Option<String>)
    ensures
        opt_view(r) == strfmt_output(template@, pairs_view(vars@)),
{
    let table: std::collections::HashMap<String, String> = vars.iter().cloned().collect();
    strfmt::strfmt(template, &table).ok()
}

/// The single pair `(key, value)` as a list.
pub open spec fn one_var(key: Seq<char>, value: Seq<char>) -> Seq<(Seq<char>, Seq<char>)> {
    seq![(key, value)]
}

/// The two pairs `(k1, v1), (k2, v2)` as a list.
pub open spec fn two_vars(k1: Seq<char>, v1: Seq<char>, k2: Seq<char>, v2: Seq<char>) -> Seq<
    (Seq<char>, Seq<char>),
> {
    seq![(k1, v1), (k2, v2)]
}

/// Fills `template` with one named value (a `{KEY}` placeholder); `None` where the template
/// cannot be filled (a malformed template or an unknown key).
pub fn fill_template1(template: &str, key: &str, value: &str) -> (r: Option<String>)
    ensures
        opt_view(r) == strfmt_output(template@, one_var(key@, value@)),
{
    let mut vars: Vec<(String, String)> = Vec::new();
    vars.push((key.to_string(), value.to_string()));
    let r = strfmt_call(template, &vars);
    assert(pairs_view(vars@) =~= one_var(key@, value@));
    r
}

/// Fills `template` with two named values; `None` where the template cannot be filled.
pub fn fill_template2(template: &str, k1: &str, v1: &str, k2: &str, v2: &str) -> (r: Option<String>)
    ensures
        opt_view(r) == strfmt_output(template@, two_vars(k1@, v1@, k2@, v2@)),
{
    let mut vars: Vec<(String, String)> = Vec::new();
    vars.push((k1.to_string(), v1.to_string()));
    vars.push((k2.to_string(), v2.to_string()));
    let r = strfmt_call(template, &vars);
    assert(pairs_view(vars@) =~= two_vars(k1@, v1@, k2@, v2@));
    r
}

} // verus!
