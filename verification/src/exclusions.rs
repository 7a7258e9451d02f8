use vstd::prelude::*;
use crate::text::{contains_str, has_substring, str_eq};

verus! {

/// The characters of each string in a list.
pub open spec fn strings_view(v: Seq<String>) -> Seq<Seq<char>> {
    v.map_values(|s: String| s@)
}

/// A package is held back from an upgrade when one of the excluded names occurs in its name.
pub open spec fn excluded_by(name: Seq<char>, exclusions: Seq<Seq<char>>) -> bool {
    exists|i: int| 0 <= i < exclusions.len() && has_substring(name, #[trigger] exclusions[i])
}

/// Whether one of `exclusions` occurs in `name`.
pub fn is_excluded(name: &str, exclusions: &Vec<String>) -> (r: bool)
    ensures
        r == excluded_by(name@, strings_view(exclusions@)),
{
    let mut i: usize = 0;
    while i < exclusions.len()
        invariant
            i <= exclusions.len(),
            forall|j: int| 0 <= j < i ==> !has_substring(name@, #[trigger] exclusions@[j]@),
        decreases exclusions.len() - i,
    {
        if contains_str(name, exclusions[i].as_str()) {
            assert(strings_view(exclusions@)[i as int] == exclusions@[i as int]@);
            return true;
        }
        i = i + 1;
    }
    assert forall|j: int|
        0 <= j < strings_view(exclusions@).len() implies !has_substring(
        name@,
        #[trigger] strings_view(exclusions@)[j],
    ) by {
        assert(strings_view(exclusions@)[j] == exclusions@[j]@);
    }
    false
}

/// Removes every string equal to `name` from the list, keeping the order of the others.
pub fn remove_all_equal(exclusions: &mut Vec<String>, name: &str)
    ensures
        strings_view(final(exclusions)@) == strings_view(old(exclusions)@).filter(
            |s: Seq<char>| s != name@,
        ),
{
    let ghost before = strings_view(exclusions@);
    let mut kept: Vec<String> = Vec::new();
    let mut i: usize = 0;
    while i < exclusions.len()
        invariant
            i <= exclusions.len(),
            before == strings_view(exclusions@),
            strings_view(kept@) == before.take(i as int).filter(|s: Seq<char>| s != name@),
        decreases exclusions.len() - i,
    {
        proof {
            reveal_with_fuel(Seq::<_>::filter, 1);
        }
        assert(before.take(i + 1).drop_last() =~= before.take(i as int));
        assert(before.take(i + 1).last() == exclusions@[i as int]@);
        if !str_eq(exclusions[i].as_str(), name) {
            let s = exclusions[i].clone();
            kept.push(s);
            assert(strings_view(kept@) =~= strings_view(kept@).drop_last().push(s@));
        }
        assert(strings_view(kept@) =~= before.take(i + 1).filter(|s: Seq<char>| s != name@))
            by {
            if !(exclusions@[i as int]@ != name@) {
                assert(strings_view(kept@) =~= before.take(i as int).filter(
                    |s: Seq<char>| s != name@,
                ));
            }
        }
        i = i + 1;
    }
    assert(before.take(exclusions.len() as int) =~= before);
    *exclusions = kept;
}

/// Removes every copy of `name` from the excluded list: the package was marked for the
/// upgrade again.
pub fn include_package(exclusions: &mut Vec<String>, name: &str)
    ensures
        strings_view(final(exclusions)@) == strings_view(old(exclusions)@).filter(
            |s: Seq<char>| s != name@,
        ),
{
    remove_all_equal(exclusions, name);
}

/// Adds `name` at the end of the excluded list: the package was unmarked.
pub fn exclude_package(exclusions: &mut Vec<String>, name: &str)
    ensures
        strings_view(final(exclusions)@) == strings_view(old(exclusions)@).push(name@),
{
    exclusions.push(name.to_string());
    assert(strings_view(exclusions@) =~= strings_view(old(exclusions)@).push(name@));
}

/// One entry of the exclusions file as JSON text: `{"package":"<name>"}`. The name is put
/// in as it is, without escaping.
pub fn exclusion_entry_json(name: &str) -> (r: String)
    ensures
        r@ == "{\"package\":\""@ + name@ + "\"}"@,
{
    let mut r = "{\"package\":\"".to_string();
    r.append(name);
    r.append("\"}");
    r
}

/// The package names of the exclusions file, in order, from each entry's `package` value
/// where it is a string (entries without one are skipped).
pub fn exclusions_from_entries(entries: &Vec<Option<String>>) -> (r: Vec<String>)
    ensures
        strings_view(r@) == entry_names(entries@),
{
    let mut r: Vec<String> = Vec::new();
    let mut i: usize = 0;
    while i < entries.len()
        invariant
            i <= entries.len(),
            strings_view(r@) == entry_names(entries@.take(i as int)),
        decreases entries.len() - i,
    {
        assert(entries@.take(i + 1).drop_last() =~= entries@.take(i as int));
        match &entries[i] {
            Some(name) => {
                r.push(name.clone());
                assert(strings_view(r@) =~= strings_view(r@).drop_last().push(name@));
            },
            None => {},
        }
        i = i + 1;
    }
    assert(entries@.take(entries.len() as int) =~= entries@);
    r
}

/// The names present in a list of optional names.
pub open spec fn entry_names(entries: Seq<Option<String>>) -> Seq<Seq<char>>
    decreases entries.len(),
{
    if entries.len() == 0 {
        Seq::<Seq<char>>::empty()
    } else {
        let prev = entry_names(entries.drop_last());
        match entries.last() {
            Some(s) => prev.push(s@),
            None => prev,
        }
    }
}

} // verus!

verus! {

proof fn lemma_filter_keeps_all(v: Seq<Seq<char>>, n: Seq<char>)
    requires
        !v.contains(n),
    ensures
        v.filter(|s: Seq<char>| s != n) == v,
    decreases v.len(),
{
    reveal_with_fuel(Seq::<_>::filter, 1);
    if v.len() > 0 {
        assert(!v.drop_last().contains(n)) by {
            if v.drop_last().contains(n) {
                let i = choose|i: int| 0 <= i < v.drop_last().len() && v.drop_last()[i] == n;
                assert(v[i] == n);
            }
        }
        lemma_filter_keeps_all(v.drop_last(), n);
        assert(v.last() != n) by {
            if v.last() == n {
                assert(v[v.len() - 1] == n);
            }
        }
        assert(v.drop_last().push(v.last()) =~= v);
    } else {
        assert(v.filter(|s: Seq<char>| s != n) =~= v);
    }
}

/// Unmarking a package that was not excluded and marking it again leaves the excluded list
/// as it was.
pub proof fn law_exclude_then_include_restores(exclusions: Seq<Seq<char>>, name: Seq<char>)
    requires
        !exclusions.contains(name),
    ensures
        exclusions.push(name).filter(|s: Seq<char>| s != name) == exclusions,
{
    reveal_with_fuel(Seq::<_>::filter, 1);
    lemma_filter_keeps_all(exclusions, name);
    assert(exclusions.push(name).drop_last() =~= exclusions);
}

/// After a package is marked again, its name is no longer in the excluded list.
pub proof fn law_include_removes(exclusions: Seq<Seq<char>>, name: Seq<char>)
    ensures
        !exclusions.filter(|s: Seq<char>| s != name).contains(name),
{
    let f = exclusions.filter(|s: Seq<char>| s != name);
    if f.contains(name) {
        let i = choose|i: int| 0 <= i < f.len() && f[i] == name;
        exclusions.lemma_filter_pred(|s: Seq<char>| s != name, i);
    }
}

/// A package whose name was just added to the excluded list is held back.
pub proof fn law_excluded_after_exclude(exclusions: Seq<Seq<char>>, name: Seq<char>)
    ensures
        excluded_by(name, exclusions.push(name)),
{
    let v = exclusions.push(name);
    assert(v[exclusions.len() as int] == name);
    assert(name.subrange(0int, 0int + v[exclusions.len() as int].len()) =~= v[exclusions.len() as int]);
    assert(has_substring(name, v[exclusions.len() as int]));
}

} // verus!
