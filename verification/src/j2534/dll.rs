//! Which adapter libraries are installed.

use vstd::prelude::*;
use vstd::string::*;
use crate::text::{lowercase, lowercase_text};

verus! {

/// The registry key under which adapters are listed.
pub open spec fn registry_key() -> Seq<char> {
    "SOFTWARE\\PassThruSupport.04.04"@
}

/// The path of the adapter library that is tried where none was found.
pub open spec fn default_path() -> Seq<char> {
    "C:\\Program Files (x86)\\Drew Technologies, Inc\\J2534\\MongoosePro JLR\\monpj432.dll"@
}

/// The registry key under which adapters are listed.
pub fn registry_path() -> (key: &'static str)
    ensures
        key@ == registry_key(),
{
    "SOFTWARE\\PassThruSupport.04.04"
}

/// The path of the adapter library that is tried where none was found.
pub fn default_mongoose_dll_path() -> (path: String)
    ensures
        path@ == default_path(),
{
    String::from_str(
        "C:\\Program Files (x86)\\Drew Technologies, Inc\\J2534\\MongoosePro JLR\\monpj432.dll",
    )
}

/// An adapter as the registry lists it: its name and the path of its
/// library.
pub open spec fn listed(entry: (String, String)) -> (Seq<char>, Seq<char>) {
    (entry.0@, entry.1@)
}

/// The path of an entry in lower case.
pub open spec fn lower_path(entry: (String, String)) -> Seq<char> {
    lowercase(entry.1@)
}

/// Whether the library of the entry at `i` stands in the list before `i`
/// already, whatever the case of its path.
pub open spec fn seen_before(found: Seq<(String, String)>, i: int) -> bool {
    exists|j: int| 0 <= j < i && #[trigger] lower_path(found[j]) == lower_path(found[i])
}

/// The entries of `found` whose library no earlier entry names, in the
/// order of the list.
pub open spec fn first_of_each(found: Seq<(String, String)>) -> Seq<(Seq<char>, Seq<char>)>
    decreases found.len(),
{
    if found.len() == 0 {
        Seq::<(Seq<char>, Seq<char>)>::empty()
    } else if seen_before(found, found.len() - 1) {
        first_of_each(found.drop_last())
    } else {
        first_of_each(found.drop_last()).push(listed(found.last()))
    }
}

/// The adapters of a list.
pub open spec fn all_listed(entries: Seq<(String, String)>) -> Seq<(Seq<char>, Seq<char>)> {
    entries.map_values(|e: (String, String)| listed(e))
}

/// Whether one of `seen` is `text`.
pub open spec fn among(seen: Seq<String>, text: Seq<char>) -> bool {
    exists|k: int| 0 <= k < seen.len() && (#[trigger] seen[k])@ == text
}

fn holds(seen: &Vec<String>, text: &String) -> (found: bool)
    ensures
        found == among(seen@, text@),
{
    let n = seen.len();
    let mut k: usize = 0;
    while k < n
        invariant
            n == seen@.len(),
            k <= n,
            forall|j: int| 0 <= j < k ==> (#[trigger] seen@[j])@ != text@,
        decreases n - k,
    {
        if seen[k] == *text {
            return true;
        }
        k += 1;
    }
    false
}

proof fn lemma_seen(found: Seq<(String, String)>, lowers: Seq<String>, i: int)
    requires
        0 <= i < found.len(),
        lowers.len() == i,
        forall|j: int| 0 <= j < i ==> (#[trigger] lowers[j])@ == lower_path(found[j]),
    ensures
        among(lowers, lower_path(found[i])) == seen_before(found.subrange(0, i + 1), i),
{
    let next = found.subrange(0, i + 1);
    if among(lowers, lower_path(found[i])) {
        let k = choose|k: int| 0 <= k < lowers.len() && (#[trigger] lowers[k])@ == lower_path(found[i]);
        assert(lower_path(next[k]) == lower_path(next[i]));
    }
    if seen_before(next, i) {
        let j = choose|j: int| 0 <= j < i && #[trigger] lower_path(next[j]) == lower_path(next[i]);
        assert(lowers[j]@ == lower_path(found[i]));
    }
}

/// The installed adapters, each library once: `found` holds what both
/// views of the registry list, and an entry whose library an earlier entry
/// names already, whatever the case of its path, is left out.
pub fn discover_j2534_dlls(found: Vec<(String, String)>) -> (adapters: Vec<(String, String)>)
    ensures
        all_listed(adapters@) == first_of_each(found@),
{
    let n = found.len();
    let mut adapters: Vec<(String, String)> = Vec::new();
    let mut lowers: Vec<String> = Vec::new();
    let mut i: usize = 0;
    assert(all_listed(adapters@) =~= first_of_each(found@.subrange(0, 0)));
    while i < n
        invariant
            n == found@.len(),
            i <= n,
            lowers@.len() == i,
            all_listed(adapters@) == first_of_each(found@.subrange(0, i as int)),
            forall|j: int| 0 <= j < i ==> (#[trigger] lowers@[j])@ == lower_path(found@[j]),
        decreases n - i,
    {
        let ghost next = found@.subrange(0, i + 1);
        assert(next.drop_last() =~= found@.subrange(0, i as int));
        assert(next.last() == found@[i as int]);
        let lower = lowercase_text(found[i].1.as_str());
        let known = holds(&lowers, &lower);
        proof {
            lemma_seen(found@, lowers@, i as int);
        }
        if !known {
            let ghost before = adapters@;
            adapters.push((found[i].0.clone(), found[i].1.clone()));
            assert(all_listed(adapters@) =~= all_listed(before).push(listed(found@[i as int])));
        }
        lowers.push(lower);
        i += 1;
    }
    assert(found@.subrange(0, n as int) =~= found@);
    adapters
}

} // verus!
