//! The variable map the sandboxed module fills for display: string keys to
//! string values, keys unique, insertion order preserved. It is kept in an
//! `indexmap::IndexMap`, declared here with trusted contracts over a name
//! for its contents.

use vstd::prelude::*;

use indexmap::IndexMap;

verus! {

#[verifier::external_type_specification]
#[verifier::external_body]
#[verifier::reject_recursive_types(K)]
#[verifier::reject_recursive_types(V)]
#[verifier::reject_recursive_types(S)]
pub struct ExIndexMap<K, V, S>(IndexMap<K, V, S>);

/// The entries an `IndexMap` holds, as key and value character sequences in
/// the map's order.
pub uninterp spec fn variable_entries(m: IndexMap<String, String>) -> Seq<(Seq<char>, Seq<char>)>;

/// No two entries carry the same key.
pub open spec fn vars_unique(s: Seq<(Seq<char>, Seq<char>)>) -> bool {
    forall|i: int, j: int| 0 <= i < j < s.len() ==> (#[trigger] s[i]).0 != (#[trigger] s[j]).0
}

/// Whether some entry carries the key `k`.
pub open spec fn vars_has_key(s: Seq<(Seq<char>, Seq<char>)>, k: Seq<char>) -> bool {
    exists|i: int| 0 <= i < s.len() && (#[trigger] s[i]).0 == k
}

/// Whether some entry is exactly the pair `(k, v)`.
pub open spec fn vars_has_pair(s: Seq<(Seq<char>, Seq<char>)>, k: Seq<char>, v: Seq<char>) -> bool {
    exists|i: int| 0 <= i < s.len() && #[trigger] s[i] == (k, v)
}

/// Relies on `IndexMap::new`: the new map is empty.
#[verifier::external_body]
pub(crate) fn var_map_new() -> (r: IndexMap<String, String>)
    ensures
        variable_entries(r) == Seq::<(Seq<char>, Seq<char>)>::empty(),
{
    IndexMap::new()
}

/// Relies on `IndexMap::len`: the number of entries.
#[verifier::external_body]
pub(crate) fn var_map_len(m: &IndexMap<String, String>) -> (r: usize)
    ensures
        r == variable_entries(*m).len(),
{
    m.len()
}

/// Relies on `IndexMap::get`: the value stored under the key, if any.
#[verifier::external_body]
pub(crate) fn var_map_get(m: &IndexMap<String, String>, key: &str) -> (r: Option<String>)
    ensures
        match r {
            Some(v) => vars_has_pair(variable_entries(*m), key@, v@),
            None => !vars_has_key(variable_entries(*m), key@),
        },
{
    m.get(key).cloned()
}

/// Relies on `IndexMap::insert`: an existing key keeps its place and gets
/// the new value; an absent key is appended last. Keys stay unique.
#[verifier::external_body]
pub(crate) fn var_map_insert(m: &mut IndexMap<String, String>, key: String, value: String)
    ensures
        vars_has_key(variable_entries(*old(m)), key@) ==> exists|i: int|
            0 <= i < variable_entries(*old(m)).len() && (#[trigger] variable_entries(*old(m))[i]).0
                == key@ && variable_entries(*final(m)) == variable_entries(*old(m)).update(
                i,
                (key@, value@),
            ),
        !vars_has_key(variable_entries(*old(m)), key@) ==> variable_entries(*final(m))
            == variable_entries(*old(m)).push((key@, value@)),
        vars_unique(variable_entries(*old(m))) ==> vars_unique(variable_entries(*final(m))),
{
    m.insert(key, value);
}

/// Relies on `IndexMap::clear`: removes every entry.
#[verifier::external_body]
pub(crate) fn var_map_clear(m: &mut IndexMap<String, String>)
    ensures
        variable_entries(*final(m)) == Seq::<(Seq<char>, Seq<char>)>::empty(),
{
    m.clear();
}

/// Relies on `IndexMap::get_index`: the entry at a position in the map's
/// order, if the position is in range.
#[verifier::external_body]
pub(crate) fn var_map_index(m: &IndexMap<String, String>, i: usize) -> (r: Option<(String, String)>)
    ensures
        match r {
            Some(kv) => i < variable_entries(*m).len() && variable_entries(*m)[i as int] == (
                kv.0@,
                kv.1@,
            ),
            None => i >= variable_entries(*m).len(),
        },
{
    m.get_index(i).map(|(k, v)| (k.clone(), v.clone()))
}

} // verus!
