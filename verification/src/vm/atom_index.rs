//! The name index behind the atom interner: a radix trie from atom names
//! to atom-table slots.  The trie itself comes from the `radix_trie`
//! crate; the machine sees it only through the contracts below, stated
//! over `trie_entries`, the mapping the trie holds.

use vstd::prelude::*;

verus! {

#[verifier::external_type_specification]
#[verifier::external_body]
#[verifier::reject_recursive_types(K)]
#[verifier::reject_recursive_types(V)]
pub struct ExTrie<K, V>(radix_trie::Trie<K, V>);

/// The key-to-value mapping held by a name trie, with keys read as
/// character sequences.
pub uninterp spec fn trie_entries(t: &radix_trie::Trie<String, usize>) -> Map<Seq<char>, usize>;

/// Relies on `radix_trie::Trie::new`: a new trie is empty.
#[verifier::external_body]
pub fn trie_new() -> (t: radix_trie::Trie<String, usize>)
    ensures
        forall|s: Seq<char>| !trie_entries(&t).contains_key(s),
{
    radix_trie::Trie::new()
}

/// Relies on `radix_trie::Trie::get`: it returns the value stored under
/// the key, if any.  A `str` key looks up the `String` entry with the
/// same characters, since both encode as their bytes.
#[verifier::external_body]
pub fn trie_get(t: &radix_trie::Trie<String, usize>, key: &str) -> (r: Option<usize>)
    ensures
        r == if trie_entries(t).contains_key(key@) {
            Some(trie_entries(t)[key@])
        } else {
            None::<usize>
        },
{
    t.get(key).copied()
}

/// Relies on `radix_trie::Trie::insert`: it stores the value under the
/// key, replacing any previous entry.
#[verifier::external_body]
pub fn trie_insert(t: &mut radix_trie::Trie<String, usize>, key: String, value: usize)
    ensures
        trie_entries(&*final(t)) == trie_entries(&*old(t)).insert(key@, value),
{
    let _ = t.insert(key, value);
}

} // verus!
