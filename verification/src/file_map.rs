//! Maps from files to text, as hashbrown keeps them.
use vstd::prelude::*;

verus! {

/// hashbrown's hash map.
#[verifier::external_type_specification]
#[verifier::external_body]
#[verifier::reject_recursive_types(K)]
#[verifier::reject_recursive_types(V)]
#[verifier::reject_recursive_types(S)]
pub struct ExHashMap<K, V, S>(hashbrown::HashMap<K, V, S>);

/// The hasher that hashbrown's maps use where none is named.
#[verifier::external_type_specification]
#[verifier::external_body]
pub struct ExDefaultHashBuilder(hashbrown::hash_map::DefaultHashBuilder);

/// What a map holds: each key with the characters of its value.
pub uninterp spec fn entries(map: hashbrown::HashMap<u128, String>) -> Map<u128, Seq<char>>;

/// Calls `hashbrown::HashMap::new`: the map holds nothing.
#[verifier::external_body]
pub(crate) fn new_map() -> (made: hashbrown::HashMap<u128, String>)
    ensures
        entries(made) == (Map::<u128, Seq<char>>::empty()),
{
    hashbrown::HashMap::new()
}

/// Calls `hashbrown::HashMap::insert`: the key holds the value afterwards, whatever it held
/// before is handed back, and the other keys keep what they hold.
#[verifier::external_body]
pub(crate) fn insert(
    map: &mut hashbrown::HashMap<u128, String>,
    key: u128,
    value: String,
) -> (before: Option<String>)
    ensures
        entries(*final(map)) == entries(*old(map)).insert(key, value@),
        before is Some <==> entries(*old(map)).contains_key(key),
        before matches Some(text) ==> text@ == entries(*old(map))[key],
{
    map.insert(key, value)
}

} // verus!
