//! The type configuration: for each type, in traversal order, the types to
//! follow backward and forward from it.

use vstd::prelude::*;
use indexmap::IndexMap;

verus! {

/// The types reached from one configured type.
pub struct EdgeList {
    /// Types whose entities point to entities of the configured type.
    pub reverse: Vec<String>,
    /// Types of the entities that entities of the configured type point to.
    pub forward: Vec<String>,
}

#[verifier::external_type_specification]
#[verifier::external_body]
#[verifier::reject_recursive_types(K)]
#[verifier::reject_recursive_types(V)]
#[verifier::reject_recursive_types(S)]
pub struct ExIndexMap<K, V, S>(IndexMap<K, V, S>);

/// The ordered configuration: type IRI to its edges.
pub type TypeConfig = IndexMap<String, EdgeList>;

/// The entries of a configuration in their order: each type with its reverse
/// and its forward types.
pub uninterp spec fn config_entries(
    config: IndexMap<String, EdgeList>,
) -> Seq<(Seq<char>, Seq<Seq<char>>, Seq<Seq<char>>)>;

/// Relies on `IndexMap::len`: the number of entries.
#[verifier::external_body]
pub(crate) fn entry_count(config: &IndexMap<String, EdgeList>) -> (r: usize)
    ensures
        r == config_entries(*config).len(),
{
    config.len()
}

/// Relies on `IndexMap::get_index`: the entry at a position of the
/// insertion order, and none past the last.
#[verifier::external_body]
pub(crate) fn entry_at(config: &IndexMap<String, EdgeList>, index: usize) -> (r: Option<
    (&String, &EdgeList),
>)
    ensures
        match r {
            Some((ty, edges)) => index < config_entries(*config).len() && config_entries(
                *config,
            )[index as int] == (ty@, edges.reverse.deep_view(), edges.forward.deep_view()),
            None => index >= config_entries(*config).len(),
        },
{
    config.get_index(index)
}

} // verus!
