//! The outside types that the model carries through without looking inside.

use vstd::prelude::*;

verus! {

/// `indexmap::IndexMap`, the insertion-ordered hash map. The model holds such
/// maps for extension fields and scope tables and hands them on unchanged;
/// nothing here reads or alters one, so the type is declared without a view.
#[verifier::external_type_specification]
#[verifier::external_body]
#[verifier::reject_recursive_types(K)]
#[verifier::reject_recursive_types(V)]
#[verifier::reject_recursive_types(S)]
pub struct ExIndexMap<K, V, S>(indexmap::IndexMap<K, V, S>);

/// `IndexMap::clone`, which the derived `Clone` of the model's types calls.
/// A copy of a map is only as faithful as the copies of its keys and values,
/// so nothing is claimed of the result.
pub assume_specification<K, V, S>[ <indexmap::IndexMap<K, V, S> as Clone>::clone ](
    m: &indexmap::IndexMap<K, V, S>,
) -> (copy: indexmap::IndexMap<K, V, S>) where K: Clone, V: Clone, S: Clone
;

/// `serde_json::Value`, an untyped JSON value. Extension fields and examples
/// hold such values; the model moves them and never inspects them.
#[verifier::external_type_specification]
#[verifier::external_body]
pub struct ExValue(serde_json::Value);

/// `Value::clone`, which the derived `Clone` of the model's types calls.
/// Nothing is claimed of the result.
pub assume_specification[ <serde_json::Value as Clone>::clone ](v: &serde_json::Value) -> (copy:
    serde_json::Value)
;

} // verus!
