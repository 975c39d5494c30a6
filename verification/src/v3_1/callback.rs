use crate::ordered_map::{Entries, OrderedMap};
use crate::v3_1::objects::PathItem;
use crate::v3_1::reference::ReferenceOr;
use vstd::prelude::*;

verus! {

/// A map of possible out-of-band callbacks related to the parent operation.
/// The key is an expression, evaluated at runtime, that identifies the URL to
/// use for the callback; the value is the Path Item that describes the
/// requests the API provider may send.
pub type Callback = OrderedMap<ReferenceOr<PathItem>>;

/// No value of the callback is a bare reference.
pub open spec fn free_of_referenced_path_items(entries: Entries<ReferenceOr<PathItem>>) -> bool {
    forall|i: int| 0 <= i < entries.len() ==> !((#[trigger] entries[i]).1 is Reference)
}

} // verus!
