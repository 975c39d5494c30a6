use crate::error::DowngradeError;
use crate::ordered_map::{
    keys, lemma_first_failure_exists, lemma_try_map_keeps_keys, lemma_try_mapped_by_agrees,
    outcome_view, try_map_entries, Entries, OrderedMap,
};
use crate::v3_0::objects::PathItem;
use crate::v3_1;
use crate::v3_1::callback::free_of_referenced_path_items;
use vstd::prelude::*;

verus! {

/// A map of possible out-of band callbacks related to the parent operation.
/// Each value in the map is a Path Item Object that describes a set of
/// requests that may be initiated by the API provider and the expected
/// responses. The key value used to identify the callback object is an
/// expression, evaluated at runtime, that identifies a URL to use for the
/// callback operation.
pub type Callback = OrderedMap<PathItem>;

/// The image of one value of a newer-revision callback. A Path Item is never
/// the target of a reference, so a cell that only names one violates the
/// format; an inline or a resolved Path Item yields its own image.
pub open spec fn path_item_downgraded(cell: v3_1::ReferenceOr<v3_1::PathItem>) -> Result<
    PathItem,
    DowngradeError,
> {
    match cell.item() {
        Some(item) => Ok(PathItem::downgraded(item)),
        None => Err(DowngradeError::StructuralInvariantViolation),
    }
}

/// The image of a newer-revision callback, given by its entries: the Path
/// Items under the same expressions in the same order, or the violation that
/// the first referenced Path Item is.
pub open spec fn callback_downgraded(entries: Entries<v3_1::ReferenceOr<v3_1::PathItem>>) -> Result<
    Entries<PathItem>,
    DowngradeError,
> {
    try_map_entries(entries, |cell: v3_1::ReferenceOr<v3_1::PathItem>| path_item_downgraded(cell))
}

/// A callback converts exactly if none of its Path Items is a bare
/// reference. It then keeps its expressions in their order; otherwise the
/// outcome is the structural violation.
pub proof fn lemma_callback_downgraded(entries: Entries<v3_1::ReferenceOr<v3_1::PathItem>>)
    ensures
        callback_downgraded(entries) is Ok <==> free_of_referenced_path_items(entries),
        callback_downgraded(entries) matches Ok(items) ==> keys(items) == keys(entries),
        callback_downgraded(entries) matches Err(e) ==> e
            == DowngradeError::StructuralInvariantViolation,
{
    let f = |cell: v3_1::ReferenceOr<v3_1::PathItem>| path_item_downgraded(cell);
    if callback_downgraded(entries) is Ok {
        lemma_try_map_keeps_keys(entries, f);
        assert forall|i: int| 0 <= i < entries.len() implies !((#[trigger] entries[i]).1
            is Reference) by {
            assert(f(entries[i].1) is Ok);
        }
    } else {
        lemma_first_failure_exists(entries, f);
        if free_of_referenced_path_items(entries) {
            assert forall|i: int| 0 <= i < entries.len() implies f(#[trigger] entries[i].1) is Ok by {
                assert(!(entries[i].1 is Reference));
            }
        }
    }
}

fn path_item_from_v3_1(cell: v3_1::ReferenceOr<v3_1::PathItem>) -> (out: Result<
    PathItem,
    DowngradeError,
>)
    ensures
        out == path_item_downgraded(cell),
{
    match cell {
        v3_1::ReferenceOr::Reference { .. } => Err(DowngradeError::StructuralInvariantViolation),
        v3_1::ReferenceOr::Item(item) => Ok(PathItem::from(item)),
        v3_1::ReferenceOr::DereferencedReference { reference: _, item } => Ok(PathItem::from(item)),
    }
}

/// Downgrades a callback: every Path Item is converted under its expression,
/// in order. Fails with [`DowngradeError::StructuralInvariantViolation`]
/// exactly if some Path Item is given as a bare reference.
pub fn callback_from_v3_1(a: v3_1::Callback) -> (out: Result<Callback, DowngradeError>)
    ensures
        outcome_view(out) == callback_downgraded(a@),
        out is Ok <==> free_of_referenced_path_items(a@),
        out matches Ok(callback) ==> keys(callback@) == keys(a@),
        out matches Err(e) ==> e == DowngradeError::StructuralInvariantViolation,
{
    let ghost entries = a@;
    let convert = |cell: v3_1::ReferenceOr<v3_1::PathItem>| -> (r: Result<PathItem, DowngradeError>)
        ensures
            r == path_item_downgraded(cell),
        { path_item_from_v3_1(cell) };
    let out = a.try_map_values(convert);
    proof {
        lemma_try_mapped_by_agrees(
            entries,
            convert,
            |cell: v3_1::ReferenceOr<v3_1::PathItem>| path_item_downgraded(cell),
            outcome_view(out),
        );
        lemma_callback_downgraded(entries);
    }
    out
}

} // verus!
