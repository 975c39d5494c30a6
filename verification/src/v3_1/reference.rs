use vstd::prelude::*;

verus! {

/// The reference cell of the newer revision: exactly one of a named
/// reference, an inline value, or a resolved reference that keeps the name it
/// was resolved from.
#[derive(Clone, Debug, PartialEq)]
pub enum ReferenceOr<T> {
    Reference { reference: String },
    Item(T),
    DereferencedReference { reference: String, item: T },
}

impl<T> ReferenceOr<T> {
    /// The value that the cell contains, if it contains one.
    pub open spec fn item(self) -> Option<T> {
        match self {
            ReferenceOr::Reference { .. } => None,
            ReferenceOr::Item(i) => Some(i),
            ReferenceOr::DereferencedReference { item, .. } => Some(item),
        }
    }

    /// The cell of the same shape that holds `f` of the content.
    pub open spec fn map<U>(self, f: spec_fn(T) -> U) -> ReferenceOr<U> {
        match self {
            ReferenceOr::Reference { reference } => ReferenceOr::Reference { reference },
            ReferenceOr::Item(i) => ReferenceOr::Item(f(i)),
            ReferenceOr::DereferencedReference { reference, item } => {
                ReferenceOr::DereferencedReference { reference, item: f(item) }
            },
        }
    }
}

} // verus!
