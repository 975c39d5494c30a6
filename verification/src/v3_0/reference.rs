use crate::ordered_map::{lemma_mapped_by_agrees, map_entries, OrderedMap};
use crate::v3_1;
use vstd::prelude::*;
use vstd::std_specs::convert::IntoSpec;

verus! {

/// The reference cell: exactly one of a named reference into the document's
/// registry of reusable objects, an inline value, or a reference that an
/// outside resolver has already resolved and that keeps its name.
#[derive(Clone, Debug, PartialEq)]
pub enum ReferenceOr<T> {
    Reference { reference: String },
    Item(T),
    DereferencedReference { reference: String, item: T },
}

impl<T> ReferenceOr<T> {
    /// The value that the cell contains, if it contains one.
    pub open spec fn item(self) -> Option<T> {
        match self {
            ReferenceOr::Reference { .. } => None,
            ReferenceOr::Item(i) => Some(i),
            ReferenceOr::DereferencedReference { item, .. } => Some(item),
        }
    }

    /// The older-revision image of a newer-revision cell, given the image
    /// `f` of what it contains. A reference keeps its string; an inline value
    /// and a resolved reference both become an inline value, so the name a
    /// resolved reference came from is dropped.
    pub open spec fn downgraded<X>(r: v3_1::ReferenceOr<X>, f: spec_fn(X) -> T) -> Self {
        match r {
            v3_1::ReferenceOr::Reference { reference } => ReferenceOr::Reference { reference },
            v3_1::ReferenceOr::Item(item) => ReferenceOr::Item(f(item)),
            v3_1::ReferenceOr::DereferencedReference { item, .. } => ReferenceOr::Item(f(item)),
        }
    }

    /// The same for a content whose image may fail: a reference keeps its
    /// string, and a cell with a content has an image exactly if the content
    /// has one.
    pub open spec fn try_downgraded<X, E>(
        r: v3_1::ReferenceOr<X>,
        f: spec_fn(X) -> Result<T, E>,
    ) -> Result<Self, E> {
        match r {
            v3_1::ReferenceOr::Reference { reference } => Ok(ReferenceOr::Reference { reference }),
            v3_1::ReferenceOr::Item(item) => match f(item) {
                Ok(t) => Ok(ReferenceOr::Item(t)),
                Err(e) => Err(e),
            },
            v3_1::ReferenceOr::DereferencedReference { item, .. } => match f(item) {
                Ok(t) => Ok(ReferenceOr::Item(t)),
                Err(e) => Err(e),
            },
        }
    }

    /// The cell of the same shape that holds `f` of the content.
    pub open spec fn map<U>(self, f: spec_fn(T) -> U) -> ReferenceOr<U> {
        match self {
            ReferenceOr::Reference { reference } => ReferenceOr::Reference { reference },
            ReferenceOr::Item(i) => ReferenceOr::Item(f(i)),
            ReferenceOr::DereferencedReference { reference, item } => {
                ReferenceOr::DereferencedReference { reference, item: f(item) }
            },
        }
    }

    /// A reference cell that names `r`. The string is taken as it is.
    pub fn ref_(r: &str) -> (out: Self)
        ensures
            out matches ReferenceOr::Reference { reference } && reference@ == r@,
    {
        ReferenceOr::Reference { reference: r.to_owned() }
    }

    /// An inline cell that holds `item` in a box.
    pub fn boxed_item(item: T) -> (out: ReferenceOr<Box<T>>)
        ensures
            out == ReferenceOr::Item(Box::new(item)),
    {
        ReferenceOr::Item(Box::new(item))
    }

    /// Takes the contained value out of the cell.
    pub fn into_item(self) -> (out: Option<T>)
        ensures
            out == self.item(),
    {
        match self {
            ReferenceOr::Reference { .. } => None,
            ReferenceOr::Item(i) => Some(i),
            ReferenceOr::DereferencedReference { reference: _, item } => Some(item),
        }
    }

    /// Borrows the contained value.
    pub fn as_item(&self) -> (out: Option<&T>)
        ensures
            out == match self.item() {
                Some(i) => Some(&i),
                None => None,
            },
    {
        match self {
            ReferenceOr::Reference { .. } => None,
            ReferenceOr::Item(i) => Some(i),
            ReferenceOr::DereferencedReference { reference: _, item } => Some(item),
        }
    }

    /// Downgrades a cell whose content converts without fail.
    pub fn from_v3_1<X: Into<T>>(r: v3_1::ReferenceOr<X>) -> (out: Self)
        ensures
            X::obeys_into_spec() ==> out == Self::downgraded(r, |x: X| x.into_spec()),
            r matches v3_1::ReferenceOr::Reference { reference } ==> out == (ReferenceOr::<
                T,
            >::Reference { reference }),
            r.item() matches Some(x) ==> (out matches ReferenceOr::Item(t) && call_ensures(
                X::into,
                (x,),
                t,
            )),
    {
        match r {
            v3_1::ReferenceOr::Reference { reference } => ReferenceOr::Reference { reference },
            v3_1::ReferenceOr::Item(item) => ReferenceOr::Item(item.into()),
            v3_1::ReferenceOr::DereferencedReference { reference: _, item } => ReferenceOr::Item(
                item.into(),
            ),
        }
    }

    /// Downgrades a cell whose content is converted by `f`, which may fail.
    /// A reference is copied and `f` is not called. An inline value and a
    /// resolved reference are handed to `f`; its success becomes an inline
    /// value, its failure the failure of the whole cell.
    pub fn try_from_v3_1<X, E, F: FnOnce(X) -> Result<T, E>>(r: v3_1::ReferenceOr<X>, f: F) -> (out:
        Result<Self, E>)
        requires
            r.item() matches Some(x) ==> f.requires((x,)),
        ensures
            match r.item() {
                None => out == Ok::<Self, E>(
                    ReferenceOr::Reference { reference: r->Reference_reference },
                ),
                Some(x) => match out {
                    Ok(cell) => cell matches ReferenceOr::Item(t) && f.ensures((x,), Ok(t)),
                    Err(e) => f.ensures((x,), Err(e)),
                },
            },
    {
        match r {
            v3_1::ReferenceOr::Reference { reference } => Ok(ReferenceOr::Reference { reference }),
            v3_1::ReferenceOr::Item(item) => match f(item) {
                Ok(t) => Ok(ReferenceOr::Item(t)),
                Err(e) => Err(e),
            },
            v3_1::ReferenceOr::DereferencedReference { reference: _, item } => match f(item) {
                Ok(t) => Ok(ReferenceOr::Item(t)),
                Err(e) => Err(e),
            },
        }
    }
}

impl<T> ReferenceOr<Box<T>> {
    /// Removes the box around the contained value; the shape stays.
    pub fn unbox(self) -> (out: ReferenceOr<T>)
        ensures
            out == match self {
                ReferenceOr::Reference { reference } => ReferenceOr::Reference { reference },
                ReferenceOr::Item(boxed) => ReferenceOr::Item(*boxed),
                ReferenceOr::DereferencedReference { reference, item } => {
                    ReferenceOr::DereferencedReference { reference, item: *item }
                },
            },
    {
        match self {
            ReferenceOr::Reference { reference } => ReferenceOr::Reference { reference },
            ReferenceOr::Item(boxed) => ReferenceOr::Item(*boxed),
            ReferenceOr::DereferencedReference { reference, item } => {
                ReferenceOr::DereferencedReference { reference, item: *item }
            },
        }
    }
}

/// A cell yields a content exactly if it is an inline value or a resolved
/// reference, and the content it yields is the one it holds; a bare
/// reference yields nothing. This holds whatever the content is, another
/// cell included.
pub proof fn lemma_item_of_each_shape<T>(cell: ReferenceOr<T>)
    ensures
        cell.item() is Some <==> cell is Item || cell is DereferencedReference,
        cell.item() is None <==> cell is Reference,
        cell matches ReferenceOr::Item(i) ==> cell.item() == Some(i),
        cell matches ReferenceOr::DereferencedReference { item, .. } ==> cell.item() == Some(item),
{
}

/// Downgrades a mapping of cells entry by entry: the names and their order
/// stay, a reference stays a reference, and every other cell becomes an
/// inline value with the converted content.
pub fn cells_from_v3_1<X: Into<T>, T>(cells: OrderedMap<v3_1::ReferenceOr<X>>) -> (out: OrderedMap<
    ReferenceOr<T>,
>)
    ensures
        out@.len() == cells@.len(),
        forall|i: int| 0 <= i < cells@.len() ==> (#[trigger] out@[i]).0 == cells@[i].0,
        forall|i: int|
            0 <= i < cells@.len() ==> ((#[trigger] out@[i]).1 is Reference <==> cells@[i].1
                is Reference),
        forall|i: int|
            0 <= i < cells@.len() ==> (cells@[i].1.item() matches Some(x) ==> (
            #[trigger] out@[i]).1 matches ReferenceOr::Item(t) && call_ensures(X::into, (x,), t)),
        X::obeys_into_spec() ==> out@ == map_entries(
            cells@,
            |cell: v3_1::ReferenceOr<X>| ReferenceOr::<T>::downgraded(cell, |x: X| x.into_spec()),
        ),
{
    let ghost before = cells@;
    let convert = |cell: v3_1::ReferenceOr<X>| -> (r: ReferenceOr<T>)
        ensures
            X::obeys_into_spec() ==> r == ReferenceOr::<T>::downgraded(cell, |x: X| x.into_spec()),
            cell is Reference <==> r is Reference,
            cell.item() matches Some(x) ==> (r matches ReferenceOr::Item(t) && call_ensures(
                X::into,
                (x,),
                t,
            )),
        { ReferenceOr::from_v3_1(cell) };
    let out = cells.map_values(convert);
    proof {
        if X::obeys_into_spec() {
            lemma_mapped_by_agrees(
                before,
                convert,
                |cell: v3_1::ReferenceOr<X>|
                    ReferenceOr::<T>::downgraded(cell, |x: X| x.into_spec()),
                out@,
            );
        }
    }
    out
}

} // verus!
