use crate::ordered_map::{
    keys, lemma_map_keeps_keys, lemma_mapped_by_agrees, map_entries, Entries, OrderedMap,
};
use crate::v3_0::objects::{Encoding, Example, Schema};
use crate::v3_0::reference::{cells_from_v3_1, ReferenceOr};
use crate::v3_1;
use indexmap::IndexMap;
use serde_json::Value;
use vstd::prelude::*;

verus! {

/// The description of one media type of a request or response body.
#[derive(Clone, Debug, PartialEq)]
pub struct MediaType {
    pub schema: Option<ReferenceOr<Schema>>,
    pub example: Option<Value>,
    pub examples: OrderedMap<ReferenceOr<Example>>,
    pub encoding: OrderedMap<Encoding>,
    /// Inline extensions to this object.
    pub extensions: IndexMap<String, Value>,
}

/// A media type with its mappings given by their entries.
pub struct MediaTypeView {
    pub schema: Option<ReferenceOr<Schema>>,
    pub example: Option<Value>,
    pub examples: Entries<ReferenceOr<Example>>,
    pub encoding: Entries<Encoding>,
    pub extensions: IndexMap<String, Value>,
}

impl View for MediaType {
    type V = MediaTypeView;

    open spec fn view(&self) -> MediaTypeView {
        MediaTypeView {
            schema: self.schema,
            example: self.example,
            examples: self.examples@,
            encoding: self.encoding@,
            extensions: self.extensions,
        }
    }
}

/// The image of a cell that holds an example.
pub open spec fn example_cell_downgraded(cell: v3_1::ReferenceOr<v3_1::Example>) -> ReferenceOr<
    Example,
> {
    ReferenceOr::downgraded(cell, |x: v3_1::Example| Example::downgraded(x))
}

impl MediaType {
    /// The older-revision image of a newer-revision media type. A schema, if
    /// there is one, becomes an inline cell with its image. The examples and
    /// the encodings are converted entry by entry under the same names. The
    /// single example and the extensions are kept as they are.
    pub open spec fn downgraded(m: v3_1::media_type::MediaTypeView) -> MediaTypeView {
        MediaTypeView {
            schema: match m.schema {
                Some(schema) => Some(ReferenceOr::Item(Schema::downgraded(schema))),
                None => None,
            },
            example: m.example,
            examples: map_entries(
                m.examples,
                |cell: v3_1::ReferenceOr<v3_1::Example>| example_cell_downgraded(cell),
            ),
            encoding: map_entries(m.encoding, |e: v3_1::Encoding| Encoding::downgraded(e)),
            extensions: m.extensions,
        }
    }

    /// Downgrades a media type.
    pub fn from_v3_1(m: v3_1::MediaType) -> (out: MediaType)
        ensures
            out@ == Self::downgraded(m@),
            keys(out.examples@) == keys(m.examples@),
            keys(out.encoding@) == keys(m.encoding@),
    {
        let ghost before = m@;
        let schema = match m.schema {
            Some(schema) => Some(ReferenceOr::Item(Schema::from(schema))),
            None => None,
        };
        let examples = cells_from_v3_1(m.examples);
        let convert = |e: v3_1::Encoding| -> (r: Encoding)
            ensures
                r == Encoding::downgraded(e),
            { Encoding::from(e) };
        let encoding = m.encoding.map_values(convert);
        proof {
            let example_image = |cell: v3_1::ReferenceOr<v3_1::Example>|
                example_cell_downgraded(cell);
            assert(examples@ =~= map_entries(before.examples, example_image));
            let encoding_image = |e: v3_1::Encoding| Encoding::downgraded(e);
            lemma_mapped_by_agrees(before.encoding, convert, encoding_image, encoding@);
            lemma_map_keeps_keys(before.examples, example_image);
            lemma_map_keeps_keys(before.encoding, encoding_image);
        }
        MediaType { schema, example: m.example, examples, encoding, extensions: m.extensions }
    }
}

} // verus!
