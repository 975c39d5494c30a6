//! The object kinds whose members this model leaves untyped.
//!
//! The downgrade decides nothing on the inside of these objects: it only
//! routes them. Each is held as the open-ended mapping from member name to
//! untyped value in which the reader of the document delivered it.

use indexmap::IndexMap;
use serde_json::Value;
use vstd::prelude::*;

verus! {

/// A Response Object: one response of an operation.
#[derive(Clone, Debug, PartialEq)]
pub struct Response {
    /// The members of the object, by name.
    pub members: IndexMap<String, Value>,
}

/// A Parameter Object: one parameter of an operation.
#[derive(Clone, Debug, PartialEq)]
pub struct Parameter {
    /// The members of the object, by name.
    pub members: IndexMap<String, Value>,
}

/// An Example Object: a sample value with its description.
#[derive(Clone, Debug, PartialEq)]
pub struct Example {
    /// The members of the object, by name.
    pub members: IndexMap<String, Value>,
}

/// A Request Body Object: the body that an operation accepts.
#[derive(Clone, Debug, PartialEq)]
pub struct RequestBody {
    /// The members of the object, by name.
    pub members: IndexMap<String, Value>,
}

/// A Header Object: one header of a response or of an encoding.
#[derive(Clone, Debug, PartialEq)]
pub struct Header {
    /// The members of the object, by name.
    pub members: IndexMap<String, Value>,
}

/// A Schema Object: the description of a data type.
#[derive(Clone, Debug, PartialEq)]
pub struct Schema {
    /// The members of the object, by name.
    pub members: IndexMap<String, Value>,
}

/// A Link Object: a design-time link from a response to another operation.
#[derive(Clone, Debug, PartialEq)]
pub struct Link {
    /// The members of the object, by name.
    pub members: IndexMap<String, Value>,
}

/// A Path Item Object: the operations available on one path.
#[derive(Clone, Debug, PartialEq)]
pub struct PathItem {
    /// The members of the object, by name.
    pub members: IndexMap<String, Value>,
}

/// An Encoding Object: how one property of a request body is encoded.
#[derive(Clone, Debug, PartialEq)]
pub struct Encoding {
    /// The members of the object, by name.
    pub members: IndexMap<String, Value>,
}

/// A Server Variable Object: one variable of a server's URL template.
#[derive(Clone, Debug, PartialEq)]
pub struct ServerVariable {
    /// The members of the object, by name.
    pub members: IndexMap<String, Value>,
}

} // verus!
