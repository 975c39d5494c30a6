//! The object kinds whose members this model leaves untyped.
//!
//! Each is held as the open-ended mapping from member name to untyped value.
//! The downgrade of such an object hands its members on unchanged.

use crate::v3_1;
use indexmap::IndexMap;
use serde_json::Value;
use vstd::prelude::*;

verus! {

/// A Response Object: one response of an operation.
#[derive(Clone, Debug, PartialEq)]
pub struct Response {
    /// The members of the object, by name.
    pub members: IndexMap<String, Value>,
}

impl Response {
    /// The older-revision object with the same members.
    pub open spec fn downgraded(a: v3_1::Response) -> Response {
        Response { members: a.members }
    }
}

impl From<v3_1::Response> for Response {
    fn from(a: v3_1::Response) -> (out: Self) {
        Response { members: a.members }
    }
}

impl vstd::std_specs::convert::FromSpecImpl<v3_1::Response> for Response {
    open spec fn obeys_from_spec() -> bool {
        true
    }

    open spec fn from_spec(a: v3_1::Response) -> Self {
        Response::downgraded(a)
    }
}

/// A Parameter Object: one parameter of an operation.
#[derive(Clone, Debug, PartialEq)]
pub struct Parameter {
    /// The members of the object, by name.
    pub members: IndexMap<String, Value>,
}

impl Parameter {
    /// The older-revision object with the same members.
    pub open spec fn downgraded(a: v3_1::Parameter) -> Parameter {
        Parameter { members: a.members }
    }
}

impl From<v3_1::Parameter> for Parameter {
    fn from(a: v3_1::Parameter) -> (out: Self) {
        Parameter { members: a.members }
    }
}

impl vstd::std_specs::convert::FromSpecImpl<v3_1::Parameter> for Parameter {
    open spec fn obeys_from_spec() -> bool {
        true
    }

    open spec fn from_spec(a: v3_1::Parameter) -> Self {
        Parameter::downgraded(a)
    }
}

/// An Example Object: a sample value with its description.
#[derive(Clone, Debug, PartialEq)]
pub struct Example {
    /// The members of the object, by name.
    pub members: IndexMap<String, Value>,
}

impl Example {
    /// The older-revision object with the same members.
    pub open spec fn downgraded(a: v3_1::Example) -> Example {
        Example { members: a.members }
    }
}

impl From<v3_1::Example> for Example {
    fn from(a: v3_1::Example) -> (out: Self) {
        Example { members: a.members }
    }
}

impl vstd::std_specs::convert::FromSpecImpl<v3_1::Example> for Example {
    open spec fn obeys_from_spec() -> bool {
        true
    }

    open spec fn from_spec(a: v3_1::Example) -> Self {
        Example::downgraded(a)
    }
}

/// A Request Body Object: the body that an operation accepts.
#[derive(Clone, Debug, PartialEq)]
pub struct RequestBody {
    /// The members of the object, by name.
    pub members: IndexMap<String, Value>,
}

impl RequestBody {
    /// The older-revision object with the same members.
    pub open spec fn downgraded(a: v3_1::RequestBody) -> RequestBody {
        RequestBody { members: a.members }
    }
}

impl From<v3_1::RequestBody> for RequestBody {
    fn from(a: v3_1::RequestBody) -> (out: Self) {
        RequestBody { members: a.members }
    }
}

impl vstd::std_specs::convert::FromSpecImpl<v3_1::RequestBody> for RequestBody {
    open spec fn obeys_from_spec() -> bool {
        true
    }

    open spec fn from_spec(a: v3_1::RequestBody) -> Self {
        RequestBody::downgraded(a)
    }
}

/// A Header Object: one header of a response or of an encoding.
#[derive(Clone, Debug, PartialEq)]
pub struct Header {
    /// The members of the object, by name.
    pub members: IndexMap<String, Value>,
}

impl Header {
    /// The older-revision object with the same members.
    pub open spec fn downgraded(a: v3_1::Header) -> Header {
        Header { members: a.members }
    }
}

impl From<v3_1::Header> for Header {
    fn from(a: v3_1::Header) -> (out: Self) {
        Header { members: a.members }
    }
}

impl vstd::std_specs::convert::FromSpecImpl<v3_1::Header> for Header {
    open spec fn obeys_from_spec() -> bool {
        true
    }

    open spec fn from_spec(a: v3_1::Header) -> Self {
        Header::downgraded(a)
    }
}

/// A Schema Object: the description of a data type.
#[derive(Clone, Debug, PartialEq)]
pub struct Schema {
    /// The members of the object, by name.
    pub members: IndexMap<String, Value>,
}

impl Schema {
    /// The older-revision object with the same members.
    pub open spec fn downgraded(a: v3_1::Schema) -> Schema {
        Schema { members: a.members }
    }
}

impl From<v3_1::Schema> for Schema {
    fn from(a: v3_1::Schema) -> (out: Self) {
        Schema { members: a.members }
    }
}

impl vstd::std_specs::convert::FromSpecImpl<v3_1::Schema> for Schema {
    open spec fn obeys_from_spec() -> bool {
        true
    }

    open spec fn from_spec(a: v3_1::Schema) -> Self {
        Schema::downgraded(a)
    }
}

/// A Link Object: a design-time link from a response to another operation.
#[derive(Clone, Debug, PartialEq)]
pub struct Link {
    /// The members of the object, by name.
    pub members: IndexMap<String, Value>,
}

impl Link {
    /// The older-revision object with the same members.
    pub open spec fn downgraded(a: v3_1::Link) -> Link {
        Link { members: a.members }
    }
}

impl From<v3_1::Link> for Link {
    fn from(a: v3_1::Link) -> (out: Self) {
        Link { members: a.members }
    }
}

impl vstd::std_specs::convert::FromSpecImpl<v3_1::Link> for Link {
    open spec fn obeys_from_spec() -> bool {
        true
    }

    open spec fn from_spec(a: v3_1::Link) -> Self {
        Link::downgraded(a)
    }
}

/// A Path Item Object: the operations available on one path.
#[derive(Clone, Debug, PartialEq)]
pub struct PathItem {
    /// The members of the object, by name.
    pub members: IndexMap<String, Value>,
}

impl PathItem {
    /// The older-revision object with the same members.
    pub open spec fn downgraded(a: v3_1::PathItem) -> PathItem {
        PathItem { members: a.members }
    }
}

impl From<v3_1::PathItem> for PathItem {
    fn from(a: v3_1::PathItem) -> (out: Self) {
        PathItem { members: a.members }
    }
}

impl vstd::std_specs::convert::FromSpecImpl<v3_1::PathItem> for PathItem {
    open spec fn obeys_from_spec() -> bool {
        true
    }

    open spec fn from_spec(a: v3_1::PathItem) -> Self {
        PathItem::downgraded(a)
    }
}

/// An Encoding Object: how one property of a request body is encoded.
#[derive(Clone, Debug, PartialEq)]
pub struct Encoding {
    /// The members of the object, by name.
    pub members: IndexMap<String, Value>,
}

impl Encoding {
    /// The older-revision object with the same members.
    pub open spec fn downgraded(a: v3_1::Encoding) -> Encoding {
        Encoding { members: a.members }
    }
}

impl From<v3_1::Encoding> for Encoding {
    fn from(a: v3_1::Encoding) -> (out: Self) {
        Encoding { members: a.members }
    }
}

impl vstd::std_specs::convert::FromSpecImpl<v3_1::Encoding> for Encoding {
    open spec fn obeys_from_spec() -> bool {
        true
    }

    open spec fn from_spec(a: v3_1::Encoding) -> Self {
        Encoding::downgraded(a)
    }
}

/// A Server Variable Object: one variable of a server's URL template.
#[derive(Clone, Debug, PartialEq)]
pub struct ServerVariable {
    /// The members of the object, by name.
    pub members: IndexMap<String, Value>,
}

impl ServerVariable {
    /// The older-revision object with the same members.
    pub open spec fn downgraded(a: v3_1::ServerVariable) -> ServerVariable {
        ServerVariable { members: a.members }
    }
}

impl From<v3_1::ServerVariable> for ServerVariable {
    fn from(a: v3_1::ServerVariable) -> (out: Self) {
        ServerVariable { members: a.members }
    }
}

impl vstd::std_specs::convert::FromSpecImpl<v3_1::ServerVariable> for ServerVariable {
    open spec fn obeys_from_spec() -> bool {
        true
    }

    open spec fn from_spec(a: v3_1::ServerVariable) -> Self {
        ServerVariable::downgraded(a)
    }
}

} // verus!
