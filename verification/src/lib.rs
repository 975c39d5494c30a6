//! A typed model of an API description document in two successive format
//! revisions, and the one-way downgrade from the newer revision (`v3_1`) to
//! the older one (`v3_0`).
//!
//! Every object of the model is built on the reference cell
//! [`v3_0::ReferenceOr`]: a named reference, an inline value, or a reference
//! that was already resolved. The downgrade walks a newer-revision tree and
//! produces the older-revision tree of the same shape, or reports why the
//! tree has no older-revision counterpart.
//!
//! The mappings that the downgrade walks are [`ordered_map::OrderedMap`]s;
//! the mappings and values that it only hands on keep their outside types
//! (see [`foreign`]).

pub mod error;
pub mod foreign;
pub mod ordered_map;
pub mod v3_0;
pub mod v3_1;
