//! Conversion of plan structures to and from their wire messages. A message
//! carries enough context (catalog name, entry name, function name) to
//! rebuild the structure in another process.

pub mod ast;
pub mod binder;
pub mod catalog;
pub mod functions;
pub mod resolver;

use crate::database::DatabaseContext;
use crate::error::RayexecError;
use vstd::prelude::*;

verus! {

/// Conversion to and from a message for structures that need no context.
pub trait ProtoConv: Sized {
    type ProtoType;

    fn to_proto(&self) -> Result<Self::ProtoType, RayexecError>;

    fn from_proto(proto: Self::ProtoType) -> Result<Self, RayexecError>;
}

/// Conversion to and from a message for structures that resolve names
/// against the catalogs of a database context.
pub trait DatabaseProtoConv: Sized {
    type ProtoType;

    fn to_proto_ctx(&self, context: &DatabaseContext) -> Result<Self::ProtoType, RayexecError>;

    fn from_proto_ctx(proto: Self::ProtoType, context: &DatabaseContext) -> Result<
        Self,
        RayexecError,
    >;
}

} // verus!
