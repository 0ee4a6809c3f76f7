//! Messages for bound and unbound table references.

use crate::proto::ast::ObjectReferenceMessage;
use crate::proto::catalog::{AttachInfoMessage, CatalogEntryMessage};
use vstd::prelude::*;

verus! {

#[derive(Debug, PartialEq, Eq)]
pub struct BoundTableReferenceMessage {
    pub catalog: String,
    pub schema: String,
    pub entry: Option<CatalogEntryMessage>,
}

#[derive(Debug, PartialEq, Eq)]
pub struct BoundCteReferenceMessage {
    pub idx: u64,
}

#[derive(Debug, PartialEq, Eq)]
pub enum BoundTableOrCteReferenceValue {
    Table(BoundTableReferenceMessage),
    Cte(BoundCteReferenceMessage),
}

#[derive(Debug, PartialEq, Eq)]
pub struct BoundTableOrCteReferenceMessage {
    pub value: Option<BoundTableOrCteReferenceValue>,
}

#[derive(Debug, PartialEq, Eq)]
pub struct UnboundTableReferenceMessage {
    pub reference: Option<ObjectReferenceMessage>,
    pub catalog: String,
    pub attach_info: Option<AttachInfoMessage>,
}

} // verus!
