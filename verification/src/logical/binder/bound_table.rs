//! Tables found in the FROM clause, before and after they are resolved.

use crate::ast::{IdentView, ObjectReference};
use crate::database::entry::{CatalogEntry, CatalogEntryView};
use crate::database::{AttachInfo, AttachInfoView, DatabaseContext};
use crate::error::{fails_with, OptionExt, RayexecError};
use crate::proto::ast::decode_object_reference;
use crate::proto::binder::{
    BoundCteReferenceMessage, BoundTableOrCteReferenceMessage, BoundTableOrCteReferenceValue,
    BoundTableReferenceMessage, UnboundTableReferenceMessage,
};
use crate::proto::catalog::{decode_attach_info, decode_catalog_entry};
use crate::proto::{DatabaseProtoConv, ProtoConv};
use std::sync::Arc;
use vstd::prelude::*;

verus! {

/// Index of a common table expression in the bind data.
#[derive(Debug, Clone, Copy, PartialEq, Eq, Hash, Structural)]
pub struct CteIndex(pub usize);

/// Table or CTE found in the FROM clause.
#[derive(Debug, PartialEq, Eq)]
pub enum BoundTableOrCteReference {
    /// Resolved table.
    Table { catalog: String, schema: String, entry: Arc<CatalogEntry> },
    /// Resolved CTE.
    Cte {
        /// Index of the cte in the bind data.
        cte_idx: CteIndex,
    },
}

/// What a bound reference holds, as plain values.
pub ghost enum BoundTableOrCteReferenceView {
    Table { catalog: Seq<char>, schema: Seq<char>, entry: CatalogEntryView },
    Cte { cte_idx: CteIndex },
}

impl View for BoundTableOrCteReference {
    type V = BoundTableOrCteReferenceView;

    open spec fn view(&self) -> BoundTableOrCteReferenceView {
        match *self {
            BoundTableOrCteReference::Table {
                catalog,
                schema,
                entry,
            } => BoundTableOrCteReferenceView::Table {
                catalog: catalog@,
                schema: schema@,
                entry: (*entry)@,
            },
            BoundTableOrCteReference::Cte { cte_idx } => BoundTableOrCteReferenceView::Cte {
                cte_idx,
            },
        }
    }
}

/// The bound reference a message stands for, or the name of the field it
/// lacks.
pub open spec fn decode_bound_reference(m: BoundTableOrCteReferenceMessage) -> Result<
    BoundTableOrCteReferenceView,
    Seq<char>,
> {
    match m.value {
        None => Err("value"@),
        Some(BoundTableOrCteReferenceValue::Table(table)) => match table.entry {
            None => Err("entry"@),
            Some(entry) => match decode_catalog_entry(entry) {
                Err(field) => Err(field),
                Ok(e) => Ok(
                    BoundTableOrCteReferenceView::Table {
                        catalog: table.catalog@,
                        schema: table.schema@,
                        entry: e,
                    },
                ),
            },
        },
        Some(BoundTableOrCteReferenceValue::Cte(cte)) => if cte.idx <= usize::MAX {
            Ok(BoundTableOrCteReferenceView::Cte { cte_idx: CteIndex(cte.idx as usize) })
        } else {
            Err(index_size_text())
        },
    }
}

/// The message of the error for an index in a message that this machine
/// cannot hold.
pub open spec fn index_size_text() -> Seq<char> {
    "Int convert error"@
}

impl DatabaseProtoConv for BoundTableOrCteReference {
    type ProtoType = BoundTableOrCteReferenceMessage;

    /// Always succeeds, with a message that stands for the reference.
    fn to_proto_ctx(&self, context: &DatabaseContext) -> (r: Result<
        BoundTableOrCteReferenceMessage,
        RayexecError,
    >)
        ensures
            r is Ok,
            decode_bound_reference(r->Ok_0) == Ok::<BoundTableOrCteReferenceView, Seq<char>>(
                self@,
            ),
    {
        let value = match self {
            BoundTableOrCteReference::Table {
                catalog,
                schema,
                entry,
            } => BoundTableOrCteReferenceValue::Table(
                BoundTableReferenceMessage {
                    catalog: catalog.clone(),
                    schema: schema.clone(),
                    entry: Some((**entry).to_proto_ctx(context)?),
                },
            ),
            BoundTableOrCteReference::Cte { cte_idx } => BoundTableOrCteReferenceValue::Cte(
                BoundCteReferenceMessage { idx: cte_idx.0 as u64 },
            ),
        };

        Ok(BoundTableOrCteReferenceMessage { value: Some(value) })
    }

    /// Rebuilds the reference, as `decode_bound_reference` states.
    fn from_proto_ctx(proto: BoundTableOrCteReferenceMessage, context: &DatabaseContext) -> (r:
        Result<BoundTableOrCteReference, RayexecError>)
        ensures
            match decode_bound_reference(proto) {
                Ok(v) => r matches Ok(b) && b@ == v,
                Err(field) => fails_with(r, field),
            },
    {
        Ok(
            match proto.value.required("value")? {
                BoundTableOrCteReferenceValue::Table(table) => BoundTableOrCteReference::Table {
                    catalog: table.catalog,
                    schema: table.schema,
                    entry: Arc::new(
                        CatalogEntry::from_proto_ctx(table.entry.required("entry")?, context)?,
                    ),
                },
                BoundTableOrCteReferenceValue::Cte(cte) => {
                    if cte.idx > usize::MAX as u64 {
                        return Err(RayexecError::new("Int convert error"));
                    }
                    BoundTableOrCteReference::Cte { cte_idx: CteIndex(cte.idx as usize) }
                },
            },
        )
    }
}

#[derive(Debug, PartialEq, Eq)]
pub struct UnboundTableReference {
    /// The raw ast reference.
    pub reference: ObjectReference,
    /// Name of the catalog this table is in.
    pub catalog: String,
    /// How we attach the catalog.
    ///
    /// Currently it's expected that this is always Some (we get attach info
    /// from the client), but there's a path where this can be None, and
    /// attach info gets injected on the server-side. Right now, the server
    /// will error if this is None.
    pub attach_info: Option<AttachInfo>,
}

/// What an unbound reference holds, as plain values.
pub ghost struct UnboundTableReferenceView {
    pub reference: Seq<IdentView>,
    pub catalog: Seq<char>,
    pub attach_info: Option<AttachInfoView>,
}

impl View for UnboundTableReference {
    type V = UnboundTableReferenceView;

    open spec fn view(&self) -> UnboundTableReferenceView {
        UnboundTableReferenceView {
            reference: self.reference@,
            catalog: self.catalog@,
            attach_info: match self.attach_info {
                Some(info) => Some(info@),
                None => None,
            },
        }
    }
}

/// The unbound reference a message stands for, or the name of the field it
/// lacks.
pub open spec fn decode_unbound_reference(m: UnboundTableReferenceMessage) -> Result<
    UnboundTableReferenceView,
    Seq<char>,
> {
    match m.reference {
        None => Err("reference"@),
        Some(reference) => match m.attach_info {
            None => Ok(
                UnboundTableReferenceView {
                    reference: decode_object_reference(reference),
                    catalog: m.catalog@,
                    attach_info: None,
                },
            ),
            Some(info) => match decode_attach_info(info) {
                Err(field) => Err(field),
                Ok(i) => Ok(
                    UnboundTableReferenceView {
                        reference: decode_object_reference(reference),
                        catalog: m.catalog@,
                        attach_info: Some(i),
                    },
                ),
            },
        },
    }
}

impl ProtoConv for UnboundTableReference {
    type ProtoType = UnboundTableReferenceMessage;

    /// Always succeeds, with a message that stands for the reference.
    fn to_proto(&self) -> (r: Result<UnboundTableReferenceMessage, RayexecError>)
        ensures
            r matches Ok(m) && decode_unbound_reference(m) == Ok::<
                UnboundTableReferenceView,
                Seq<char>,
            >(self@),
    {
        let attach_info = match &self.attach_info {
            Some(i) => Some(i.to_proto()?),
            None => None,
        };
        Ok(
            UnboundTableReferenceMessage {
                reference: Some(self.reference.to_proto()?),
                catalog: self.catalog.clone(),
                attach_info,
            },
        )
    }

    /// Rebuilds the reference, as `decode_unbound_reference` states.
    fn from_proto(proto: UnboundTableReferenceMessage) -> (r: Result<
        UnboundTableReference,
        RayexecError,
    >)
        ensures
            match decode_unbound_reference(proto) {
                Ok(v) => r matches Ok(u) && u@ == v,
                Err(field) => fails_with(r, field),
            },
    {
        let reference = ObjectReference::from_proto(proto.reference.required("reference")?)?;
        let attach_info = match proto.attach_info {
            Some(i) => Some(AttachInfo::from_proto(i)?),
            None => None,
        };
        Ok(UnboundTableReference { reference, catalog: proto.catalog, attach_info })
    }
}

/// A reference comes back from its message unchanged: whatever message
/// `to_proto_ctx` gives for it, `from_proto_ctx` rebuilds the reference from
/// it.
pub proof fn lemma_bound_reference_roundtrip(
    value: BoundTableOrCteReference,
    message: BoundTableOrCteReferenceMessage,
    back: Result<BoundTableOrCteReference, RayexecError>,
)
    requires
        decode_bound_reference(message) == Ok::<BoundTableOrCteReferenceView, Seq<char>>(value@),
        match decode_bound_reference(message) {
            Ok(v) => back matches Ok(b) && b@ == v,
            Err(field) => fails_with(back, field),
        },
    ensures
        back matches Ok(b) && b@ == value@,
{
}

/// An unbound reference comes back from its message unchanged: whatever
/// message `to_proto` gives for it, `from_proto` rebuilds the reference
/// from it.
pub proof fn lemma_unbound_reference_roundtrip(
    value: UnboundTableReference,
    message: UnboundTableReferenceMessage,
    back: Result<UnboundTableReference, RayexecError>,
)
    requires
        decode_unbound_reference(message) == Ok::<UnboundTableReferenceView, Seq<char>>(value@),
        match decode_unbound_reference(message) {
            Ok(v) => back matches Ok(u) && u@ == v,
            Err(field) => fails_with(back, field),
        },
    ensures
        back matches Ok(u) && u@ == value@,
{
}

} // verus!
