//! Messages for catalog structures.

use crate::database::entry::{CatalogEntry, CatalogEntryInner, CatalogEntryView};
use crate::database::{
    duplicate_option_text, keys_occur_once, option_views, AttachInfo, AttachInfoView, AttachOption,
    AttachOptionView, DatabaseContext,
};
use crate::error::{fails_with, OptionExt, RayexecError};
use crate::proto::{DatabaseProtoConv, ProtoConv};
use crate::scalar::ScalarValue;
use vstd::prelude::*;

verus! {

#[derive(Debug, PartialEq, Eq)]
pub struct CatalogEntryMessage {
    pub name: String,
    pub entry: Option<CatalogEntryInner>,
}

#[derive(Debug, PartialEq, Eq)]
pub struct AttachOptionMessage {
    pub key: String,
    pub value: Option<ScalarValue>,
}

#[derive(Debug, PartialEq, Eq)]
pub struct AttachInfoMessage {
    pub datasource: String,
    pub options: Vec<AttachOptionMessage>,
}

/// The catalog entry a message stands for, or the name of the field it
/// lacks.
pub open spec fn decode_catalog_entry(
    m: CatalogEntryMessage,
) -> Result<CatalogEntryView, Seq<char>> {
    match m.entry {
        Some(entry) => Ok(CatalogEntryView { name: m.name@, entry: entry@ }),
        None => Err("entry"@),
    }
}

/// Whether each of the first `upto` options of a message has a value.
pub open spec fn options_complete(options: Seq<AttachOptionMessage>, upto: int) -> bool {
    forall|i: int| 0 <= i < upto ==> (#[trigger] options[i]).value is Some
}

/// The options of a message, each with its value.
pub open spec fn decoded_options(options: Seq<AttachOptionMessage>) -> Seq<AttachOptionView> {
    Seq::new(
        options.len(),
        |i: int| AttachOptionView { key: options[i].key@, value: options[i].value->0 },
    )
}

/// The attach request a message stands for; or the name of the field it
/// lacks; or, where two of its options have the same key, the message that
/// says so.
pub open spec fn decode_attach_info(m: AttachInfoMessage) -> Result<AttachInfoView, Seq<char>> {
    if !options_complete(m.options@, m.options@.len() as int) {
        Err("value"@)
    } else if !keys_occur_once(decoded_options(m.options@), m.options@.len() as int) {
        Err(duplicate_option_text())
    } else {
        Ok(AttachInfoView { datasource: m.datasource@, options: decoded_options(m.options@) })
    }
}

impl DatabaseProtoConv for CatalogEntry {
    type ProtoType = CatalogEntryMessage;

    fn to_proto_ctx(&self, _context: &DatabaseContext) -> (r: Result<
        CatalogEntryMessage,
        RayexecError,
    >)
        ensures
            r matches Ok(m) && decode_catalog_entry(m) == Ok::<CatalogEntryView, Seq<char>>(self@),
    {
        let copy = self.clone();
        Ok(CatalogEntryMessage { name: copy.name, entry: Some(copy.entry) })
    }

    fn from_proto_ctx(proto: CatalogEntryMessage, _context: &DatabaseContext) -> (r: Result<
        CatalogEntry,
        RayexecError,
    >)
        ensures
            match decode_catalog_entry(proto) {
                Ok(v) => r matches Ok(e) && e@ == v,
                Err(field) => fails_with(r, field),
            },
    {
        let entry = proto.entry.required("entry")?;
        Ok(CatalogEntry { name: proto.name, entry })
    }
}

impl ProtoConv for AttachInfo {
    type ProtoType = AttachInfoMessage;

    fn to_proto(&self) -> (r: Result<AttachInfoMessage, RayexecError>)
        ensures
            r matches Ok(m) && decode_attach_info(m) == Ok::<AttachInfoView, Seq<char>>(self@),
    {
        let own = self.options();
        let mut options: Vec<AttachOptionMessage> = Vec::new();
        let mut i: usize = 0;
        while i < own.len()
            invariant
                i <= own.len(),
                options@.len() == i,
                forall|k: int|
                    0 <= k < i ==> (#[trigger] options@[k]).key@ == own@[k].key@
                        && options@[k].value == Some(own@[k].value),
            decreases own.len() - i,
        {
            options.push(
                AttachOptionMessage { key: own[i].key.clone(), value: Some(own[i].value.clone()) },
            );
            i += 1;
        }
        let m = AttachInfoMessage { datasource: self.datasource().clone(), options };
        proof {
            assert(options_complete(m.options@, m.options@.len() as int));
            assert(decoded_options(m.options@) =~= option_views(own@));
        }
        Ok(m)
    }

    fn from_proto(proto: AttachInfoMessage) -> (r: Result<AttachInfo, RayexecError>)
        ensures
            match decode_attach_info(proto) {
                Ok(v) => r matches Ok(a) && a@ == v,
                Err(field) => fails_with(r, field),
            },
    {
        let mut options: Vec<AttachOption> = Vec::new();
        let mut i: usize = 0;
        while i < proto.options.len()
            invariant
                i <= proto.options.len(),
                options@.len() == i,
                options_complete(proto.options@, i as int),
                forall|k: int|
                    0 <= k < i ==> (#[trigger] options@[k])@ == (AttachOptionView {
                        key: proto.options@[k].key@,
                        value: proto.options@[k].value->0,
                    }),
            decreases proto.options.len() - i,
        {
            let value = match &proto.options[i].value {
                Some(v) => v.clone(),
                None => {
                    return Err(RayexecError::new("value"));
                },
            };
            options.push(AttachOption { key: proto.options[i].key.clone(), value });
            i += 1;
        }
        assert(option_views(options@) =~= decoded_options(proto.options@));
        AttachInfo::try_new(proto.datasource, options)
    }
}

} // verus!
