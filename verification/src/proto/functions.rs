//! Messages for function handles. A handle travels as its name and is
//! looked up again in the system catalog of the receiving process.

use crate::database::entry::CatalogEntryInner;
use crate::database::DatabaseContext;
use crate::error::{fails_with, RayexecError};
use crate::functions::copy::CopyToFunction;
use crate::proto::DatabaseProtoConv;
use vstd::prelude::*;

verus! {

#[derive(Debug, PartialEq, Eq)]
pub struct CopyToFunctionMessage {
    pub name: String,
}

/// The message of the error for a copy-to function that the system catalog
/// does not hold.
pub open spec fn missing_copy_to_function_text(name: Seq<char>) -> Seq<char> {
    "Missing copy to function: "@ + name
}

/// Whether the system catalog of a context holds a copy-to function under a
/// name, in its schema `glare_catalog`.
pub open spec fn copy_to_function_registered(context: &DatabaseContext, name: Seq<char>) -> bool {
    context.catalog("system"@) matches Some(system) && (system.spec_get_entry(
        "glare_catalog"@,
        name,
    ) matches Some(entry) && entry.entry is CopyToFunction)
}

/// The name of the copy-to function a message resolves to in a context, or
/// the message of the error that stops resolving it.
pub open spec fn decode_copy_to_function(m: CopyToFunctionMessage, context: &DatabaseContext) -> Result<
    Seq<char>,
    Seq<char>,
> {
    if context.catalog("system"@) is None {
        Err("Missing system catalog"@)
    } else if copy_to_function_registered(context, m.name@) {
        Ok(m.name@)
    } else {
        Err(missing_copy_to_function_text(m.name@))
    }
}

impl DatabaseProtoConv for CopyToFunction {
    type ProtoType = CopyToFunctionMessage;

    fn to_proto_ctx(&self, _context: &DatabaseContext) -> (r: Result<
        CopyToFunctionMessage,
        RayexecError,
    >)
        ensures
            r matches Ok(m) && m.name@ == self.name@,
    {
        Ok(CopyToFunctionMessage { name: self.name.clone() })
    }

    fn from_proto_ctx(proto: CopyToFunctionMessage, context: &DatabaseContext) -> (r: Result<
        CopyToFunction,
        RayexecError,
    >)
        ensures
            match decode_copy_to_function(proto, context) {
                Ok(name) => r matches Ok(f) && f.name@ == name,
                Err(msg) => fails_with(r, msg),
            },
    {
        let system = context.system_catalog()?;
        let registered = match system.get_entry("glare_catalog", proto.name.as_str()) {
            Some(entry) => match &entry.entry {
                CatalogEntryInner::CopyToFunction(_) => true,
                _ => false,
            },
            None => false,
        };
        if registered {
            Ok(CopyToFunction { name: proto.name })
        } else {
            let mut msg = String::from_str("Missing copy to function: ");
            msg.append(proto.name.as_str());
            Err(RayexecError::new(msg.as_str()))
        }
    }
}

} // verus!
