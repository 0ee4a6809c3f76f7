//! A resolved `COPY TO`.

use crate::database::DatabaseContext;
use crate::error::{fails_with, OptionExt, RayexecError};
use crate::functions::copy::CopyToFunction;
use crate::proto::functions::{copy_to_function_registered, decode_copy_to_function};
use crate::proto::resolver::ResolvedCopyToMessage;
use crate::proto::DatabaseProtoConv;
use vstd::prelude::*;

verus! {

#[derive(Debug, PartialEq, Eq)]
pub struct ResolvedCopyTo {
    pub func: CopyToFunction,
}

impl Clone for ResolvedCopyTo {
    fn clone(&self) -> (r: Self)
        ensures
            r == *self,
    {
        ResolvedCopyTo { func: self.func.clone() }
    }
}

/// The name of the function of the resolved `COPY TO` that a message stands
/// for in a context, or the message of the error: the name of a missing
/// field, or what stops resolving the function.
pub open spec fn decode_resolved_copy_to(m: ResolvedCopyToMessage, context: &DatabaseContext) -> Result<
    Seq<char>,
    Seq<char>,
> {
    match m.func {
        None => Err("func"@),
        Some(func) => decode_copy_to_function(func, context),
    }
}

impl DatabaseProtoConv for ResolvedCopyTo {
    type ProtoType = ResolvedCopyToMessage;

    /// The message names the function.
    fn to_proto_ctx(&self, context: &DatabaseContext) -> (r: Result<
        ResolvedCopyToMessage,
        RayexecError,
    >)
        ensures
            r matches Ok(m) && (m.func matches Some(func) && func.name@ == self.func.name@),
    {
        Ok(ResolvedCopyToMessage { func: Some(self.func.to_proto_ctx(context)?) })
    }

    /// Rebuilds the statement, as `decode_resolved_copy_to` states.
    fn from_proto_ctx(proto: ResolvedCopyToMessage, context: &DatabaseContext) -> (r: Result<
        ResolvedCopyTo,
        RayexecError,
    >)
        ensures
            match decode_resolved_copy_to(proto, context) {
                Ok(name) => r matches Ok(v) && v.func.name@ == name,
                Err(msg) => fails_with(r, msg),
            },
    {
        Ok(
            ResolvedCopyTo {
                func: CopyToFunction::from_proto_ctx(proto.func.required("func")?, context)?,
            },
        )
    }
}

/// A resolved `COPY TO` whose function the context's system catalog holds
/// comes back from its message with the same function.
pub proof fn lemma_resolved_copy_to_roundtrip(
    value: ResolvedCopyTo,
    message: ResolvedCopyToMessage,
    context: &DatabaseContext,
)
    requires
        copy_to_function_registered(context, value.func.name@),
        message.func matches Some(func) && func.name@ == value.func.name@,
    ensures
        decode_resolved_copy_to(message, context) == Ok::<Seq<char>, Seq<char>>(value.func.name@),
{
}

} // verus!
