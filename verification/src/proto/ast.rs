//! Messages for syntax-tree structures.

use crate::ast::{Ident, IdentView, ObjectReference};
use crate::error::RayexecError;
use crate::proto::ProtoConv;
use vstd::prelude::*;

verus! {

#[derive(Debug, PartialEq, Eq)]
pub struct IdentMessage {
    pub value: String,
    pub quoted: bool,
}

#[derive(Debug, PartialEq, Eq)]
pub struct ObjectReferenceMessage {
    pub idents: Vec<IdentMessage>,
}

/// The object reference a message stands for.
pub open spec fn decode_object_reference(m: ObjectReferenceMessage) -> Seq<IdentView> {
    Seq::new(
        m.idents@.len(),
        |i: int| IdentView { value: m.idents@[i].value@, quoted: m.idents@[i].quoted },
    )
}

impl ProtoConv for ObjectReference {
    type ProtoType = ObjectReferenceMessage;

    fn to_proto(&self) -> (r: Result<ObjectReferenceMessage, RayexecError>)
        ensures
            r matches Ok(m) && decode_object_reference(m) == self@,
    {
        let mut idents: Vec<IdentMessage> = Vec::new();
        let mut i: usize = 0;
        while i < self.0.len()
            invariant
                i <= self.0.len(),
                idents@.len() == i,
                forall|k: int|
                    0 <= k < i ==> (#[trigger] idents@[k]).value@ == self.0@[k].value@
                        && idents@[k].quoted == self.0@[k].quoted,
            decreases self.0.len() - i,
        {
            idents.push(IdentMessage { value: self.0[i].value.clone(), quoted: self.0[i].quoted });
            i += 1;
        }
        let m = ObjectReferenceMessage { idents };
        assert(decode_object_reference(m) =~= self@);
        Ok(m)
    }

    fn from_proto(proto: ObjectReferenceMessage) -> (r: Result<ObjectReference, RayexecError>)
        ensures
            r matches Ok(v) && v@ == decode_object_reference(proto),
    {
        let mut idents: Vec<Ident> = Vec::new();
        let mut i: usize = 0;
        while i < proto.idents.len()
            invariant
                i <= proto.idents.len(),
                idents@.len() == i,
                forall|k: int|
                    0 <= k < i ==> (#[trigger] idents@[k])@ == (IdentView {
                        value: proto.idents@[k].value@,
                        quoted: proto.idents@[k].quoted,
                    }),
            decreases proto.idents.len() - i,
        {
            idents.push(
                Ident { value: proto.idents[i].value.clone(), quoted: proto.idents[i].quoted },
            );
            i += 1;
        }
        let v = ObjectReference(idents);
        assert(v@ =~= decode_object_reference(proto));
        Ok(v)
    }
}

} // verus!
