//! Messages for resolved statements.

use crate::proto::functions::CopyToFunctionMessage;
use vstd::prelude::*;

verus! {

#[derive(Debug, PartialEq, Eq)]
pub struct ResolvedCopyToMessage {
    pub func: Option<CopyToFunctionMessage>,
}

} // verus!
