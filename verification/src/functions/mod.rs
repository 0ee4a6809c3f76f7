//! Function descriptions shared by every scalar function: names, aliases,
//! signatures, and the checks that planning starts with.

pub mod arith;
pub mod arith_kernels;
pub mod copy;
pub mod registry;
pub mod rem;

use crate::datatype::{datatype_names, datatype_text, DataType, DataTypeId};
use crate::error::RayexecError;
use crate::text::{join, join_text, nat_text, unsigned_to_string};
use vstd::prelude::*;

verus! {

/// What a signature holds, as plain values.
pub ghost struct SignatureView {
    pub input: Seq<DataTypeId>,
    pub variadic: Option<DataTypeId>,
    pub return_type: DataTypeId,
}

/// One accepted shape of a function call: the leading argument types, the
/// type of any further arguments, and the type of the result.
#[derive(Debug, PartialEq, Eq)]
pub struct Signature {
    pub input: Vec<DataTypeId>,
    pub variadic: Option<DataTypeId>,
    pub return_type: DataTypeId,
}

impl View for Signature {
    type V = SignatureView;

    open spec fn view(&self) -> SignatureView {
        SignatureView {
            input: self.input@,
            variadic: self.variadic,
            return_type: self.return_type,
        }
    }
}

/// Whether a declared type identifier accepts a provided one.
pub open spec fn id_accepts(declared: DataTypeId, provided: DataTypeId) -> bool {
    declared == DataTypeId::Any || declared == provided
}

/// Whether a signature accepts the given argument types: the leading
/// arguments match the declared inputs one by one, and any further arguments
/// match the variadic type, without which there may be none.
pub open spec fn signature_accepts(sig: SignatureView, provided: Seq<DataTypeId>) -> bool {
    &&& provided.len() >= sig.input.len()
    &&& forall|i: int| 0 <= i < sig.input.len() ==> id_accepts(sig.input[i], #[trigger] provided[i])
    &&& match sig.variadic {
        Some(v) => forall|i: int|
            sig.input.len() <= i < provided.len() ==> id_accepts(v, #[trigger] provided[i]),
        None => provided.len() == sig.input.len(),
    }
}

impl Signature {
    /// Whether the signature accepts the given argument types.
    pub fn accepts(&self, provided: &Vec<DataTypeId>) -> (r: bool)
        ensures
            r == signature_accepts(self@, provided@),
    {
        if provided.len() < self.input.len() {
            return false;
        }
        let mut i: usize = 0;
        while i < self.input.len()
            invariant
                i <= self.input.len() <= provided.len(),
                forall|k: int| 0 <= k < i ==> id_accepts(self.input@[k], #[trigger] provided@[k]),
            decreases self.input.len() - i,
        {
            if !(self.input[i] == DataTypeId::Any || self.input[i] == provided[i]) {
                return false;
            }
            i += 1;
        }
        match self.variadic {
            None => provided.len() == self.input.len(),
            Some(v) => {
                while i < provided.len()
                    invariant
                        self.input.len() <= i <= provided.len(),
                        self.variadic == Some(v),
                        forall|k: int| 0 <= k < self.input.len() ==> id_accepts(self.input@[k], #[trigger] provided@[k]),
                        forall|k: int|
                            self.input.len() <= k < i ==> id_accepts(v, #[trigger] provided@[k]),
                    decreases provided.len() - i,
                {
                    if !(v == DataTypeId::Any || v == provided[i]) {
                        return false;
                    }
                    i += 1;
                }
                true
            },
        }
    }
}

/// Name, aliases and signatures of a function.
pub trait FunctionInfo {
    /// The canonical name.
    spec fn spec_name(&self) -> Seq<char>;

    /// The other names that the function answers to.
    spec fn spec_aliases(&self) -> Seq<Seq<char>>;

    /// The accepted signatures, in declaration order.
    spec fn spec_signatures(&self) -> Seq<SignatureView>;

    fn name(&self) -> (n: &'static str)
        ensures
            n@ == self.spec_name(),
    ;

    fn aliases(&self) -> (names: Vec<&'static str>)
        ensures
            names@.len() == self.spec_aliases().len(),
            forall|i: int| 0 <= i < names@.len() ==> (#[trigger] names@[i])@ == self.spec_aliases()[i],
    ;

    fn signatures(&self) -> (sigs: Vec<Signature>)
        ensures
            sigs@.len() == self.spec_signatures().len(),
            forall|i: int| 0 <= i < sigs@.len() ==> (#[trigger] sigs@[i])@ == self.spec_signatures()[i],
    ;
}

/// The rendered form of a list of types: the names, separated by a comma and
/// a space, in square brackets.
pub open spec fn types_text(types: Seq<DataType>) -> Seq<char> {
    "["@ + join_text(types.map_values(|t: DataType| datatype_text(t)), ", "@) + "]"@
}

/// The message of the error for a call with the wrong number of arguments.
pub open spec fn num_args_text(name: Seq<char>, expected: nat, received: nat) -> Seq<char> {
    "Expected "@ + nat_text(expected) + (if expected == 1 {
        " input"@
    } else {
        " inputs"@
    }) + " for '"@ + name + "', received "@ + nat_text(received)
}

/// The message of the error for argument types that no signature accepts.
pub open spec fn invalid_input_types_text(name: Seq<char>, got: Seq<DataType>) -> Seq<char> {
    "Got invalid type(s) '"@ + types_text(got) + "' for '"@ + name + "'"@
}

/// Renders a list of types, as `types_text` states.
pub fn types_to_string(types: &Vec<DataType>) -> (s: String)
    ensures
        s@ == types_text(types@),
{
    let names = datatype_names(types);
    let mut s = String::from_str("[");
    s.append(join(&names, ", ").as_str());
    s.append("]");
    s
}

/// Checks that a call has the expected number of arguments.
pub fn plan_check_num_args<F: FunctionInfo, T>(func: &F, inputs: &Vec<T>, expected: usize) -> (r:
    Result<(), RayexecError>)
    ensures
        inputs@.len() == expected ==> r is Ok,
        inputs@.len() != expected ==> (r matches Err(e) && e@.msg == num_args_text(
            func.spec_name(),
            expected as nat,
            inputs@.len(),
        ) && e@.source is None),
{
    if inputs.len() != expected {
        let mut msg = String::from_str("Expected ");
        msg.append(unsigned_to_string(expected as u128).as_str());
        if expected == 1 {
            msg.append(" input");
        } else {
            msg.append(" inputs");
        }
        msg.append(" for '");
        msg.append(func.name());
        msg.append("', received ");
        msg.append(unsigned_to_string(inputs.len() as u128).as_str());
        return Err(RayexecError::new(msg.as_str()));
    }
    Ok(())
}

/// The error for argument types that no signature of the function accepts.
pub fn invalid_input_types_error<F: FunctionInfo>(func: &F, got: &Vec<DataType>) -> (e:
    RayexecError)
    ensures
        e@.msg == invalid_input_types_text(func.spec_name(), got@),
        e@.source is None,
{
    let mut msg = String::from_str("Got invalid type(s) '");
    msg.append(types_to_string(got).as_str());
    msg.append("' for '");
    msg.append(func.name());
    msg.append("'");
    RayexecError::new(msg.as_str())
}

} // verus!
