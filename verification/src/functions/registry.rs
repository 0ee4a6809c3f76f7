//! The registry of scalar functions: from a name, whatever its case, to
//! the function. Aliases resolve as names do.

use crate::functions::arith::ArithFunction;
use crate::functions::FunctionInfo;
use crate::text::{ascii_lower, eq_ignore_ascii_case};
use vstd::prelude::*;

verus! {

/// The registered functions, in registration order.
pub open spec fn registered_functions() -> Seq<ArithFunction> {
    seq![
        ArithFunction::Add,
        ArithFunction::Sub,
        ArithFunction::Div,
        ArithFunction::Mul,
        ArithFunction::Rem,
    ]
}

/// Whether a function answers to a name: the name is its canonical name or
/// one of its aliases, but for the case of ASCII letters.
pub open spec fn answers_to(function: ArithFunction, name: Seq<char>) -> bool {
    ascii_lower(function.spec_name()) == ascii_lower(name) || exists|i: int|
        0 <= i < function.spec_aliases().len() && ascii_lower(
            #[trigger] function.spec_aliases()[i],
        ) == ascii_lower(name)
}

/// Whether a function answers to a name.
pub fn function_answers_to(function: ArithFunction, name: &str) -> (r: bool)
    ensures
        r == answers_to(function, name@),
{
    if eq_ignore_ascii_case(function.name(), name) {
        return true;
    }
    let aliases = function.aliases();
    let mut i: usize = 0;
    while i < aliases.len()
        invariant
            i <= aliases.len(),
            aliases@.len() == function.spec_aliases().len(),
            forall|k: int|
                0 <= k < aliases@.len() ==> (#[trigger] aliases@[k])@ == function.spec_aliases()[k],
            forall|k: int|
                0 <= k < i ==> ascii_lower(#[trigger] function.spec_aliases()[k]) != ascii_lower(
                    name@,
                ),
        decreases aliases.len() - i,
    {
        if eq_ignore_ascii_case(aliases[i], name) {
            assert(ascii_lower(function.spec_aliases()[i as int]) == ascii_lower(name@));
            return true;
        }
        i += 1;
    }
    false
}

/// Looks a scalar function up by name: the first registered function that
/// answers to the name, if any.
pub fn lookup_scalar_function(name: &str) -> (r: Option<ArithFunction>)
    ensures
        match r {
            Some(function) => exists|i: int|
                0 <= i < registered_functions().len() && registered_functions()[i] == function
                    && answers_to(function, name@) && forall|k: int|
                    0 <= k < i ==> !answers_to(#[trigger] registered_functions()[k], name@),
            None => forall|k: int|
                0 <= k < registered_functions().len() ==> !answers_to(
                    #[trigger] registered_functions()[k],
                    name@,
                ),
        },
{
    let functions = [
        ArithFunction::Add,
        ArithFunction::Sub,
        ArithFunction::Div,
        ArithFunction::Mul,
        ArithFunction::Rem,
    ];
    assert(functions@ =~= registered_functions());
    let mut i: usize = 0;
    while i < 5
        invariant
            i <= 5,
            functions@ == registered_functions(),
            forall|k: int| 0 <= k < i ==> !answers_to(#[trigger] registered_functions()[k], name@),
        decreases 5 - i,
    {
        if function_answers_to(functions[i], name) {
            return Some(functions[i]);
        }
        i += 1;
    }
    None
}

} // verus!
