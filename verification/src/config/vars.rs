//! Session variables: named scalar settings. Names match whatever their
//! case, and a variable only takes values of the type of its default.

use crate::datatype::{datatype_text, DataType};
use crate::error::{fails_with, RayexecError};
use crate::logical::logical_set::VariableOrAll;
use crate::scalar::ScalarValue;
use crate::text::{ascii_lower, eq_ignore_ascii_case};
use vstd::prelude::*;

verus! {

/// A session variable: its name and its value.
#[derive(Debug, PartialEq, Eq)]
pub struct SessionVar {
    pub name: String,
    pub value: ScalarValue,
}

impl Clone for SessionVar {
    fn clone(&self) -> (r: Self)
        ensures
            r == *self,
    {
        SessionVar { name: self.name.clone(), value: self.value.clone() }
    }
}

/// A variable of a session with the value it starts with and the value it
/// has.
#[derive(Debug, PartialEq, Eq)]
pub struct SessionVarSlot {
    pub name: String,
    pub default: ScalarValue,
    pub value: ScalarValue,
}

/// The variables of a session.
#[derive(Debug, PartialEq, Eq)]
pub struct SessionVars {
    slots: Vec<SessionVarSlot>,
}

/// What a variable of a session holds, as plain values.
pub ghost struct SlotView {
    pub name: Seq<char>,
    pub default: ScalarValue,
    pub value: ScalarValue,
}

impl View for SessionVarSlot {
    type V = SlotView;

    open spec fn view(&self) -> SlotView {
        SlotView { name: self.name@, default: self.default, value: self.value }
    }
}

impl View for SessionVars {
    type V = Seq<SlotView>;

    closed spec fn view(&self) -> Seq<SlotView> {
        Seq::new(self.slots@.len(), |i: int| self.slots@[i]@)
    }
}

/// Whether a variable has the given name, but for the case of ASCII
/// letters.
pub open spec fn is_named(slot: SlotView, name: Seq<char>) -> bool {
    ascii_lower(slot.name) == ascii_lower(name)
}

/// The position of the first variable with the given name, if any.
pub open spec fn position_of(vars: Seq<SlotView>, name: Seq<char>) -> Option<int> {
    if exists|i: int| 0 <= i < vars.len() && is_named(#[trigger] vars[i], name) {
        Some(
            choose|i: int|
                0 <= i < vars.len() && is_named(#[trigger] vars[i], name) && forall|k: int|
                    0 <= k < i ==> !is_named(#[trigger] vars[k], name),
        )
    } else {
        None
    }
}

/// The first variable with a name is at a position before which no
/// variable has the name.
pub proof fn lemma_position_of(vars: Seq<SlotView>, name: Seq<char>, i: int)
    requires
        0 <= i < vars.len(),
        is_named(vars[i], name),
        forall|k: int| 0 <= k < i ==> !is_named(#[trigger] vars[k], name),
    ensures
        position_of(vars, name) == Some(i),
{
    let j = position_of(vars, name)->0;
    assert(0 <= j < vars.len() && is_named(vars[j], name) && forall|k: int|
        0 <= k < j ==> !is_named(#[trigger] vars[k], name));
    if j < i {
        assert(!is_named(vars[j], name));
    }
    if i < j {
        assert(!is_named(vars[i], name));
    }
}

/// The message of the error for a name that no variable has.
pub open spec fn missing_var_text(name: Seq<char>) -> Seq<char> {
    "Session variable doesn't exist: "@ + name
}

/// The message of the error for a value of another type than the
/// variable's.
pub open spec fn var_type_text(name: Seq<char>, expected: DataType, got: DataType) -> Seq<char> {
    "Invalid value for session variable '"@ + name + "', expected "@ + datatype_text(expected)
        + ", got "@ + datatype_text(got)
}

/// The variables with one of them given a value.
pub open spec fn with_value(vars: Seq<SlotView>, i: int, value: ScalarValue) -> Seq<SlotView> {
    vars.update(i, SlotView { name: vars[i].name, default: vars[i].default, value })
}

/// The variables with every value back at its default.
pub open spec fn all_reset(vars: Seq<SlotView>) -> Seq<SlotView> {
    vars.map_values(|v: SlotView| SlotView { name: v.name, default: v.default, value: v.default })
}

impl SessionVars {
    /// The variables of a new session: each has its default as its value.
    pub fn new(defaults: Vec<SessionVar>) -> (vars: Self)
        ensures
            vars@.len() == defaults@.len(),
            forall|i: int|
                0 <= i < defaults@.len() ==> (#[trigger] vars@[i]) == (SlotView {
                    name: defaults@[i].name@,
                    default: defaults@[i].value,
                    value: defaults@[i].value,
                }),
    {
        let mut slots: Vec<SessionVarSlot> = Vec::new();
        let mut i: usize = 0;
        while i < defaults.len()
            invariant
                i <= defaults.len(),
                slots@.len() == i,
                forall|k: int|
                    0 <= k < i ==> (#[trigger] slots@[k])@ == (SlotView {
                        name: defaults@[k].name@,
                        default: defaults@[k].value,
                        value: defaults@[k].value,
                    }),
            decreases defaults.len() - i,
        {
            slots.push(
                SessionVarSlot {
                    name: defaults[i].name.clone(),
                    default: defaults[i].value.clone(),
                    value: defaults[i].value.clone(),
                },
            );
            i += 1;
        }
        SessionVars { slots }
    }

    fn position(&self, name: &str) -> (r: Option<usize>)
        ensures
            match r {
                Some(i) => position_of(self@, name@) == Some(i as int) && i < self@.len(),
                None => position_of(self@, name@) is None,
            },
    {
        let mut i: usize = 0;
        while i < self.slots.len()
            invariant
                i <= self.slots.len(),
                forall|k: int| 0 <= k < i ==> !is_named(#[trigger] self@[k], name@),
            decreases self.slots.len() - i,
        {
            if eq_ignore_ascii_case(self.slots[i].name.as_str(), name) {
                proof {
                    lemma_position_of(self@, name@, i as int);
                }
                return Some(i);
            }
            i += 1;
        }
        None
    }

    /// Reads a variable: its name as declared, and its value.
    pub fn get_var(&self, name: &str) -> (r: Result<SessionVar, RayexecError>)
        ensures
            match position_of(self@, name@) {
                Some(i) => r matches Ok(var) && var.name@ == self@[i].name && var.value
                    == self@[i].value,
                None => fails_with(r, missing_var_text(name@)),
            },
    {
        match self.position(name) {
            Some(i) => Ok(
                SessionVar { name: self.slots[i].name.clone(), value: self.slots[i].value.clone() },
            ),
            None => Err(missing_var(name)),
        }
    }

    /// Assigns a variable. Fails, changing nothing, when no variable has
    /// the name or the value is not of the type of the variable's default.
    pub fn set_var(&mut self, name: &str, value: ScalarValue) -> (r: Result<(), RayexecError>)
        ensures
            match position_of(old(self)@, name@) {
                None => fails_with(r, missing_var_text(name@)) && final(self)@ == old(self)@,
                Some(i) => if value.spec_datatype() == old(self)@[i].default.spec_datatype() {
                    r is Ok && final(self)@ == with_value(old(self)@, i, value)
                } else {
                    fails_with(
                        r,
                        var_type_text(
                            name@,
                            old(self)@[i].default.spec_datatype(),
                            value.spec_datatype(),
                        ),
                    ) && final(self)@ == old(self)@
                },
            },
    {
        let i = match self.position(name) {
            Some(i) => i,
            None => {
                return Err(missing_var(name));
            },
        };
        let expected = self.slots[i].default.datatype();
        let got = value.datatype();
        if !(expected == got) {
            let mut msg = String::from_str("Invalid value for session variable '");
            msg.append(name);
            msg.append("', expected ");
            msg.append(expected.to_string().as_str());
            msg.append(", got ");
            msg.append(got.to_string().as_str());
            return Err(RayexecError::new(msg.as_str()));
        }
        let ghost before = self@;
        let slot = SessionVarSlot {
            name: self.slots[i].name.clone(),
            default: self.slots[i].default.clone(),
            value,
        };
        self.slots.set(i, slot);
        assert(self@ =~= with_value(before, i as int, value));
        Ok(())
    }

    /// Restores the default of a variable, found by its name, or of all
    /// variables. Fails, changing nothing, when no variable has the name.
    pub fn reset_var(&mut self, which: &VariableOrAll) -> (r: Result<(), RayexecError>)
        ensures
            match *which {
                VariableOrAll::All => r is Ok && final(self)@ == all_reset(old(self)@),
                VariableOrAll::Variable(var) => match position_of(old(self)@, var.name@) {
                    None => fails_with(r, missing_var_text(var.name@)) && final(self)@ == old(
                        self,
                    )@,
                    Some(i) => r is Ok && final(self)@ == with_value(
                        old(self)@,
                        i,
                        old(self)@[i].default,
                    ),
                },
            },
    {
        match which {
            VariableOrAll::Variable(var) => {
                let i = match self.position(var.name.as_str()) {
                    Some(i) => i,
                    None => {
                        return Err(missing_var(var.name.as_str()));
                    },
                };
                let ghost before = self@;
                let slot = SessionVarSlot {
                    name: self.slots[i].name.clone(),
                    default: self.slots[i].default.clone(),
                    value: self.slots[i].default.clone(),
                };
                self.slots.set(i, slot);
                assert(self@ =~= with_value(before, i as int, before[i as int].default));
                Ok(())
            },
            VariableOrAll::All => {
                let ghost before = self@;
                let mut i: usize = 0;
                while i < self.slots.len()
                    invariant
                        i <= self.slots.len(),
                        self@.len() == before.len(),
                        forall|k: int| 0 <= k < i ==> (#[trigger] self@[k]) == all_reset(before)[k],
                        forall|k: int| i <= k < before.len() ==> (#[trigger] self@[k]) == before[k],
                    decreases self.slots.len() - i,
                {
                    let ghost current = self@;
                    assert(current[i as int] == before[i as int]);
                    assert(current[i as int] == self.slots@[i as int]@);
                    let slot = SessionVarSlot {
                        name: self.slots[i].name.clone(),
                        default: self.slots[i].default.clone(),
                        value: self.slots[i].default.clone(),
                    };
                    self.slots.set(i, slot);
                    assert(self@ =~= current.update(i as int, slot@));
                    assert(all_reset(before)[i as int] == slot@);
                    i += 1;
                }
                assert(self@ =~= all_reset(before));
                Ok(())
            },
        }
    }
}

fn missing_var(name: &str) -> (e: RayexecError)
    ensures
        e@.msg == missing_var_text(name@),
        e@.source is None,
{
    let mut msg = String::from_str("Session variable doesn't exist: ");
    msg.append(name);
    RayexecError::new(msg.as_str())
}

} // verus!
