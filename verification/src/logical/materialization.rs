//! Plans whose output is materialized once and read by several scans. The
//! bodies live in an arena; plan nodes hold a `MaterializationRef` into it
//! and never the body itself.

use crate::bind_context::{
    materialization_ref_text, MaterializationRef, TableRef,
};
use crate::error::{fails_with, RayexecError};
use crate::logical::operator::{output_table_refs, LogicalOperator};
use vstd::prelude::*;

verus! {

/// A materialized plan.
#[derive(Debug, PartialEq)]
pub struct PlanMaterialization {
    pub mat_ref: MaterializationRef,
    /// The plan whose output is materialized.
    pub plan: LogicalOperator,
    /// The number of scans that read the materialization.
    pub scan_count: usize,
    /// The table references that the plan outputs.
    pub table_refs: Vec<TableRef>,
}

/// The arena of materialized plans, indexed by `MaterializationRef`.
#[derive(Debug, PartialEq)]
pub struct Materializations {
    bodies: Vec<PlanMaterialization>,
}

/// The message of the error for a reference that the arena lacks.
pub open spec fn missing_materialization_text(r: MaterializationRef) -> Seq<char> {
    "Missing materialization for ref: "@ + materialization_ref_text(r)
}

/// The message of the error for more scans than can be counted.
pub open spec fn scan_count_text() -> Seq<char> {
    "Too many scans of a materialization"@
}

impl View for Materializations {
    type V = Seq<PlanMaterialization>;

    closed spec fn view(&self) -> Seq<PlanMaterialization> {
        self.bodies@
    }
}

impl Materializations {
    pub fn new() -> (arena: Self)
        ensures
            arena@.len() == 0,
    {
        Materializations { bodies: Vec::new() }
    }

    /// Whether the arena holds a body for the reference.
    pub open spec fn defines(&self, r: MaterializationRef) -> bool {
        r.materialization_idx < self@.len()
    }

    /// Puts a plan into the arena and returns its reference, the number of
    /// bodies before the call. The body starts without scans and records the
    /// table references that the plan outputs.
    pub fn new_materialization(&mut self, plan: LogicalOperator) -> (r: MaterializationRef)
        ensures
            r.materialization_idx == old(self)@.len(),
            final(self)@.len() == old(self)@.len() + 1,
            forall|i: int| 0 <= i < old(self)@.len() ==> final(self)@[i] == old(self)@[i],
            final(self)@[r.materialization_idx as int].mat_ref == r,
            final(self)@[r.materialization_idx as int].plan == plan,
            final(self)@[r.materialization_idx as int].scan_count == 0,
            final(self)@[r.materialization_idx as int].table_refs@ == output_table_refs(plan),
    {
        let mat_ref = MaterializationRef { materialization_idx: self.bodies.len() };
        let table_refs = plan.get_output_table_refs();
        self.bodies.push(PlanMaterialization { mat_ref, plan, scan_count: 0, table_refs });
        mat_ref
    }

    /// The body of a reference; fails if the arena lacks it.
    pub fn get_materialization(&self, mat_ref: MaterializationRef) -> (r: Result<
        &PlanMaterialization,
        RayexecError,
    >)
        ensures
            self.defines(mat_ref) ==> (r matches Ok(m) && *m
                == self@[mat_ref.materialization_idx as int]),
            !self.defines(mat_ref) ==> fails_with(r, missing_materialization_text(mat_ref)),
    {
        if mat_ref.materialization_idx < self.bodies.len() {
            Ok(&self.bodies[mat_ref.materialization_idx])
        } else {
            Err(missing(mat_ref))
        }
    }

    /// Counts one more scan of a materialization. Fails, changing nothing,
    /// if the arena lacks the reference or the count cannot grow.
    pub fn inc_scan_count(&mut self, mat_ref: MaterializationRef) -> (r: Result<(), RayexecError>)
        ensures
            !old(self).defines(mat_ref) ==> fails_with(r, missing_materialization_text(mat_ref))
                && final(self)@ == old(self)@,
            old(self).defines(mat_ref) && old(self)@[mat_ref.materialization_idx as int].scan_count
                == usize::MAX ==> fails_with(r, scan_count_text()) && final(self)@ == old(self)@,
            old(self).defines(mat_ref) && old(self)@[mat_ref.materialization_idx as int].scan_count
                < usize::MAX ==> r is Ok && final(self)@.len() == old(self)@.len() && (forall|i: int|
                0 <= i < old(self)@.len() && i != mat_ref.materialization_idx ==> final(self)@[i]
                    == old(self)@[i]) && scanned_once_more(
                final(self)@[mat_ref.materialization_idx as int],
                old(self)@[mat_ref.materialization_idx as int],
            ),
    {
        let i = mat_ref.materialization_idx;
        if i >= self.bodies.len() {
            return Err(missing(mat_ref));
        }
        if self.bodies[i].scan_count == usize::MAX {
            return Err(RayexecError::new("Too many scans of a materialization"));
        }
        let body = self.bodies.remove(i);
        let PlanMaterialization { mat_ref: body_ref, plan, scan_count, table_refs } = body;
        self.bodies.insert(
            i,
            PlanMaterialization { mat_ref: body_ref, plan, scan_count: scan_count + 1, table_refs },
        );
        Ok(())
    }
}

/// Whether a body is another body with one more scan counted.
pub open spec fn scanned_once_more(
    after: PlanMaterialization,
    before: PlanMaterialization,
) -> bool {
    &&& after.mat_ref == before.mat_ref
    &&& after.plan == before.plan
    &&& after.table_refs == before.table_refs
    &&& after.scan_count == before.scan_count + 1
}

fn missing(mat_ref: MaterializationRef) -> (e: RayexecError)
    ensures
        e@.msg == missing_materialization_text(mat_ref),
        e@.source is None,
{
    let mut msg = String::from_str("Missing materialization for ref: ");
    msg.append(mat_ref.to_string().as_str());
    RayexecError::new(msg.as_str())
}

} // verus!
