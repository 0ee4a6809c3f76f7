//! Orders the rows of the input.

use crate::bind_context::TableRef;
use crate::explain::{ExplainConfig, ExplainEntry, ExplainEntryView, Explainable};
use crate::expr::{expr_text, Expression};
use crate::logical::operator::{children_table_refs, Node};
use vstd::prelude::*;

verus! {

/// One ordering key.
#[derive(Debug, PartialEq, Eq)]
pub struct OrderByExpr {
    pub expr: Expression,
    pub desc: bool,
    pub nulls_first: bool,
}

#[derive(Debug, PartialEq, Eq)]
pub struct LogicalOrder {
    pub exprs: Vec<OrderByExpr>,
}

/// The rendered form of an ordering key: the expression, the direction, and
/// where NULLs go.
pub open spec fn order_by_text(o: OrderByExpr) -> Seq<char> {
    expr_text(o.expr) + (if o.desc {
        " DESC"@
    } else {
        " ASC"@
    }) + (if o.nulls_first {
        " NULLS FIRST"@
    } else {
        " NULLS LAST"@
    })
}

impl OrderByExpr {
    pub fn to_string(&self) -> (s: String)
        ensures
            s@ == order_by_text(*self),
    {
        let mut s = self.expr.to_string();
        if self.desc {
            s.append(" DESC");
        } else {
            s.append(" ASC");
        }
        if self.nulls_first {
            s.append(" NULLS FIRST");
        } else {
            s.append(" NULLS LAST");
        }
        s
    }
}

impl Explainable for LogicalOrder {
    open spec fn explain_view(&self, conf: ExplainConfig) -> ExplainEntryView {
        ExplainEntryView::named("Order"@).with_values(
            "expressions"@,
            self.exprs@.map_values(|o: OrderByExpr| order_by_text(o)),
        )
    }

    fn explain_entry(&self, _conf: ExplainConfig) -> (e: ExplainEntry) {
        let mut texts: Vec<String> = Vec::new();
        let mut i: usize = 0;
        while i < self.exprs.len()
            invariant
                i <= self.exprs.len(),
                texts.deep_view() == self.exprs@.take(i as int).map_values(
                    |o: OrderByExpr| order_by_text(o),
                ),
            decreases self.exprs.len() - i,
        {
            let text = self.exprs[i].to_string();
            let ghost before = texts.deep_view();
            texts.push(text);
            proof {
                assert(texts.deep_view() =~= before.push(text@));
                assert(self.exprs@.take(i + 1).map_values(|o: OrderByExpr| order_by_text(o))
                    =~= before.push(text@));
            }
            i += 1;
        }
        assert(self.exprs@.take(self.exprs.len() as int) =~= self.exprs@);
        ExplainEntry::new("Order").with_values("expressions", texts)
    }
}

impl Node<LogicalOrder> {
    pub fn get_output_table_refs(&self) -> (refs: Vec<TableRef>)
        ensures
            refs@ == children_table_refs(self.children@, self.children@.len()),
        decreases *self, 2nat,
    {
        self.get_children_table_refs()
    }
}

} // verus!
