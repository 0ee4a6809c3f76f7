//! Laws of lowering: what the chains of a plan push, told from what their
//! operators give.

use crate::array::kept_rows;
use crate::batch::{columns_have_rows, BatchView};
use crate::bind_context::TableRef;
use crate::expr::column_expr::ColumnExpr;
use crate::expr::physical::{position_from, PhysicalScalarExpression, TableWidth};
use crate::expr::{Expression, LiteralExpr};
use crate::logical::logical_filter::LogicalFilter;
use crate::physical::plans::projection::is_identity_projection;
use crate::logical::logical_join::LogicalCrossJoin;
use crate::logical::logical_setop::LogicalSetop;
use crate::logical::operator::{LogicalOperator, Node};
use crate::physical::chain::{
    chain_outcome, chains_outcome, collected_outcome, no_rows, operators_outcome, ChainPlan,
};
use crate::physical::lowering::{
    layout_of, lower_outcome, project_lowered, source_chain, with_operator,
};
use crate::physical::planner::convert_all;
use crate::physical::plans::filter::{emptied, lemma_constant_filters, lemma_kept_rows_len};
use crate::physical::plans::grouping_sets::{
    first_occurrences, grouped_partition, grouping_id, lemma_distinct_ids, partition,
};
use crate::physical::plans::nested_loop_join::{has_no_rows, lemma_cross_with_empty};
use crate::physical::plans::{operator_outcome, OperatorView, SourceView};
use crate::scalar::ScalarValue;
use crate::storage::Datum;
use vstd::prelude::*;

verus! {

/// The first operators of a list give the same with one more operator at
/// the end of the list.
pub proof fn lemma_operators_prefix(
    operators: Seq<OperatorView>,
    op: OperatorView,
    batch: BatchView,
    upto: nat,
)
    requires
        upto <= operators.len(),
    ensures
        operators_outcome(operators.push(op), batch, upto) == operators_outcome(
            operators,
            batch,
            upto,
        ),
    decreases upto,
{
    if upto > 0 {
        lemma_operators_prefix(operators, op, batch, (upto - 1) as nat);
        assert(operators.push(op)[upto - 1] == operators[upto - 1]);
    }
}

/// The operators of a chain with one more at their end give what the last
/// one gives for what the others give, and fail where the others fail.
pub proof fn lemma_operator_at_end(operators: Seq<OperatorView>, op: OperatorView, batch: BatchView)
    ensures
        operators_outcome(operators.push(op), batch, operators.len() + 1) == match operators_outcome(
            operators,
            batch,
            operators.len(),
        ) {
            Err(msg) => Err(msg),
            Ok(out) => operator_outcome(op, out),
        },
{
    lemma_operators_prefix(operators, op, batch, operators.len());
    assert(operators.push(op)[operators.len() as int] == op);
}

/// The filter on a constant.
pub open spec fn constant_filter(value: bool) -> OperatorView {
    OperatorView::Filter(PhysicalScalarExpression::Literal(ScalarValue::Boolean(value)))
}

/// A filter on a constant, over an input that has a layout, lowers to the
/// chains of its input, each with the filter at its end.
pub proof fn lemma_constant_filter_lowering(filter: Node<LogicalFilter>, value: bool)
    requires
        filter.children@.len() == 1,
        filter.node.filter == Expression::Literal(
            LiteralExpr { literal: ScalarValue::Boolean(value) },
        ),
        layout_of(filter.children@[0]) is Some,
    ensures
        lower_outcome(LogicalOperator::Filter(filter)) == match lower_outcome(filter.children@[0]) {
            Ok(chains) => Ok(with_operator(chains, constant_filter(value))),
            Err(msg) => Err(msg),
        },
{
}

/// A filter on the constant true at the end of a chain leaves what the
/// chain pushes as it is, and a filter on the constant false leaves none of
/// its rows.
pub proof fn lemma_constant_filter_at_end(operators: Seq<OperatorView>, batch: BatchView)
    requires
        operators_outcome(operators, batch, operators.len()) matches Ok(out) && columns_have_rows(
            out.cols,
            out.num_rows,
        ),
    ensures
        operators_outcome(operators.push(constant_filter(true)), batch, operators.len() + 1)
            == operators_outcome(operators, batch, operators.len()),
        operators_outcome(operators.push(constant_filter(false)), batch, operators.len() + 1)
            == Ok::<BatchView, Seq<char>>(
            emptied(operators_outcome(operators, batch, operators.len())->Ok_0),
        ),
{
    let out = operators_outcome(operators, batch, operators.len())->Ok_0;
    lemma_operator_at_end(operators, constant_filter(true), batch);
    lemma_operator_at_end(operators, constant_filter(false), batch);
    lemma_constant_filters(out);
}

/// Whether the last operator of a chain is a cross join whose buffered
/// side has no rows.
pub open spec fn ends_in_empty_cross_join(chain: ChainPlan) -> bool {
    chain.operators.len() > 0 && (chain.operators.last() matches OperatorView::CrossJoin {
        buffered,
        ..
    } && buffered.num_rows == 0)
}

/// The cross join of an input with the empty relation, on either side,
/// can be lowered where the input can, and every chain that it lowers to
/// ends in a cross join whose buffered side has no rows.
pub proof fn lemma_cross_join_with_empty_lowering(join: Node<LogicalCrossJoin>)
    requires
        join.children@.len() == 2,
        join.children@[0] is Empty || join.children@[1] is Empty,
        lower_outcome(join.children@[0]) is Ok,
        lower_outcome(join.children@[1]) is Ok,
    ensures
        lower_outcome(LogicalOperator::CrossJoin(join)) matches Ok(chains) && forall|k: int|
            0 <= k < chains.len() ==> ends_in_empty_cross_join(#[trigger] chains[k]),
{
    let empty = source_chain(SourceView::Empty);
    reveal_with_fuel(chains_outcome, 2);
    assert(chain_outcome(empty[0]) == Ok::<Option<BatchView>, Seq<char>>(None));
    assert(collected_outcome(empty) == Ok::<BatchView, Seq<char>>(no_rows()));
}

/// A cross join whose buffered side has no rows gives no rows, whatever
/// the batch.
pub proof fn lemma_empty_cross_join_gives_no_rows(op: OperatorView, batch: BatchView)
    requires
        op matches OperatorView::CrossJoin { buffered, .. } && buffered.num_rows == 0
            && columns_have_rows(buffered.cols, buffered.num_rows),
        columns_have_rows(batch.cols, batch.num_rows),
    ensures
        operator_outcome(op, batch) matches Ok(out) && has_no_rows(out),
{
    match op {
        OperatorView::CrossJoin { buffered, .. } => {
            lemma_cross_with_empty(batch, buffered);
        },
        _ => {},
    }
}

/// The first chains of a list push the same with more chains after them.
pub proof fn lemma_chains_prefix(chains: Seq<ChainPlan>, more: Seq<ChainPlan>, upto: nat)
    requires
        upto <= chains.len(),
    ensures
        chains_outcome(chains + more, upto) == chains_outcome(chains, upto),
    decreases upto,
{
    if upto > 0 {
        lemma_chains_prefix(chains, more, (upto - 1) as nat);
        assert((chains + more)[upto - 1] == chains[upto - 1]);
    }
}

/// The chains of a list push the same after a chain of the empty source.
pub proof fn lemma_chains_after_empty(chains: Seq<ChainPlan>, upto: nat)
    requires
        upto <= chains.len(),
    ensures
        chains_outcome(source_chain(SourceView::Empty) + chains, upto + 1) == chains_outcome(
            chains,
            upto,
        ),
    decreases upto,
{
    let all = source_chain(SourceView::Empty) + chains;
    if upto > 0 {
        lemma_chains_after_empty(chains, (upto - 1) as nat);
        assert(all[upto as int] == chains[upto - 1]);
    } else {
        reveal_with_fuel(chains_outcome, 2);
        assert(all[0] == source_chain(SourceView::Empty)[0]);
    }
}

/// The union that keeps duplicates of an input with the empty relation, on
/// either side, lowers to chains that push what the chains of the input
/// push.
pub proof fn lemma_union_with_empty_lowering(setop: Node<LogicalSetop>)
    requires
        setop.children@.len() == 2,
        setop.node.kind is Union,
        setop.node.all,
        lower_outcome(setop.children@[0]) is Ok,
        lower_outcome(setop.children@[1]) is Ok,
    ensures
        lower_outcome(LogicalOperator::SetOp(setop)) matches Ok(chains) && (setop.children@[1]
            is Empty ==> collected_outcome(chains) == collected_outcome(
            lower_outcome(setop.children@[0])->Ok_0,
        )) && (setop.children@[0] is Empty ==> collected_outcome(chains) == collected_outcome(
            lower_outcome(setop.children@[1])->Ok_0,
        )),
{
    let first = lower_outcome(setop.children@[0])->Ok_0;
    let second = lower_outcome(setop.children@[1])->Ok_0;
    let empty = source_chain(SourceView::Empty);
    if setop.children@[1] is Empty {
        lemma_chains_prefix(first, empty, first.len());
        assert((first + empty)[first.len() as int] == empty[0]);
    }
    if setop.children@[0] is Empty {
        lemma_chains_after_empty(second, second.len());
    }
}

/// The rows that a mask keeps of rows that all hold one value hold that
/// value.
pub proof fn lemma_kept_rows_of_constant(
    rows: Seq<Option<Datum>>,
    keep: Seq<bool>,
    upto: nat,
    value: Option<Datum>,
)
    requires
        forall|i: int| 0 <= i < rows.len() ==> rows[i] == value,
    ensures
        forall|j: int|
            0 <= j < kept_rows(rows, keep, upto).len() ==> #[trigger] kept_rows(rows, keep, upto)[j]
                == value,
    decreases upto,
{
    if upto > 0 {
        lemma_kept_rows_of_constant(rows, keep, (upto - 1) as nat, value);
    }
}

/// What a group of a grouping set is tagged with, in the last column.
pub open spec fn group_tag(groups: BatchView, set: Set<usize>, row: int) -> Option<Datum> {
    grouped_partition(groups, set, true).cols.last().rows[row]
}

/// Every group of a grouping set is tagged with the id of the set.
pub proof fn lemma_groups_are_tagged(groups: BatchView, set: Set<usize>, row: int)
    requires
        0 <= row < grouped_partition(groups, set, true).num_rows,
    ensures
        grouped_partition(groups, set, true).cols.len() == groups.cols.len() + 1,
        group_tag(groups, set, row) == Some(
            Datum::Int(grouping_id(set, groups.cols.len()) as int),
        ),
{
    let part = partition(groups, set);
    let keep = first_occurrences(part);
    let tags = part.cols.last();
    let value = Some(Datum::Int(grouping_id(set, groups.cols.len()) as int));
    lemma_kept_rows_of_constant(tags.rows, keep, keep.len(), value);
    lemma_kept_rows_len(tags.rows, keep, keep.len());
}

/// The groups of grouping sets that differ in a group column are tagged
/// with different ids.
pub proof fn lemma_groups_of_different_sets(
    groups: BatchView,
    a: Set<usize>,
    b: Set<usize>,
    i: int,
    j: int,
)
    requires
        groups.cols.len() <= usize::MAX,
        exists|g: usize| g < groups.cols.len() && a.contains(g) != b.contains(g),
        0 <= i < grouped_partition(groups, a, true).num_rows,
        0 <= j < grouped_partition(groups, b, true).num_rows,
    ensures
        group_tag(groups, a, i) != group_tag(groups, b, j),
{
    lemma_groups_are_tagged(groups, a, i);
    lemma_groups_are_tagged(groups, b, j);
    lemma_distinct_ids(a, b, groups.cols.len());
}

/// Whether a list of expressions is the columns of one table, in order.
pub open spec fn is_columns_of(exprs: Seq<Expression>, table: TableRef) -> bool {
    forall|i: int|
        0 <= i < exprs.len() ==> #[trigger] exprs[i] == Expression::Column(
            ColumnExpr { table_scope: table, column: i as usize },
        )
}

/// The columns of a table, in order, convert to the columns of an input
/// that holds the table and nothing before it.
pub proof fn lemma_columns_convert(exprs: Seq<Expression>, table: TableRef, upto: nat)
    requires
        is_columns_of(exprs, table),
        exprs.len() <= usize::MAX,
        upto <= exprs.len(),
    ensures
        convert_all(
            exprs,
            seq![TableWidth { table_ref: table, num_columns: exprs.len() as usize }],
            upto,
        ) == Ok::<Seq<PhysicalScalarExpression>, Seq<char>>(
            Seq::new(upto, |i: int| PhysicalScalarExpression::Column(i as usize)),
        ),
    decreases upto,
{
    let layout = seq![TableWidth { table_ref: table, num_columns: exprs.len() as usize }];
    if upto > 0 {
        lemma_columns_convert(exprs, table, (upto - 1) as nat);
        let c = ColumnExpr { table_scope: table, column: (upto - 1) as usize };
        assert(exprs[upto - 1] == Expression::Column(c));
        assert(position_from(layout, c, 0, 0) == Some((upto - 1) as nat));
        assert(Seq::new((upto - 1) as nat, |i: int| PhysicalScalarExpression::Column(i as usize)).push(
            PhysicalScalarExpression::Column((upto - 1) as usize),
        ) =~= Seq::new(upto, |i: int| PhysicalScalarExpression::Column(i as usize)));
    } else {
        assert(Seq::new(0nat, |i: int| PhysicalScalarExpression::Column(i as usize))
            =~= Seq::<PhysicalScalarExpression>::empty());
    }
}

/// The expressions that pass the first `n` columns of an input on.
pub open spec fn passed_columns(n: nat) -> Seq<PhysicalScalarExpression> {
    Seq::new(n, |i: int| PhysicalScalarExpression::Column(i as usize))
}

/// The expressions that pass the first columns on are an identity
/// projection: what they give for a batch of as many columns is the batch.
pub proof fn lemma_passed_columns_are_identity(n: nat)
    ensures
        is_identity_projection(passed_columns(n), n),
{
}

/// A projection of the columns of a table, in order, over an input that
/// outputs the table and nothing else, lowers to the chains of the input,
/// each with a projection at its end that passes every column on.
pub proof fn lemma_columns_projection(exprs: Seq<Expression>, table: TableRef, input: Seq<ChainPlan>)
    requires
        is_columns_of(exprs, table),
        exprs.len() <= usize::MAX,
    ensures
        project_lowered(
            exprs,
            Some(seq![TableWidth { table_ref: table, num_columns: exprs.len() as usize }]),
            Ok(input),
        ) == Ok::<Seq<ChainPlan>, Seq<char>>(
            with_operator(input, OperatorView::Projection(passed_columns(exprs.len()))),
        ),
{
    lemma_columns_convert(exprs, table, exprs.len());
}

} // verus!
