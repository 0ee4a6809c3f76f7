//! The planner that turns a logical plan into a pipeline, and the builder
//! that takes on the chains that plans lower to. Inline rows are evaluated
//! here into the batch of their source.

use crate::array::{concat_arrays, concat_outcome, concat_rows, views, Array, ArrayView};
use crate::batch::{column_views, columns_have_rows, first_column_rows, Batch, BatchView};
use crate::error::{fails_with, RayexecError};
use crate::expr::physical::{physical_form, PhysicalScalarExpression, TableWidth};
use crate::expr::Expression;
use crate::logical::logical_filter::LogicalFilter;
use crate::logical::logical_project::LogicalProject;
use crate::logical::logical_scan::LogicalScan;
use crate::logical::operator::{LogicalOperator, Node};
use crate::physical::chain::{chain_views, operator_views, ChainPlan, OperatorChain};
use crate::physical::lowering::{lower_outcome, lower_plan, single_chain, source_chain};
use crate::physical::plans::empty_source::EmptySource;
use crate::physical::plans::projection::{eval_all, lemma_eval_all_error};
use crate::physical::plans::values::PhysicalValues;
use crate::physical::plans::{PhysicalOperator, PhysicalSource, SourceView};
use vstd::prelude::*;

verus! {

/// The chains of a query, to be run to completion, and the sink that all
/// of them push to.
#[derive(Debug)]
pub struct Pipeline<S> {
    pub chains: Vec<OperatorChain>,
    pub sink: S,
}

/// The message of the error for a leaf planned where a source is set.
pub open spec fn source_set_text() -> Seq<char> {
    "Expected source to be None"@
}

/// The message of the error for a node that does not have the one input it
/// needs.
pub open spec fn input_count_text() -> Seq<char> {
    "Expected operator to have exactly one input"@
}

/// The message of the error for inline rows of different lengths.
pub open spec fn ragged_rows_text() -> Seq<char> {
    "Expected every row of values to have the same number of expressions"@
}

/// The physical forms of the first `upto` expressions of a list over an
/// input with the given layout, or the message of the first error.
pub open spec fn convert_all(exprs: Seq<Expression>, layout: Seq<TableWidth>, upto: nat) -> Result<
    Seq<PhysicalScalarExpression>,
    Seq<char>,
>
    decreases upto,
{
    if upto == 0 || upto > exprs.len() {
        Ok(Seq::empty())
    } else {
        match convert_all(exprs, layout, (upto - 1) as nat) {
            Err(msg) => Err(msg),
            Ok(converted) => match physical_form(exprs[upto - 1], layout) {
                Err(msg) => Err(msg),
                Ok(p) => Ok(converted.push(p)),
            },
        }
    }
}

/// The batch that inline expressions are evaluated against: no columns and
/// one row.
pub open spec fn dummy_batch() -> BatchView {
    BatchView { cols: Seq::empty(), num_rows: 1 }
}

/// The one-row arrays that the expressions of a row evaluate to: all
/// expressions are converted first, over an input without columns, then
/// evaluated in order.
pub open spec fn row_outcome(row: Seq<Expression>) -> Result<Seq<ArrayView>, Seq<char>> {
    match convert_all(row, Seq::empty(), row.len()) {
        Err(msg) => Err(msg),
        Ok(exprs) => eval_all(exprs, dummy_batch(), exprs.len()),
    }
}

/// The arrays of the first `upto` rows, row by row, or the message of the
/// first error.
pub open spec fn rows_outcome(rows: Seq<Vec<Expression>>, upto: nat) -> Result<
    Seq<Seq<ArrayView>>,
    Seq<char>,
>
    decreases upto,
{
    if upto == 0 || upto > rows.len() {
        Ok(Seq::empty())
    } else {
        match rows_outcome(rows, (upto - 1) as nat) {
            Err(msg) => Err(msg),
            Ok(table) => match row_outcome(rows[upto - 1]@) {
                Err(msg) => Err(msg),
                Ok(row) => Ok(table.push(row)),
            },
        }
    }
}

/// The number of columns of a table of rows: the length of the first row,
/// or zero without rows.
pub open spec fn table_width(table: Seq<Seq<ArrayView>>) -> nat {
    if table.len() > 0 {
        table[0].len()
    } else {
        0
    }
}

/// Whether some row has another length than the first.
pub open spec fn is_ragged(table: Seq<Seq<ArrayView>>) -> bool {
    exists|i: int| 0 <= i < table.len() && (#[trigger] table[i]).len() != table_width(table)
}

/// The entries of a column of a table of rows, from the first row to the
/// last.
pub open spec fn column_of(table: Seq<Seq<ArrayView>>, j: int) -> Seq<ArrayView> {
    Seq::new(table.len(), |i: int| table[i][j])
}

/// The first `upto` columns of a table of rows, each the concatenation of
/// its entries; or the message of the first error.
pub open spec fn columns_outcome(table: Seq<Seq<ArrayView>>, upto: nat) -> Result<
    Seq<ArrayView>,
    Seq<char>,
>
    decreases upto,
{
    if upto == 0 || upto > table_width(table) {
        Ok(Seq::empty())
    } else {
        match columns_outcome(table, (upto - 1) as nat) {
            Err(msg) => Err(msg),
            Ok(cols) => match concat_outcome(column_of(table, upto - 1)) {
                Err(msg) => Err(msg),
                Ok(col) => Ok(cols.push(col)),
            },
        }
    }
}

/// The batch of inline rows, or the message of the error.
///
/// Every expression is evaluated once against a batch of one row, which
/// gives one array of one row per expression. The rows must have the same
/// number of expressions. The entries of each column are then concatenated
/// into a single array, which fails where they differ in type. The batch
/// has one column per expression of a row and one row per row of values;
/// without rows it has no columns and no rows.
pub open spec fn values_outcome(rows: Seq<Vec<Expression>>) -> Result<BatchView, Seq<char>> {
    match rows_outcome(rows, rows.len()) {
        Err(msg) => Err(msg),
        Ok(table) => if is_ragged(table) {
            Err(ragged_rows_text())
        } else {
            match columns_outcome(table, table_width(table)) {
                Err(msg) => Err(msg),
                Ok(cols) => Ok(BatchView { cols, num_rows: first_column_rows(cols) }),
            }
        },
    }
}

/// What walking a plan adds to a builder: the chains that the plan lowers
/// to, or the message of the error. `source_set` says whether the builder
/// already has a source, with which nothing can be walked.
pub open spec fn walk_outcome(
    plan: LogicalOperator,
    source_set: bool,
) -> Result<Seq<ChainPlan>, Seq<char>> {
    if source_set {
        Err(source_set_text())
    } else {
        lower_outcome(plan)
    }
}

/// Once converting the first expressions fails, converting more fails the
/// same way.
pub proof fn lemma_convert_all_error(
    exprs: Seq<Expression>,
    layout: Seq<TableWidth>,
    upto: nat,
    more: nat,
)
    requires
        upto <= more <= exprs.len(),
        convert_all(exprs, layout, upto) is Err,
    ensures
        convert_all(exprs, layout, more) == convert_all(exprs, layout, upto),
    decreases more,
{
    if more > upto {
        lemma_convert_all_error(exprs, layout, upto, (more - 1) as nat);
    }
}

/// Once evaluating the first rows fails, evaluating more fails the same
/// way.
pub proof fn lemma_rows_error(rows: Seq<Vec<Expression>>, upto: nat, more: nat)
    requires
        upto <= more <= rows.len(),
        rows_outcome(rows, upto) is Err,
    ensures
        rows_outcome(rows, more) == rows_outcome(rows, upto),
    decreases more,
{
    if more > upto {
        lemma_rows_error(rows, upto, (more - 1) as nat);
    }
}

/// Once concatenating the first columns fails, concatenating more fails the
/// same way.
pub proof fn lemma_columns_error(table: Seq<Seq<ArrayView>>, upto: nat, more: nat)
    requires
        upto <= more <= table_width(table),
        columns_outcome(table, upto) is Err,
    ensures
        columns_outcome(table, more) == columns_outcome(table, upto),
    decreases more,
{
    if more > upto {
        lemma_columns_error(table, upto, (more - 1) as nat);
    }
}

/// Arrays of one row each concatenate to as many rows as there are arrays.
pub proof fn lemma_concat_unit_rows(sources: Seq<ArrayView>, upto: nat)
    requires
        upto <= sources.len(),
        forall|i: int| 0 <= i < sources.len() ==> (#[trigger] sources[i]).rows.len() == 1,
    ensures
        concat_rows(sources, upto).len() == upto,
    decreases upto,
{
    if upto > 0 {
        lemma_concat_unit_rows(sources, (upto - 1) as nat);
    }
}

/// Converts each expression of a list to its physical form over an input
/// with the given layout.
pub fn convert_expressions(exprs: &Vec<Expression>, layout: &Vec<TableWidth>) -> (r: Result<
    Vec<PhysicalScalarExpression>,
    RayexecError,
>)
    ensures
        match convert_all(exprs@, layout@, exprs@.len()) {
            Ok(converted) => r matches Ok(out) && out@ == converted,
            Err(msg) => fails_with(r, msg),
        },
{
    let mut out: Vec<PhysicalScalarExpression> = Vec::new();
    let mut i: usize = 0;
    while i < exprs.len()
        invariant
            i <= exprs.len(),
            convert_all(exprs@, layout@, i as nat) == Ok::<
                Seq<PhysicalScalarExpression>,
                Seq<char>,
            >(out@),
        decreases exprs.len() - i,
    {
        let converted = PhysicalScalarExpression::try_from_uncorrelated_expr(
            exprs[i].clone(),
            layout,
        );
        if converted.is_err() {
            proof {
                lemma_convert_all_error(exprs@, layout@, (i + 1) as nat, exprs@.len());
            }
            return Err(converted.unwrap_err());
        }
        out.push(converted.unwrap());
        i += 1;
    }
    Ok(out)
}

#[verifier::loop_isolation(false)]
fn evaluate_row(row: &Vec<Expression>, dummy: &Batch) -> (r: Result<Vec<Array>, RayexecError>)
    requires
        dummy@ == dummy_batch(),
    ensures
        match row_outcome(row@) {
            Ok(arrays) => r matches Ok(out) && column_views(out@) == arrays && forall|k: int|
                0 <= k < arrays.len() ==> (#[trigger] arrays[k]).rows.len() == 1,
            Err(msg) => fails_with(r, msg),
        },
{
    let no_columns: Vec<TableWidth> = Vec::new();
    let exprs = convert_expressions(row, &no_columns)?;
    let mut out: Vec<Array> = Vec::new();
    assert(column_views(out@) =~= Seq::<ArrayView>::empty());
    let mut i: usize = 0;
    while i < exprs.len()
        invariant
            i <= exprs.len(),
            dummy@ == dummy_batch(),
            eval_all(exprs@, dummy_batch(), i as nat) == Ok::<Seq<ArrayView>, Seq<char>>(
                column_views(out@),
            ),
            forall|k: int| 0 <= k < out@.len() ==> (#[trigger] column_views(out@)[k]).rows.len() == 1,
        decreases exprs.len() - i,
    {
        let ghost before = column_views(out@);
        let evaluated = exprs[i].eval(dummy);
        if evaluated.is_err() {
            proof {
                lemma_eval_all_error(exprs@, dummy_batch(), (i + 1) as nat, exprs@.len());
            }
            return Err(evaluated.unwrap_err());
        }
        let array = evaluated.unwrap();
        out.push(array);
        proof {
            assert(column_views(out@) =~= before.push(array@));
        }
        i += 1;
    }
    Ok(out)
}

/// Evaluates inline rows into a single batch, as `values_outcome` states.
#[verifier::loop_isolation(false)]
pub fn evaluate_values(rows: &Vec<Vec<Expression>>) -> (r: Result<Batch, RayexecError>)
    ensures
        match values_outcome(rows@) {
            Ok(batch) => r matches Ok(out) && out@ == batch,
            Err(msg) => fails_with(r, msg),
        },
{
    let dummy_batch = Batch::empty_with_num_rows(1);

    // Convert expressions into arrays of one element each, row oriented.
    let mut row_arrs: Vec<Vec<Array>> = Vec::new();
    let ghost mut table: Seq<Seq<ArrayView>> = Seq::empty();
    let mut i: usize = 0;
    while i < rows.len()
        invariant
            i <= rows.len(),
            dummy_batch@ == self::dummy_batch(),
            rows_outcome(rows@, i as nat) == Ok::<Seq<Seq<ArrayView>>, Seq<char>>(table),
            table.len() == i,
            row_arrs@.len() == i,
            forall|k: int| 0 <= k < i ==> column_views((#[trigger] row_arrs@[k])@) == table[k],
            forall|k: int, j: int|
                0 <= k < i && 0 <= j < table[k].len() ==> (#[trigger] table[k][j]).rows.len() == 1,
        decreases rows.len() - i,
    {
        let evaluated = evaluate_row(&rows[i], &dummy_batch);
        if evaluated.is_err() {
            proof {
                lemma_rows_error(rows@, (i + 1) as nat, rows@.len());
            }
            return Err(evaluated.unwrap_err());
        }
        let arrs = evaluated.unwrap();
        proof {
            table = table.push(column_views(arrs@));
        }
        row_arrs.push(arrs);
        i += 1;
    }

    let num_cols = if row_arrs.len() > 0 {
        row_arrs[0].len()
    } else {
        0
    };
    let mut k: usize = 0;
    while k < row_arrs.len()
        invariant
            k <= row_arrs.len(),
            row_arrs@.len() == table.len(),
            num_cols == table_width(table),
            forall|m: int| 0 <= m < table.len() ==> column_views((#[trigger] row_arrs@[m])@) == table[m],
            forall|m: int| 0 <= m < k ==> (#[trigger] table[m]).len() == num_cols,
        decreases row_arrs.len() - k,
    {
        if row_arrs[k].len() != num_cols {
            assert(table[k as int].len() != table_width(table));
            return Err(
                RayexecError::new(
                    "Expected every row of values to have the same number of expressions",
                ),
            );
        }
        k += 1;
    }
    assert(!is_ragged(table));

    // Concat the entries of each column into a single array.
    let mut cols: Vec<Array> = Vec::new();
    assert(column_views(cols@) =~= Seq::<ArrayView>::empty());
    let mut j: usize = 0;
    while j < num_cols
        invariant
            j <= num_cols,
            row_arrs@.len() == table.len(),
            num_cols == table_width(table),
            forall|m: int| 0 <= m < table.len() ==> column_views((#[trigger] row_arrs@[m])@) == table[m],
            forall|m: int| 0 <= m < table.len() ==> (#[trigger] table[m]).len() == num_cols,
            forall|m: int, c: int|
                0 <= m < table.len() && 0 <= c < table[m].len() ==> (#[trigger] table[m][c]).rows.len()
                    == 1,
            columns_outcome(table, j as nat) == Ok::<Seq<ArrayView>, Seq<char>>(column_views(cols@)),
            columns_have_rows(column_views(cols@), table.len()),
        decreases num_cols - j,
    {
        let mut refs: Vec<&Array> = Vec::new();
        let mut m: usize = 0;
        while m < row_arrs.len()
            invariant
                m <= row_arrs.len(),
                j < num_cols,
                row_arrs@.len() == table.len(),
                forall|x: int|
                    0 <= x < table.len() ==> column_views((#[trigger] row_arrs@[x])@) == table[x],
                forall|x: int| 0 <= x < table.len() ==> (#[trigger] table[x]).len() == num_cols,
                refs@.len() == m,
                forall|x: int| 0 <= x < m ==> (#[trigger] refs@[x])@ == table[x][j as int],
            decreases row_arrs.len() - m,
        {
            assert(column_views(row_arrs@[m as int]@) == table[m as int]);
            assert(column_views(row_arrs@[m as int]@)[j as int] == row_arrs@[m as int]@[j as int]@);
            refs.push(&row_arrs[m][j]);
            m += 1;
        }
        proof {
            assert(views(refs@) =~= column_of(table, j as int));
        }
        let ghost before = column_views(cols@);
        let joined = concat_arrays(refs.as_slice());
        if joined.is_err() {
            proof {
                lemma_columns_error(table, (j + 1) as nat, table_width(table));
            }
            return Err(joined.unwrap_err());
        }
        let col = joined.unwrap();
        proof {
            lemma_concat_unit_rows(column_of(table, j as int), table.len());
        }
        cols.push(col);
        proof {
            assert(column_views(cols@) =~= before.push(col@));
        }
        j += 1;
    }

    let ghost views_of_cols = column_views(cols@);
    proof {
        if views_of_cols.len() > 0 {
            assert(views_of_cols[0].rows.len() == table.len());
        }
    }
    Batch::try_new(cols)
}

/// Produce physical plans from logical plans.
#[derive(Debug)]
pub struct PhysicalPlanner {}

impl PhysicalPlanner {
    pub fn new() -> (p: Self)
        ensures
            p == (PhysicalPlanner {  }),
    {
        PhysicalPlanner {  }
    }

    /// Create a physical plan from a logical plan: a pipeline of the
    /// chains that the plan lowers to, as `lower_outcome` states, all of
    /// which push to the given sink.
    pub fn create_plan<S>(
        &self,
        plan: LogicalOperator,
        dest: S,
    ) -> (r: Result<Pipeline<S>, RayexecError>)
        ensures
            match lower_outcome(plan) {
                Ok(plans) => r matches Ok(pipeline) && chain_views(pipeline.chains@) == plans
                    && pipeline.sink == dest,
                Err(msg) => fails_with(r, msg),
            },
    {
        let mut builder = PipelineBuilder::new(dest);
        builder.walk_plan(plan)?;
        let PipelineBuilder { sink, operators, source, completed_chains } = builder;
        let mut chains = completed_chains;
        match source {
            Some(source) => {
                let ghost before = chain_views(chains@);
                let chain = OperatorChain { source, operators };
                chains.push(chain);
                proof {
                    let plans = lower_outcome(plan)->Ok_0;
                    assert(chain@.operators =~= plans.last().operators);
                    assert(chain_views(chains@) =~= before.push(chain@));
                    assert(chain_views(chains@) =~= plans);
                }
                Ok(Pipeline { chains, sink })
            },
            None => {
                proof {
                    assert(false);
                }
                Err(RayexecError::new("Expected source to be None"))
            },
        }
    }
}

/// Build up operator chains for a pipeline depth-first.
#[derive(Debug)]
pub struct PipelineBuilder<S> {
    /// The sink of the pipeline.
    pub sink: S,
    /// Intermediate operators.
    pub operators: Vec<PhysicalOperator>,
    /// Intermediate source we're working with.
    pub source: Option<PhysicalSource>,
    /// Built operator chains.
    pub completed_chains: Vec<OperatorChain>,
}

impl<S> PipelineBuilder<S> {
    /// Whether the builder went from one state to another by taking on the
    /// chains of a plan: the last chain is the one being built, whose
    /// source is set and whose operators are appended; the chains before
    /// it are completed; and nothing else changes.
    pub open spec fn extended_by(self, before: Self, chains: Seq<ChainPlan>) -> bool {
        &&& chains.len() > 0
        &&& self.source matches Some(source) && source@ == chains.last().source
        &&& operator_views(self.operators@) == operator_views(before.operators@)
            + chains.last().operators
        &&& self.sink == before.sink
        &&& chain_views(self.completed_chains@) == chain_views(before.completed_chains@)
            + chains.drop_last()
    }

    /// Create a new builder for a pipeline that outputs the final result to
    /// `dest`.
    pub fn new(dest: S) -> (b: Self)
        ensures
            b.sink == dest,
            b.operators@.len() == 0,
            b.source is None,
            b.completed_chains@.len() == 0,
    {
        PipelineBuilder {
            sink: dest,
            operators: Vec::new(),
            source: None,
            completed_chains: Vec::new(),
        }
    }

    fn take_chains(&mut self, chains: Vec<OperatorChain>)
        requires
            chains@.len() > 0,
        ensures
            final(self).extended_by(*old(self), chain_views(chains@)),
    {
        let ghost plans = chain_views(chains@);
        let ghost completed = chain_views(self.completed_chains@);
        let ghost operators_before = operator_views(self.operators@);
        let mut chains = chains;
        let last = chains.pop().unwrap();
        let OperatorChain { source, operators } = last;
        let mut operators = operators;
        let ghost added = operator_views(operators@);
        self.completed_chains.append(&mut chains);
        self.operators.append(&mut operators);
        self.source = Some(source);
        proof {
            assert(plans.last() == last@);
            assert(chain_views(self.completed_chains@) =~= completed + plans.drop_last());
            assert(operator_views(self.operators@) =~= operators_before + added);
        }
    }

    /// Walks the provided plan, creating the chains that it lowers to and
    /// adding them to the pipeline, as `walk_outcome` states. Where it
    /// fails, the builder is left as it was.
    pub fn walk_plan(&mut self, plan: LogicalOperator) -> (r: Result<(), RayexecError>)
        ensures
            match walk_outcome(plan, old(self).source is Some) {
                Ok(chains) => r is Ok && final(self).extended_by(*old(self), chains),
                Err(msg) => fails_with(r, msg) && *final(self) == *old(self),
            },
    {
        if self.source.is_some() {
            return Err(RayexecError::new("Expected source to be None"));
        }
        let chains = lower_plan(plan)?;
        self.take_chains(chains);
        Ok(())
    }

    /// Sets the empty source. Fails, leaving the builder as it was, where
    /// a source is set.
    pub fn plan_empty(&mut self) -> (r: Result<(), RayexecError>)
        ensures
            old(self).source is Some ==> fails_with(r, source_set_text()) && *final(self) == *old(
                self,
            ),
            old(self).source is None ==> r is Ok && final(self).extended_by(
                *old(self),
                source_chain(SourceView::Empty),
            ),
    {
        if self.source.is_some() {
            return Err(RayexecError::new("Expected source to be None"));
        }
        self.take_chains(single_chain(PhysicalSource::Empty(EmptySource::new())));
        Ok(())
    }

    /// Walks a projection over its input, as `walk_outcome` states. Where
    /// it fails, the builder is left as it was.
    pub fn plan_projection(&mut self, proj: Node<LogicalProject>) -> (r: Result<(), RayexecError>)
        ensures
            match walk_outcome(LogicalOperator::Project(proj), old(self).source is Some) {
                Ok(chains) => r is Ok && final(self).extended_by(*old(self), chains),
                Err(msg) => fails_with(r, msg) && *final(self) == *old(self),
            },
    {
        self.walk_plan(LogicalOperator::Project(proj))
    }

    /// Walks a filter over its input, as `walk_outcome` states. Where it
    /// fails, the builder is left as it was.
    pub fn plan_filter(&mut self, filter: Node<LogicalFilter>) -> (r: Result<(), RayexecError>)
        ensures
            match walk_outcome(LogicalOperator::Filter(filter), old(self).source is Some) {
                Ok(chains) => r is Ok && final(self).extended_by(*old(self), chains),
                Err(msg) => fails_with(r, msg) && *final(self) == *old(self),
            },
    {
        self.walk_plan(LogicalOperator::Filter(filter))
    }

    /// Sets the source of a scan, as `walk_outcome` states. Where it
    /// fails, the builder is left as it was.
    pub fn plan_scan(&mut self, scan: Node<LogicalScan>) -> (r: Result<(), RayexecError>)
        ensures
            match walk_outcome(LogicalOperator::Scan(scan), old(self).source is Some) {
                Ok(chains) => r is Ok && final(self).extended_by(*old(self), chains),
                Err(msg) => fails_with(r, msg) && *final(self) == *old(self),
            },
    {
        self.walk_plan(LogicalOperator::Scan(scan))
    }

    /// Sets a values source that holds the batch of inline rows, as
    /// `values_outcome` states. Fails, leaving the builder as it was, where
    /// a source is set or the rows have no batch.
    pub fn plan_values(&mut self, rows: Vec<Vec<Expression>>) -> (r: Result<(), RayexecError>)
        ensures
            old(self).source is Some ==> fails_with(r, source_set_text()) && *final(self) == *old(
                self,
            ),
            old(self).source is None ==> match values_outcome(rows@) {
                Ok(batch) => r is Ok && final(self).extended_by(
                    *old(self),
                    source_chain(SourceView::Values { batch, exhausted: false }),
                ),
                Err(msg) => fails_with(r, msg) && *final(self) == *old(self),
            },
    {
        if self.source.is_some() {
            return Err(RayexecError::new("Expected source to be None"));
        }
        let batch = evaluate_values(&rows)?;
        self.take_chains(single_chain(PhysicalSource::Values(PhysicalValues::new(batch))));
        Ok(())
    }
}

} // verus!
