//! Joins on comparisons between keys. Each side comes with the keys of its
//! rows, and a condition compares a key column of the left side with one of
//! the right side. Semi, anti and mark joins follow from which left rows
//! have a partner on the right; an inner join keeps the pairs of the cross
//! join that the conditions hold of; and the outer joins add the rows
//! without a partner, with NULL in the columns of the other side.

use crate::array::{rows_hold, Array, ArrayView};
use crate::batch::{column_views, columns_have_rows, Batch, BatchView};
use crate::datatype::DataType;
use crate::error::RayexecError;
use crate::expr::comparison_expr::ComparisonOperator;
use crate::logical::logical_join::JoinType;
use crate::physical::plans::batch_result_is;
use crate::physical::plans::filter::{keep_rows, kept_batch};
use crate::expr::physical::PhysicalScalarExpression;
use crate::physical::plans::nested_loop_join::{cross_join, cross_outcome};
use crate::physical::plans::projection::{projection_outcome, PhysicalProjection};
use crate::physical::plans::union::{union_all, union_outcome};
use vstd::arithmetic::div_mod::lemma_fundamental_div_mod_converse;
use crate::storage::{ArrayData, Datum};
use vstd::prelude::*;

verus! {

/// A comparison between a column of the left side and a column of the
/// right side.
#[derive(Debug, Clone, Copy, PartialEq, Eq, Structural)]
pub struct JoinColumns {
    pub left: usize,
    pub right: usize,
    pub op: ComparisonOperator,
}

/// The message of the error for a condition on a column that a side lacks,
/// or between columns that are stored differently.
pub open spec fn condition_columns_text() -> Seq<char> {
    "Join condition does not fit the columns of its inputs"@
}

/// For each row of the cross join, whether the conditions hold of the left
/// row and the right row that it pairs.
pub open spec fn pair_mask(conditions: Seq<JoinColumns>, left: BatchView, right: BatchView) -> Seq<
    bool,
> {
    Seq::new(
        left.num_rows * right.num_rows,
        |k: int|
            pair_matches(
                conditions,
                left,
                k / right.num_rows as int,
                right,
                k % right.num_rows as int,
                conditions.len() as int,
            ),
    )
}

/// What an inner join gives: the rows of the cross join whose keys the
/// conditions hold of, in the order of the cross join; or the message of
/// the error where the cross join has more rows than can be counted.
pub open spec fn inner_outcome(
    conditions: Seq<JoinColumns>,
    left: BatchView,
    left_keys: BatchView,
    right: BatchView,
    right_keys: BatchView,
) -> Result<BatchView, Seq<char>> {
    match cross_outcome(left, right) {
        Err(msg) => Err(msg),
        Ok(pairs) => Ok(kept_batch(pairs, pair_mask(conditions, left_keys, right_keys))),
    }
}

/// A column of the type of another that holds NULL in each of `n` rows.
pub open spec fn null_rows(col: ArrayView, n: nat) -> ArrayView {
    ArrayView { datatype: col.datatype, rows: Seq::new(n, |i: int| None::<Datum>) }
}

/// Rows of the left side with NULL in the columns of the right side.
pub open spec fn padded_right(rows: BatchView, right: BatchView) -> BatchView {
    BatchView {
        cols: rows.cols + right.cols.map_values(|c: ArrayView| null_rows(c, rows.num_rows)),
        num_rows: rows.num_rows,
    }
}

/// Rows of the right side with NULL in the columns of the left side.
pub open spec fn padded_left(left: BatchView, rows: BatchView) -> BatchView {
    BatchView {
        cols: left.cols.map_values(|c: ArrayView| null_rows(c, rows.num_rows)) + rows.cols,
        num_rows: rows.num_rows,
    }
}

/// For each right row, whether it has a partner on the left.
pub open spec fn right_visits(conditions: Seq<JoinColumns>, left: BatchView, right: BatchView) -> Seq<
    bool,
> {
    Seq::new(
        right.num_rows,
        |j: int| has_left_partner(conditions, left, right, j, left.num_rows as int),
    )
}

/// Whether a right row has a partner among the first `upto` left rows.
pub open spec fn has_left_partner(
    conditions: Seq<JoinColumns>,
    left: BatchView,
    right: BatchView,
    j: int,
    upto: int,
) -> bool {
    exists|i: int|
        0 <= i < upto && #[trigger] pair_matches(conditions, left, i, right, j, conditions.len() as int)
}

/// The entries of a mask, each turned around.
pub open spec fn turned(mask: Seq<bool>) -> Seq<bool> {
    mask.map_values(|v: bool| !v)
}

/// What a left join gives, or the message of the error: the rows of the
/// inner join, then the left rows without a partner, with NULL in the
/// columns of the right side.
pub open spec fn left_outer_outcome(
    conditions: Seq<JoinColumns>,
    left: BatchView,
    left_keys: BatchView,
    right: BatchView,
    right_keys: BatchView,
) -> Result<BatchView, Seq<char>> {
    match inner_outcome(conditions, left, left_keys, right, right_keys) {
        Err(msg) => Err(msg),
        Ok(inner) => union_outcome(
            inner,
            padded_right(
                kept_batch(left, turned(left_visits(conditions, left_keys, right_keys))),
                right,
            ),
        ),
    }
}

/// What a right join gives, or the message of the error: the rows of the
/// inner join, then the right rows without a partner, with NULL in the
/// columns of the left side.
pub open spec fn right_outer_outcome(
    conditions: Seq<JoinColumns>,
    left: BatchView,
    left_keys: BatchView,
    right: BatchView,
    right_keys: BatchView,
) -> Result<BatchView, Seq<char>> {
    match inner_outcome(conditions, left, left_keys, right, right_keys) {
        Err(msg) => Err(msg),
        Ok(inner) => union_outcome(
            inner,
            padded_left(
                left,
                kept_batch(right, turned(right_visits(conditions, left_keys, right_keys))),
            ),
        ),
    }
}

/// What a full join gives, or the message of the error: the rows of the
/// left join, then the right rows without a partner, with NULL in the
/// columns of the left side.
pub open spec fn full_outer_outcome(
    conditions: Seq<JoinColumns>,
    left: BatchView,
    left_keys: BatchView,
    right: BatchView,
    right_keys: BatchView,
) -> Result<BatchView, Seq<char>> {
    match left_outer_outcome(conditions, left, left_keys, right, right_keys) {
        Err(msg) => Err(msg),
        Ok(rows) => union_outcome(
            rows,
            padded_left(
                left,
                kept_batch(right, turned(right_visits(conditions, left_keys, right_keys))),
            ),
        ),
    }
}

/// Whether every condition names a column of each side, and the two
/// columns are stored the same way.
pub open spec fn conditions_fit(
    conditions: Seq<JoinColumns>,
    left: BatchView,
    right: BatchView,
) -> bool {
    forall|k: int|
        0 <= k < conditions.len() ==> (#[trigger] conditions[k]).left < left.cols.len()
            && conditions[k].right < right.cols.len() && left.cols[conditions[k].left as int].datatype.spec_physical_type()
            == right.cols[conditions[k].right as int].datatype.spec_physical_type()
}

/// Whether the first `upto` conditions hold of a left row and a right row.
/// A condition on a NULL does not hold.
pub open spec fn pair_matches(
    conditions: Seq<JoinColumns>,
    left: BatchView,
    i: int,
    right: BatchView,
    j: int,
    upto: int,
) -> bool {
    forall|k: int|
        0 <= k < upto ==> rows_hold(
            (#[trigger] conditions[k]).op,
            left.cols[conditions[k].left as int].rows[i],
            right.cols[conditions[k].right as int].rows[j],
        ) == Some(true)
}

/// Whether a left row has a partner among the first `upto` right rows.
pub open spec fn has_partner(
    conditions: Seq<JoinColumns>,
    left: BatchView,
    i: int,
    right: BatchView,
    upto: int,
) -> bool {
    exists|j: int|
        0 <= j < upto && #[trigger] pair_matches(conditions, left, i, right, j, conditions.len() as int)
}

/// For each left row, whether it has a partner on the right.
pub open spec fn left_visits(conditions: Seq<JoinColumns>, left: BatchView, right: BatchView) -> Seq<
    bool,
> {
    Seq::new(
        left.num_rows,
        |i: int| has_partner(conditions, left, i, right, right.num_rows as int),
    )
}

/// The rows of the mark column: true where the left row has a partner,
/// false where it has none.
pub open spec fn mark_rows(visits: Seq<bool>) -> Seq<Option<Datum>> {
    Seq::new(visits.len(), |i: int| Some(Datum::Boolean(visits[i])))
}

/// The message of the error for keys that are not one row per row.
pub open spec fn join_key_rows_text() -> Seq<char> {
    "Expected one row of join keys for each row"@
}

/// What a join of a left side with a right side gives, or the message of
/// the error. The rows are matched by their keys: each side comes with a
/// batch of keys, one row for each of its rows, and the conditions compare
/// a key column of the left side with a key column of the right side.
///
/// A semi join gives the left rows that have a partner, and an anti join
/// those that have none. A mark join gives every left row and one more
/// column, which says whether the row has a partner. An inner join gives
/// the pairs that the conditions hold of, a left join also the left rows
/// without a partner, a right join also the right rows without one, and a
/// full join both.
pub open spec fn keyed_join_outcome(
    join_type: JoinType,
    conditions: Seq<JoinColumns>,
    left: BatchView,
    left_keys: BatchView,
    right: BatchView,
    right_keys: BatchView,
) -> Result<BatchView, Seq<char>> {
    if left_keys.num_rows != left.num_rows || right_keys.num_rows != right.num_rows {
        Err(join_key_rows_text())
    } else if !conditions_fit(conditions, left_keys, right_keys) {
        Err(condition_columns_text())
    } else {
        let visits = left_visits(conditions, left_keys, right_keys);
        match join_type {
            JoinType::Semi => Ok(kept_batch(left, visits)),
            JoinType::Anti => Ok(kept_batch(left, turned(visits))),
            JoinType::Inner => inner_outcome(conditions, left, left_keys, right, right_keys),
            JoinType::Left => left_outer_outcome(conditions, left, left_keys, right, right_keys),
            JoinType::Right => right_outer_outcome(conditions, left, left_keys, right, right_keys),
            JoinType::Full => full_outer_outcome(conditions, left, left_keys, right, right_keys),
            _ => Ok(
                BatchView {
                    cols: left.cols.push(
                        ArrayView { datatype: DataType::Boolean, rows: mark_rows(visits) },
                    ),
                    num_rows: left.num_rows,
                },
            ),
        }
    }
}

/// What a join gives where the conditions compare the columns of the two
/// sides themselves.
pub open spec fn left_join_outcome(
    join_type: JoinType,
    conditions: Seq<JoinColumns>,
    left: BatchView,
    right: BatchView,
) -> Result<BatchView, Seq<char>> {
    keyed_join_outcome(join_type, conditions, left, left, right, right)
}

fn check_conditions(conditions: &Vec<JoinColumns>, left: &Batch, right: &Batch) -> (r: bool)
    ensures
        r == conditions_fit(conditions@, left@, right@),
{
    let mut k: usize = 0;
    while k < conditions.len()
        invariant
            k <= conditions.len(),
            conditions_fit(conditions@.take(k as int), left@, right@),
        decreases conditions.len() - k,
    {
        let condition = conditions[k];
        let fits = match (left.column(condition.left), right.column(condition.right)) {
            (Some(a), Some(b)) => a.datatype().physical_type() == b.datatype().physical_type(),
            _ => false,
        };
        if !fits {
            assert(!conditions_fit(conditions@, left@, right@));
            return false;
        }
        proof {
            assert(conditions@.take(k + 1) =~= conditions@.take(k as int).push(condition));
        }
        k += 1;
    }
    assert(conditions@.take(conditions.len() as int) =~= conditions@);
    true
}

fn rows_match(conditions: &Vec<JoinColumns>, left: &Batch, i: usize, right: &Batch, j: usize) -> (r:
    bool)
    requires
        conditions_fit(conditions@, left@, right@),
        i < left@.num_rows,
        j < right@.num_rows,
    ensures
        r == pair_matches(conditions@, left@, i as int, right@, j as int, conditions@.len() as int),
{
    let mut k: usize = 0;
    while k < conditions.len()
        invariant
            k <= conditions.len(),
            conditions_fit(conditions@, left@, right@),
            i < left@.num_rows,
            j < right@.num_rows,
            pair_matches(conditions@, left@, i as int, right@, j as int, k as int),
        decreases conditions.len() - k,
    {
        let condition = conditions[k];
        let holds = match (left.column(condition.left), right.column(condition.right)) {
            (Some(a), Some(b)) => a.compare_rows(i, b, j, condition.op),
            _ => None,
        };
        match holds {
            Some(true) => {},
            _ => {
                assert(!pair_matches(
                    conditions@,
                    left@,
                    i as int,
                    right@,
                    j as int,
                    conditions@.len() as int,
                ));
                return false;
            },
        }
        k += 1;
    }
    true
}

/// For each left row, whether it has a partner on the right, as
/// `left_visits` states. The conditions must fit the batches.
pub fn visit_left(conditions: &Vec<JoinColumns>, left: &Batch, right: &Batch) -> (visits: Vec<bool>)
    requires
        conditions_fit(conditions@, left@, right@),
    ensures
        visits@ == left_visits(conditions@, left@, right@),
{
    let mut visits: Vec<bool> = Vec::new();
    let mut i: usize = 0;
    while i < left.num_rows()
        invariant
            i <= left@.num_rows,
            conditions_fit(conditions@, left@, right@),
            visits@.len() == i,
            forall|x: int|
                0 <= x < i ==> (#[trigger] visits@[x]) == has_partner(
                    conditions@,
                    left@,
                    x,
                    right@,
                    right@.num_rows as int,
                ),
        decreases left@.num_rows - i,
    {
        let mut found = false;
        let mut j: usize = 0;
        while j < right.num_rows() && !found
            invariant
                j <= right@.num_rows,
                i < left@.num_rows,
                conditions_fit(conditions@, left@, right@),
                !found ==> !has_partner(conditions@, left@, i as int, right@, j as int),
                found ==> has_partner(conditions@, left@, i as int, right@, right@.num_rows as int),
            decreases right@.num_rows - j + (if found {
                0int
            } else {
                1int
            }),
        {
            if rows_match(conditions, left, i, right, j) {
                found = true;
            } else {
                j += 1;
            }
        }
        visits.push(found);
        i += 1;
    }
    assert(visits@ =~= left_visits(conditions@, left@, right@));
    visits
}

fn turn_mask(mask: &Vec<bool>) -> (r: Vec<bool>)
    ensures
        r@ == turned(mask@),
{
    let mut out: Vec<bool> = Vec::new();
    let mut i: usize = 0;
    while i < mask.len()
        invariant
            i <= mask.len(),
            out@ == turned(mask@.take(i as int)),
        decreases mask.len() - i,
    {
        out.push(!mask[i]);
        assert(out@ =~= turned(mask@.take(i + 1)));
        i += 1;
    }
    assert(mask@.take(mask.len() as int) =~= mask@);
    out
}

/// For each right row, whether it has a partner on the left, as
/// `right_visits` states. The conditions must fit the batches.
pub fn visit_right(conditions: &Vec<JoinColumns>, left: &Batch, right: &Batch) -> (visits: Vec<
    bool,
>)
    requires
        conditions_fit(conditions@, left@, right@),
    ensures
        visits@ == right_visits(conditions@, left@, right@),
{
    let mut visits: Vec<bool> = Vec::new();
    let mut j: usize = 0;
    while j < right.num_rows()
        invariant
            j <= right@.num_rows,
            conditions_fit(conditions@, left@, right@),
            visits@.len() == j,
            forall|x: int|
                0 <= x < j ==> (#[trigger] visits@[x]) == has_left_partner(
                    conditions@,
                    left@,
                    right@,
                    x,
                    left@.num_rows as int,
                ),
        decreases right@.num_rows - j,
    {
        let mut found = false;
        let mut i: usize = 0;
        while i < left.num_rows() && !found
            invariant
                i <= left@.num_rows,
                j < right@.num_rows,
                conditions_fit(conditions@, left@, right@),
                found ==> has_left_partner(
                    conditions@,
                    left@,
                    right@,
                    j as int,
                    left@.num_rows as int,
                ),
                !found ==> !has_left_partner(conditions@, left@, right@, j as int, i as int),
            decreases left@.num_rows - i + (if found {
                0int
            } else {
                1int
            }),
        {
            if rows_match(conditions, left, i, right, j) {
                found = true;
            } else {
                i += 1;
            }
        }
        visits.push(found);
        j += 1;
    }
    assert(visits@ =~= right_visits(conditions@, left@, right@));
    visits
}

fn match_pairs(conditions: &Vec<JoinColumns>, left: &Batch, right: &Batch) -> (mask: Vec<bool>)
    requires
        conditions_fit(conditions@, left@, right@),
        left@.num_rows * right@.num_rows <= usize::MAX,
    ensures
        mask@ == pair_mask(conditions@, left@, right@),
{
    let left_rows = left.num_rows();
    let right_rows = right.num_rows();
    let ghost target = pair_mask(conditions@, left@, right@);
    let mut mask: Vec<bool> = Vec::new();
    let mut i: usize = 0;
    while i < left_rows
        invariant
            i <= left_rows,
            left_rows == left@.num_rows,
            right_rows == right@.num_rows,
            conditions_fit(conditions@, left@, right@),
            target == pair_mask(conditions@, left@, right@),
            mask@.len() == i * right_rows,
            forall|k: int| 0 <= k < mask@.len() ==> (#[trigger] mask@[k]) == target[k],
        decreases left_rows - i,
    {
        let mut j: usize = 0;
        while j < right_rows
            invariant
                j <= right_rows,
                i < left_rows,
                left_rows == left@.num_rows,
                right_rows == right@.num_rows,
                conditions_fit(conditions@, left@, right@),
                target == pair_mask(conditions@, left@, right@),
                mask@.len() == i * right_rows + j,
                forall|k: int| 0 <= k < mask@.len() ==> (#[trigger] mask@[k]) == target[k],
            decreases right_rows - j,
        {
            proof {
                let k = i * right_rows + j;
                lemma_fundamental_div_mod_converse(k as int, right_rows as int, i as int, j as int);
                assert(i * right_rows + j < left_rows * right_rows) by (nonlinear_arith)
                    requires
                        i < left_rows,
                        j < right_rows,
                ;
            }
            mask.push(rows_match(conditions, left, i, right, j));
            j += 1;
        }
        proof {
            assert(i * right_rows + right_rows == (i + 1) * right_rows) by (nonlinear_arith);
        }
        i += 1;
    }
    assert(mask@ =~= target);
    mask
}

fn inner_join(
    conditions: &Vec<JoinColumns>,
    left: &Batch,
    left_keys: &Batch,
    right: &Batch,
    right_keys: &Batch,
) -> (r: Result<Batch, RayexecError>)
    requires
        conditions_fit(conditions@, left_keys@, right_keys@),
        left_keys@.num_rows == left@.num_rows,
        right_keys@.num_rows == right@.num_rows,
    ensures
        batch_result_is(r, inner_outcome(conditions@, left@, left_keys@, right@, right_keys@)),
{
    let pairs = cross_join(left, right)?;
    let mask = match_pairs(conditions, left_keys, right_keys);
    keep_rows(&pairs, &mask)
}

fn null_columns(like: &Batch, n: usize) -> (cols: Vec<Array>)
    ensures
        column_views(cols@) == like@.cols.map_values(|c: ArrayView| null_rows(c, n as nat)),
{
    let columns = like.columns();
    let ghost target = like@.cols.map_values(|c: ArrayView| null_rows(c, n as nat));
    let mut cols: Vec<Array> = Vec::new();
    let mut c: usize = 0;
    while c < columns.len()
        invariant
            c <= columns.len(),
            column_views(columns@) == like@.cols,
            target == like@.cols.map_values(|c: ArrayView| null_rows(c, n as nat)),
            cols@.len() == c,
            forall|k: int| 0 <= k < c ==> (#[trigger] cols@[k])@ == target[k],
        decreases columns.len() - c,
    {
        assert(column_views(columns@)[c as int] == columns@[c as int]@);
        cols.push(columns[c].nulls_like(n));
        c += 1;
    }
    assert(column_views(cols@) =~= target);
    cols
}

fn copy_columns(batch: &Batch, cols: &mut Vec<Array>)
    ensures
        column_views(final(cols)@) == column_views(old(cols)@) + batch@.cols,
        columns_have_rows(batch@.cols, batch@.num_rows),
{
    let columns = batch.columns();
    let ghost before = column_views(cols@);
    let mut c: usize = 0;
    while c < columns.len()
        invariant
            c <= columns.len(),
            column_views(columns@) == batch@.cols,
            column_views(cols@) == before + batch@.cols.take(c as int),
        decreases columns.len() - c,
    {
        let ghost so_far = column_views(cols@);
        assert(column_views(columns@)[c as int] == columns@[c as int]@);
        let col = columns[c].clone();
        cols.push(col);
        proof {
            assert(column_views(cols@) =~= so_far.push(col@));
            assert(before + batch@.cols.take(c + 1) =~= so_far.push(col@));
        }
        c += 1;
    }
    proof {
        assert(batch@.cols.take(columns.len() as int) =~= batch@.cols);
    }
}

fn pad_right(rows: &Batch, right: &Batch) -> (r: Batch)
    ensures
        r@ == padded_right(rows@, right@),
{
    let mut cols: Vec<Array> = Vec::new();
    assert(column_views(cols@) =~= Seq::<ArrayView>::empty());
    copy_columns(rows, &mut cols);
    let ghost own = column_views(cols@);
    assert(own =~= rows@.cols);
    let mut nulls = null_columns(right, rows.num_rows());
    let ghost padding = column_views(nulls@);
    cols.append(&mut nulls);
    proof {
        assert(column_views(cols@) =~= own + padding);
        assert(columns_have_rows(column_views(cols@), rows@.num_rows));
    }
    match Batch::try_with_num_rows(cols, rows.num_rows()) {
        Ok(out) => out,
        Err(_) => {
            proof {
                assert(false);
            }
            Batch::empty_with_num_rows(0)
        },
    }
}

fn pad_left(left: &Batch, rows: &Batch) -> (r: Batch)
    ensures
        r@ == padded_left(left@, rows@),
{
    let mut cols = null_columns(left, rows.num_rows());
    copy_columns(rows, &mut cols);
    proof {
        assert(columns_have_rows(column_views(cols@), rows@.num_rows));
    }
    match Batch::try_with_num_rows(cols, rows.num_rows()) {
        Ok(out) => out,
        Err(_) => {
            proof {
                assert(false);
            }
            Batch::empty_with_num_rows(0)
        },
    }
}

fn left_outer_join(
    conditions: &Vec<JoinColumns>,
    left: &Batch,
    left_keys: &Batch,
    right: &Batch,
    right_keys: &Batch,
) -> (r: Result<Batch, RayexecError>)
    requires
        conditions_fit(conditions@, left_keys@, right_keys@),
        left_keys@.num_rows == left@.num_rows,
        right_keys@.num_rows == right@.num_rows,
    ensures
        batch_result_is(
            r,
            left_outer_outcome(conditions@, left@, left_keys@, right@, right_keys@),
        ),
{
    let inner = inner_join(conditions, left, left_keys, right, right_keys)?;
    let alone = turn_mask(&visit_left(conditions, left_keys, right_keys));
    let rows = keep_rows(left, &alone)?;
    union_all(&inner, &pad_right(&rows, right))
}

fn mark_join(left: &Batch, visits: Vec<bool>) -> (r: Result<Batch, RayexecError>)
    requires
        visits@.len() == left@.num_rows,
    ensures
        r matches Ok(out) && out@ == (BatchView {
            cols: left@.cols.push(
                ArrayView { datatype: DataType::Boolean, rows: mark_rows(visits@) },
            ),
            num_rows: left@.num_rows,
        }),
{
    let mut cols: Vec<Array> = Vec::new();
    assert(column_views(cols@) =~= Seq::<ArrayView>::empty());
    copy_columns(left, &mut cols);
    let ghost before = column_views(cols@);
    assert(before =~= left@.cols);
    let ghost marks = visits@;
    let mark = Array::from_data(ArrayData::Boolean(visits));
    proof {
        assert(mark@.rows =~= mark_rows(marks));
    }
    cols.push(mark);
    proof {
        assert(column_views(cols@) =~= before.push(mark@));
        assert(columns_have_rows(column_views(cols@), left@.num_rows));
    }
    Batch::try_with_num_rows(cols, left.num_rows())
}

/// Joins a left batch with a right batch by their keys, as
/// `keyed_join_outcome` states.
pub fn join_keyed_rows(
    join_type: JoinType,
    conditions: &Vec<JoinColumns>,
    left: &Batch,
    left_keys: &Batch,
    right: &Batch,
    right_keys: &Batch,
) -> (r: Result<Batch, RayexecError>)
    ensures
        batch_result_is(
            r,
            keyed_join_outcome(
                join_type,
                conditions@,
                left@,
                left_keys@,
                right@,
                right_keys@,
            ),
        ),
{
    if left_keys.num_rows() != left.num_rows() || right_keys.num_rows() != right.num_rows() {
        return Err(RayexecError::new("Expected one row of join keys for each row"));
    }
    if !check_conditions(conditions, left_keys, right_keys) {
        return Err(RayexecError::new("Join condition does not fit the columns of its inputs"));
    }
    match join_type {
        JoinType::Semi => keep_rows(left, &visit_left(conditions, left_keys, right_keys)),
        JoinType::Anti => keep_rows(
            left,
            &turn_mask(&visit_left(conditions, left_keys, right_keys)),
        ),
        JoinType::Inner => inner_join(conditions, left, left_keys, right, right_keys),
        JoinType::Left => left_outer_join(conditions, left, left_keys, right, right_keys),
        JoinType::Right => {
            let rows = inner_join(conditions, left, left_keys, right, right_keys)?;
            let alone = turn_mask(&visit_right(conditions, left_keys, right_keys));
            let unmatched = keep_rows(right, &alone)?;
            union_all(&rows, &pad_left(left, &unmatched))
        },
        JoinType::Full => {
            let rows = left_outer_join(conditions, left, left_keys, right, right_keys)?;
            let alone = turn_mask(&visit_right(conditions, left_keys, right_keys));
            let unmatched = keep_rows(right, &alone)?;
            union_all(&rows, &pad_left(left, &unmatched))
        },
        _ => mark_join(left, visit_left(conditions, left_keys, right_keys)),
    }
}

/// Joins a left batch with a right batch on comparisons between their
/// columns, as `left_join_outcome` states.
pub fn join_left_rows(
    join_type: JoinType,
    conditions: &Vec<JoinColumns>,
    left: &Batch,
    right: &Batch,
) -> (r: Result<Batch, RayexecError>)
    ensures
        batch_result_is(r, left_join_outcome(join_type, conditions@, left@, right@)),
{
    join_keyed_rows(join_type, conditions, left, left, right, right)
}

/// The probe operator of a comparison join: the right side is buffered
/// with its keys, and every batch of the left side is joined with it by
/// the keys that the operator evaluates against the batch. (A right or a
/// full join gives the right rows without a partner, which are known only
/// when every left row was seen: the batch must be the whole left side.)
#[derive(Debug)]
pub struct PhysicalComparisonJoin {
    pub join_type: JoinType,
    /// The keys of the left side.
    pub left_keys: PhysicalProjection,
    /// Each compares a key of the left side with a key of the right side.
    pub conditions: Vec<JoinColumns>,
    /// The rows of the right side.
    pub buffered: Batch,
    /// The keys of the rows of the right side.
    pub buffered_keys: Batch,
}

/// What the probe operator gives for a batch of the left side, or the
/// message of the error: the keys are evaluated first.
pub open spec fn probe_outcome(
    join_type: JoinType,
    left_keys: Seq<PhysicalScalarExpression>,
    conditions: Seq<JoinColumns>,
    buffered: BatchView,
    buffered_keys: BatchView,
    batch: BatchView,
) -> Result<BatchView, Seq<char>> {
    match projection_outcome(left_keys, batch) {
        Err(msg) => Err(msg),
        Ok(keys) => keyed_join_outcome(join_type, conditions, batch, keys, buffered, buffered_keys),
    }
}

impl PhysicalComparisonJoin {
    /// Joins a batch of the left side with the buffered right side, as
    /// `probe_outcome` states.
    pub fn execute(&self, batch: &Batch) -> (r: Result<Batch, RayexecError>)
        ensures
            batch_result_is(
                r,
                probe_outcome(
                    self.join_type,
                    self.left_keys.exprs@,
                    self.conditions@,
                    self.buffered@,
                    self.buffered_keys@,
                    batch@,
                ),
            ),
    {
        let keys = self.left_keys.execute(batch)?;
        join_keyed_rows(
            self.join_type,
            &self.conditions,
            batch,
            &keys,
            &self.buffered,
            &self.buffered_keys,
        )
    }
}

} // verus!
