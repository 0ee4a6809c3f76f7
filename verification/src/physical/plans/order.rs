//! Ordering of the rows of a batch by key columns. The order is stable:
//! rows with the same keys stay in the order they came in.

use crate::array::{gather, picked_rows, rows_hold, views, Array, ArrayView, RowPick};
use crate::batch::{column_views, columns_have_rows, Batch, BatchView};
use crate::datatype::PhysicalType;
use crate::error::RayexecError;
use crate::expr::comparison_expr::ComparisonOperator;
use crate::physical::plans::batch_result_is;
use crate::storage::Datum;
use vstd::prelude::*;

verus! {

/// How a key orders rows.
#[derive(Debug, Clone, Copy, PartialEq, Eq, Structural)]
pub struct KeyOrder {
    /// Whether greater values come first.
    pub desc: bool,
    /// Whether NULL comes before every value, rather than after.
    pub nulls_first: bool,
}

/// The message of the error for keys that are not one column per order.
pub open spec fn key_count_text() -> Seq<char> {
    "Expected one key column for each ordering"@
}

/// The message of the error for keys that are not one row per row.
pub open spec fn key_rows_text() -> Seq<char> {
    "Expected one row of keys for each row"@
}

/// The message of the error for a key whose values have no order here.
pub open spec fn order_key_text() -> Seq<char> {
    "Not yet implemented: ordering by a key that is neither an integer nor a boolean"@
}

/// Whether values stored this way have an order here: integers, booleans
/// (false before true), and the type of NULL alone.
pub open spec fn is_ordered_type(t: PhysicalType) -> bool {
    t.is_integer() || t == PhysicalType::Boolean || t == PhysicalType::UntypedNull
}

/// Whether every key column has an order.
pub open spec fn orderable(keys: BatchView) -> bool {
    forall|c: int|
        0 <= c < keys.cols.len() ==> is_ordered_type(
            (#[trigger] keys.cols[c]).datatype.spec_physical_type(),
        )
}

/// How a value of a key stands to another: negative where it comes before,
/// positive where it comes after, zero where neither. NULL stands to NULL
/// as neither, and before or after every value as the key says. Values
/// stand in ascending order, turned around for a descending key.
pub open spec fn value_order(a: Option<Datum>, b: Option<Datum>, key: KeyOrder) -> int {
    match (a, b) {
        (None, None) => 0,
        (None, Some(_)) => if key.nulls_first {
            -1
        } else {
            1
        },
        (Some(_), None) => if key.nulls_first {
            1
        } else {
            -1
        },
        (Some(_), Some(_)) => {
            let ascending: int = if rows_hold(ComparisonOperator::Lt, a, b) == Some(true) {
                -1
            } else if rows_hold(ComparisonOperator::Gt, a, b) == Some(true) {
                1
            } else {
                0
            };
            if key.desc {
                -ascending
            } else {
                ascending
            }
        },
    }
}

/// How a row stands to another by the keys from `from` on: as the first
/// key by which they differ says, and as neither where no key does.
pub open spec fn row_order(keys: BatchView, orders: Seq<KeyOrder>, i: int, j: int, from: nat) -> int
    decreases keys.cols.len() - from,
{
    if from >= keys.cols.len() || from >= orders.len() {
        0
    } else {
        let first = value_order(
            keys.cols[from as int].rows[i],
            keys.cols[from as int].rows[j],
            orders[from as int],
        );
        if first != 0 {
            first
        } else {
            row_order(keys, orders, i, j, from + 1)
        }
    }
}

/// Where a row goes into rows in order: behind the last of the first `len`
/// that does not come after it.
pub open spec fn insert_position(
    keys: BatchView,
    orders: Seq<KeyOrder>,
    order: Seq<usize>,
    row: int,
    len: nat,
) -> nat
    decreases len,
{
    if len == 0 || len > order.len() {
        0
    } else if row_order(keys, orders, order[len - 1] as int, row, 0) > 0 {
        insert_position(keys, orders, order, row, (len - 1) as nat)
    } else {
        len
    }
}

/// The first `upto` rows in the order of the keys: each row goes in turn
/// into the rows before it, behind those that do not come after it.
pub open spec fn sorted_rows(keys: BatchView, orders: Seq<KeyOrder>, upto: nat) -> Seq<usize>
    decreases upto,
{
    if upto == 0 {
        Seq::empty()
    } else {
        let before = sorted_rows(keys, orders, (upto - 1) as nat);
        before.insert(
            insert_position(keys, orders, before, upto - 1, before.len()) as int,
            (upto - 1) as usize,
        )
    }
}

/// A column with the rows that a list names, in the order of the list.
pub open spec fn picked_column(col: ArrayView, rows: Seq<usize>) -> ArrayView {
    ArrayView {
        datatype: col.datatype,
        rows: Seq::new(rows.len(), |k: int| col.rows[rows[k] as int]),
    }
}

/// A batch with the rows that a list names, in the order of the list.
pub open spec fn picked_batch(batch: BatchView, rows: Seq<usize>) -> BatchView {
    BatchView {
        cols: batch.cols.map_values(|c: ArrayView| picked_column(c, rows)),
        num_rows: rows.len(),
    }
}

/// What ordering a batch by keys gives, or the message of the error. The
/// keys hold one column for each ordering and one row for each row of the
/// batch, and every key column must have an order. The rows of the batch
/// come out in the order of their keys, as `sorted_rows` states.
pub open spec fn order_outcome(batch: BatchView, keys: BatchView, orders: Seq<KeyOrder>) -> Result<
    BatchView,
    Seq<char>,
> {
    if keys.cols.len() != orders.len() {
        Err(key_count_text())
    } else if keys.num_rows != batch.num_rows {
        Err(key_rows_text())
    } else if !orderable(keys) {
        Err(order_key_text())
    } else {
        Ok(picked_batch(batch, sorted_rows(keys, orders, keys.num_rows)))
    }
}

fn order_values(col: &Array, i: usize, j: usize, key: KeyOrder) -> (r: i8)
    requires
        i < col@.rows.len(),
        j < col@.rows.len(),
    ensures
        r == value_order(col@.rows[i as int], col@.rows[j as int], key),
{
    let i_valid = col.is_valid(i);
    let j_valid = col.is_valid(j);
    if !i_valid && !j_valid {
        return 0;
    }
    if !i_valid {
        return if key.nulls_first {
            -1
        } else {
            1
        };
    }
    if !j_valid {
        return if key.nulls_first {
            1
        } else {
            -1
        };
    }
    let before = match col.compare_rows(i, col, j, ComparisonOperator::Lt) {
        Some(true) => true,
        _ => false,
    };
    let after = match col.compare_rows(i, col, j, ComparisonOperator::Gt) {
        Some(true) => true,
        _ => false,
    };
    if before {
        if key.desc {
            1
        } else {
            -1
        }
    } else if after {
        if key.desc {
            -1
        } else {
            1
        }
    } else {
        0
    }
}

fn order_rows(keys: &Batch, orders: &Vec<KeyOrder>, i: usize, j: usize) -> (r: i8)
    requires
        i < keys@.num_rows,
        j < keys@.num_rows,
    ensures
        r == row_order(keys@, orders@, i as int, j as int, 0),
{
    let columns = keys.columns();
    let mut c: usize = 0;
    while c < columns.len() && c < orders.len()
        invariant
            column_views(columns@) == keys@.cols,
            columns_have_rows(keys@.cols, keys@.num_rows),
            i < keys@.num_rows,
            j < keys@.num_rows,
            row_order(keys@, orders@, i as int, j as int, 0) == row_order(
                keys@,
                orders@,
                i as int,
                j as int,
                c as nat,
            ),
        decreases columns.len() - c,
    {
        assert(column_views(columns@)[c as int] == columns@[c as int]@);
        let first = order_values(&columns[c], i, j, orders[c]);
        if first != 0 {
            return first;
        }
        c += 1;
    }
    0
}

fn sort_rows(keys: &Batch, orders: &Vec<KeyOrder>) -> (rows: Vec<usize>)
    ensures
        rows@ == sorted_rows(keys@, orders@, keys@.num_rows),
        forall|k: int| 0 <= k < rows@.len() ==> (#[trigger] rows@[k]) < keys@.num_rows,
{
    let n = keys.num_rows();
    let mut rows: Vec<usize> = Vec::new();
    let mut i: usize = 0;
    while i < n
        invariant
            i <= n,
            n == keys@.num_rows,
            rows@ == sorted_rows(keys@, orders@, i as nat),
            forall|k: int| 0 <= k < rows@.len() ==> (#[trigger] rows@[k]) < i,
        decreases n - i,
    {
        let mut p: usize = rows.len();
        let mut found = false;
        while p > 0 && !found
            invariant
                p <= rows@.len(),
                i < n,
                n == keys@.num_rows,
                forall|k: int| 0 <= k < rows@.len() ==> (#[trigger] rows@[k]) < i,
                insert_position(keys@, orders@, rows@, i as int, rows@.len()) == insert_position(
                    keys@,
                    orders@,
                    rows@,
                    i as int,
                    p as nat,
                ),
                found ==> insert_position(keys@, orders@, rows@, i as int, p as nat) == p,
            decreases p + (if found {
                0int
            } else {
                1int
            }),
        {
            if order_rows(keys, orders, rows[p - 1], i) > 0 {
                p -= 1;
            } else {
                found = true;
            }
        }
        let ghost before = rows@;
        rows.insert(p, i);
        proof {
            assert forall|k: int| 0 <= k < rows@.len() implies (#[trigger] rows@[k]) < i + 1 by {
                if k < p {
                    assert(rows@[k] == before[k]);
                } else if k > p {
                    assert(rows@[k] == before[k - 1]);
                }
            }
        }
        i += 1;
    }
    rows
}

fn pick_rows(batch: &Batch, rows: &Vec<usize>) -> (r: Batch)
    requires
        forall|k: int| 0 <= k < rows@.len() ==> (#[trigger] rows@[k]) < batch@.num_rows,
    ensures
        r@ == picked_batch(batch@, rows@),
{
    let mut picks: Vec<RowPick> = Vec::new();
    let mut k: usize = 0;
    while k < rows.len()
        invariant
            k <= rows.len(),
            picks@.len() == k,
            forall|x: int|
                0 <= x < k ==> (#[trigger] picks@[x]) == (RowPick { source: 0, row: rows@[x] }),
        decreases rows.len() - k,
    {
        picks.push(RowPick { source: 0, row: rows[k] });
        k += 1;
    }
    let columns = batch.columns();
    let ghost target = picked_batch(batch@, rows@).cols;
    let mut cols: Vec<Array> = Vec::new();
    let mut c: usize = 0;
    while c < columns.len()
        invariant
            c <= columns.len(),
            column_views(columns@) == batch@.cols,
            columns_have_rows(batch@.cols, batch@.num_rows),
            target == picked_batch(batch@, rows@).cols,
            picks@.len() == rows@.len(),
            forall|x: int|
                0 <= x < picks@.len() ==> (#[trigger] picks@[x]) == (RowPick {
                    source: 0,
                    row: rows@[x],
                }),
            forall|x: int| 0 <= x < rows@.len() ==> (#[trigger] rows@[x]) < batch@.num_rows,
            cols@.len() == c,
            forall|x: int| 0 <= x < c ==> (#[trigger] cols@[x])@ == target[x],
        decreases columns.len() - c,
    {
        let sources = [&columns[c]];
        proof {
            assert(column_views(columns@)[c as int] == columns@[c as int]@);
            assert(views(sources@) =~= seq![columns@[c as int]@]);
            assert(picked_rows(views(sources@), picks@) =~= picked_column(
                columns@[c as int]@,
                rows@,
            ).rows);
        }
        let col = match gather(sources.as_slice(), &picks) {
            Ok(col) => col,
            Err(_) => {
                proof {
                    assert(false);
                }
                columns[c].clone()
            },
        };
        cols.push(col);
        c += 1;
    }
    proof {
        assert(column_views(cols@) =~= target);
    }
    match Batch::try_with_num_rows(cols, rows.len()) {
        Ok(out) => out,
        Err(_) => {
            proof {
                assert(false);
            }
            Batch::empty_with_num_rows(0)
        },
    }
}

fn keys_have_order(keys: &Batch) -> (r: bool)
    ensures
        r == orderable(keys@),
{
    let columns = keys.columns();
    let mut c: usize = 0;
    while c < columns.len()
        invariant
            c <= columns.len(),
            column_views(columns@) == keys@.cols,
            forall|x: int|
                0 <= x < c ==> is_ordered_type(
                    (#[trigger] keys@.cols[x]).datatype.spec_physical_type(),
                ),
        decreases columns.len() - c,
    {
        assert(column_views(columns@)[c as int] == columns@[c as int]@);
        let stored = columns[c].datatype().physical_type();
        let ordered = stored.is_integer_storage() || stored == PhysicalType::Boolean || stored
            == PhysicalType::UntypedNull;
        if !ordered {
            return false;
        }
        c += 1;
    }
    true
}

/// Orders the rows of a batch by keys, as `order_outcome` states.
pub fn order_batch(batch: &Batch, keys: &Batch, orders: &Vec<KeyOrder>) -> (r: Result<
    Batch,
    RayexecError,
>)
    ensures
        batch_result_is(r, order_outcome(batch@, keys@, orders@)),
{
    if keys.num_columns() != orders.len() {
        return Err(RayexecError::new("Expected one key column for each ordering"));
    }
    if keys.num_rows() != batch.num_rows() {
        return Err(RayexecError::new("Expected one row of keys for each row"));
    }
    if !keys_have_order(keys) {
        return Err(
            RayexecError::new(
                "Not yet implemented: ordering by a key that is neither an integer nor a boolean",
            ),
        );
    }
    let rows = sort_rows(keys, orders);
    Ok(pick_rows(batch, &rows))
}

/// How a value stands to another turns around with the two.
pub proof fn lemma_value_order_turns(a: Option<Datum>, b: Option<Datum>, key: KeyOrder)
    ensures
        value_order(b, a, key) == -value_order(a, b, key),
{
}

/// How a row stands to another turns around with the two.
pub proof fn lemma_row_order_turns(
    keys: BatchView,
    orders: Seq<KeyOrder>,
    i: int,
    j: int,
    from: nat,
)
    ensures
        row_order(keys, orders, j, i, from) == -row_order(keys, orders, i, j, from),
    decreases keys.cols.len() - from,
{
    if from < keys.cols.len() && from < orders.len() {
        lemma_value_order_turns(
            keys.cols[from as int].rows[i],
            keys.cols[from as int].rows[j],
            orders[from as int],
        );
        lemma_row_order_turns(keys, orders, i, j, from + 1);
    }
}

/// Where a row goes into rows in order, every row behind it comes after
/// it, and the row before it does not.
pub proof fn lemma_insert_position(
    keys: BatchView,
    orders: Seq<KeyOrder>,
    order: Seq<usize>,
    row: int,
    len: nat,
)
    requires
        len <= order.len(),
    ensures
        insert_position(keys, orders, order, row, len) <= len,
        forall|k: int|
            insert_position(keys, orders, order, row, len) <= k < len ==> row_order(
                keys,
                orders,
                #[trigger] order[k] as int,
                row,
                0,
            ) > 0,
        insert_position(keys, orders, order, row, len) > 0 ==> row_order(
            keys,
            orders,
            order[insert_position(keys, orders, order, row, len) - 1] as int,
            row,
            0,
        ) <= 0,
    decreases len,
{
    if len > 0 && row_order(keys, orders, order[len - 1] as int, row, 0) > 0 {
        lemma_insert_position(keys, orders, order, row, (len - 1) as nat);
    }
}

/// Whether a row stands before another in the order of the keys: it comes
/// before it by the keys, or neither comes before the other and it came in
/// first.
pub open spec fn stands_before(keys: BatchView, orders: Seq<KeyOrder>, a: int, b: int) -> bool {
    row_order(keys, orders, a, b, 0) < 0 || (row_order(keys, orders, a, b, 0) == 0 && a < b)
}

/// Whether a list of rows names a row.
pub open spec fn names_row(rows: Seq<usize>, row: int) -> bool {
    exists|k: int| 0 <= k < rows.len() && #[trigger] rows[k] == row
}

/// The rows in the order of the keys are as many as the rows, name each
/// row, and each stands before the next.
pub proof fn lemma_sorted_rows(keys: BatchView, orders: Seq<KeyOrder>, upto: nat)
    requires
        upto <= usize::MAX,
    ensures
        sorted_rows(keys, orders, upto).len() == upto,
        forall|k: int| 0 <= k < upto ==> (#[trigger] sorted_rows(keys, orders, upto)[k]) < upto,
        forall|row: int|
            0 <= row < upto ==> #[trigger] names_row(sorted_rows(keys, orders, upto), row),
        forall|k: int|
            0 <= k < upto - 1 ==> stands_before(
                keys,
                orders,
                #[trigger] sorted_rows(keys, orders, upto)[k] as int,
                sorted_rows(keys, orders, upto)[k + 1] as int,
            ),
    decreases upto,
{
    if upto > 0 {
        let row = upto - 1;
        let before = sorted_rows(keys, orders, row as nat);
        lemma_sorted_rows(keys, orders, row as nat);
        lemma_insert_position(keys, orders, before, row, before.len());
        let p = insert_position(keys, orders, before, row, before.len()) as int;
        let now = sorted_rows(keys, orders, upto);
        assert(now == before.insert(p, row as usize));
        assert forall|k: int| 0 <= k < upto implies (#[trigger] now[k]) < upto by {
            if k < p {
                assert(now[k] == before[k]);
            } else if k > p {
                assert(now[k] == before[k - 1]);
            }
        }
        assert forall|r: int| 0 <= r < upto implies #[trigger] names_row(now, r) by {
            if r == row {
                assert(now[p] == r);
            } else {
                assert(names_row(before, r));
                let k0 = choose|k: int| 0 <= k < before.len() && #[trigger] before[k] == r;
                if k0 < p {
                    assert(now[k0] == r);
                } else {
                    assert(now[k0 + 1] == before[k0]);
                }
            }
        }
        assert forall|k: int| 0 <= k < upto - 1 implies stands_before(
            keys,
            orders,
            #[trigger] now[k] as int,
            now[k + 1] as int,
        ) by {
            if k + 1 < p {
                assert(now[k] == before[k] && now[k + 1] == before[k + 1]);
            } else if k + 1 == p {
                assert(now[k] == before[k] && now[k + 1] == row);
                assert(before[p - 1] < row);
            } else if k == p {
                assert(now[k] == row && now[k + 1] == before[k]);
                lemma_row_order_turns(keys, orders, before[p] as int, row, 0);
            } else {
                assert(now[k] == before[k - 1] && now[k + 1] == before[k]);
            }
        }
    }
}

} // verus!
