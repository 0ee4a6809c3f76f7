//! Expansion of a batch of group columns over grouping sets. Each
//! grouping set gives one partition: the group columns outside the set
//! hold NULL, and a last column tags every row with the id of the set.

use crate::array::{Array, ArrayView};
use crate::batch::{column_views, columns_have_rows, Batch, BatchView};
use crate::datatype::DataType;
use crate::error::{fails_with, RayexecError};
use crate::physical::plans::batch_result_is;
use crate::physical::plans::filter::{keep_rows, kept_batch};
use crate::physical::plans::union::{union_all, union_outcome};
use crate::scalar::ScalarValue;
use crate::storage::Datum;
use std::collections::BTreeSet;
use vstd::prelude::*;
use vstd::std_specs::btree::group_btree_axioms;

verus! {

/// The id of a grouping set over the first `num_groups` group columns: the
/// number whose binary digits, from the first column to the last, are one
/// where the column is outside the set and NULL in the partition, and zero
/// where the column is grouped on.
pub open spec fn grouping_id(set: Set<usize>, num_groups: nat) -> nat
    decreases num_groups,
{
    if num_groups == 0 {
        0
    } else {
        2 * grouping_id(set, (num_groups - 1) as nat) + (if set.contains(
            (num_groups - 1) as usize,
        ) {
            0nat
        } else {
            1nat
        })
    }
}

/// Grouping sets that differ in a group column have different ids.
pub proof fn lemma_distinct_ids(a: Set<usize>, b: Set<usize>, num_groups: nat)
    requires
        num_groups <= usize::MAX,
        exists|g: usize| g < num_groups && a.contains(g) != b.contains(g),
    ensures
        grouping_id(a, num_groups) != grouping_id(b, num_groups),
    decreases num_groups,
{
    let g = choose|g: usize| g < num_groups && a.contains(g) != b.contains(g);
    if num_groups > 0 {
        let last = (num_groups - 1) as usize;
        if a.contains(last) == b.contains(last) {
            assert(g < num_groups - 1);
            lemma_distinct_ids(a, b, (num_groups - 1) as nat);
        }
    }
}

/// The id of a set only grows with the number of group columns.
proof fn lemma_id_grows(set: Set<usize>, fewer: nat, more: nat)
    requires
        fewer <= more,
    ensures
        grouping_id(set, fewer) <= grouping_id(set, more),
    decreases more,
{
    if fewer < more {
        lemma_id_grows(set, fewer, (more - 1) as nat);
    }
}

/// The message of the error for a grouping set whose id cannot be held.
pub open spec fn too_many_groups_text() -> Seq<char> {
    "Too many group columns for a grouping set id"@
}

/// A column that holds NULL in every row.
pub open spec fn null_column(col: ArrayView) -> ArrayView {
    ArrayView { datatype: col.datatype, rows: Seq::new(col.rows.len(), |i: int| None::<Datum>) }
}

/// The partition of a grouping set: the group columns, with NULL in every
/// row of the columns outside the set, and a last column that holds the id
/// of the set in every row.
pub open spec fn partition(groups: BatchView, set: Set<usize>) -> BatchView {
    BatchView {
        cols: Seq::new(
            groups.cols.len(),
            |g: int|
                if set.contains(g as usize) {
                    groups.cols[g]
                } else {
                    null_column(groups.cols[g])
                },
        ).push(
            ArrayView {
                datatype: DataType::UInt64,
                rows: Seq::new(
                    groups.num_rows,
                    |i: int| Some(Datum::Int(grouping_id(set, groups.cols.len()) as int)),
                ),
            },
        ),
        num_rows: groups.num_rows,
    }
}

/// The views of a list of grouping sets.
pub open spec fn set_views(sets: Seq<BTreeSet<usize>>) -> Seq<Set<usize>> {
    sets.map_values(|s: BTreeSet<usize>| s@)
}

/// Whether the id of each of the first `upto` grouping sets can be held in
/// 64 bits.
pub open spec fn ids_fit(groups: BatchView, sets: Seq<Set<usize>>, upto: int) -> bool {
    forall|k: int| 0 <= k < upto ==> grouping_id(#[trigger] sets[k], groups.cols.len()) <= u64::MAX
}

fn compute_grouping_id(set: &BTreeSet<usize>, num_groups: usize) -> (r: Option<u64>)
    ensures
        match r {
            Some(id) => id == grouping_id(set@, num_groups as nat),
            None => grouping_id(set@, num_groups as nat) > u64::MAX,
        },
{
    broadcast use group_btree_axioms;

    let mut id: u64 = 0;
    let mut g: usize = 0;
    while g < num_groups
        invariant
            g <= num_groups,
            id == grouping_id(set@, g as nat),
        decreases num_groups - g,
    {
        let bit: u64 = if set.contains(&g) {
            0
        } else {
            1
        };
        let next = match id.checked_mul(2) {
            Some(doubled) => doubled.checked_add(bit),
            None => None,
        };
        match next {
            Some(next) => {
                id = next;
            },
            None => {
                proof {
                    lemma_id_grows(set@, (g + 1) as nat, num_groups as nat);
                }
                return None;
            },
        }
        g += 1;
    }
    Some(id)
}

/// Expands a batch of group columns over grouping sets: one partition per
/// set, in the order of the sets, as `partition` states. Fails when the id
/// of a set cannot be held in 64 bits.
#[verifier::loop_isolation(false)]
pub fn expand_grouping_sets(groups: &Batch, sets: &Vec<BTreeSet<usize>>) -> (r: Result<
    Vec<Batch>,
    RayexecError,
>)
    ensures
        ids_fit(groups@, set_views(sets@), sets@.len() as int) ==> (r matches Ok(partitions)
            && partitions@.len() == sets@.len() && forall|k: int|
            0 <= k < sets@.len() ==> (#[trigger] partitions@[k])@ == partition(
                groups@,
                sets@[k]@,
            )),
        !ids_fit(groups@, set_views(sets@), sets@.len() as int) ==> fails_with(
            r,
            too_many_groups_text(),
        ),
{
    broadcast use group_btree_axioms;

    let columns = groups.columns();
    let num_rows = groups.num_rows();
    let mut partitions: Vec<Batch> = Vec::new();
    let mut k: usize = 0;
    while k < sets.len()
        invariant
            k <= sets.len(),
            ids_fit(groups@, set_views(sets@), k as int),
            partitions@.len() == k,
            forall|x: int|
                0 <= x < k ==> (#[trigger] partitions@[x])@ == partition(groups@, sets@[x]@),
        decreases sets.len() - k,
    {
        let set = &sets[k];
        assert(set_views(sets@)[k as int] == set@);
        let id = match compute_grouping_id(set, columns.len()) {
            Some(id) => id,
            None => {
                return Err(RayexecError::new("Too many group columns for a grouping set id"));
            },
        };
        let mut cols: Vec<Array> = Vec::new();
        let mut g: usize = 0;
        while g < columns.len()
            invariant
                g <= columns.len(),
                cols@.len() == g,
                forall|x: int|
                    0 <= x < g ==> (#[trigger] cols@[x])@ == partition(groups@, set@).cols[x],
                columns_have_rows(column_views(cols@), num_rows as nat),
            decreases columns.len() - g,
        {
            assert(column_views(columns@)[g as int] == columns@[g as int]@);
            let ghost before = column_views(cols@);
            let col = if set.contains(&g) {
                columns[g].clone()
            } else {
                columns[g].nulled()
            };
            cols.push(col);
            proof {
                assert(column_views(cols@) =~= before.push(col@));
            }
            g += 1;
        }
        let ghost before = column_views(cols@);
        let tag = Array::from_scalar(&ScalarValue::UInt64(id), num_rows);
        cols.push(tag);
        proof {
            assert(column_views(cols@) =~= before.push(tag@));
            assert(column_views(cols@) =~= partition(groups@, set@).cols);
        }
        let batch = match Batch::try_with_num_rows(cols, num_rows) {
            Ok(batch) => batch,
            Err(_) => {
                proof {
                    assert(false);
                }
                return Err(RayexecError::new("Too many group columns for a grouping set id"));
            },
        };
        partitions.push(batch);
        k += 1;
    }
    Ok(partitions)
}

/// Whether two rows of a batch hold the same values in every column, NULL
/// being the same as NULL.
pub open spec fn same_batch_rows(batch: BatchView, i: int, j: int) -> bool {
    forall|c: int| 0 <= c < batch.cols.len() ==> (#[trigger] batch.cols[c]).rows[i] == batch.cols[c].rows[j]
}

/// For each row of a batch, whether no earlier row is the same.
pub open spec fn first_occurrences(batch: BatchView) -> Seq<bool> {
    Seq::new(
        batch.num_rows,
        |i: int| forall|j: int| 0 <= j < i ==> !#[trigger] same_batch_rows(batch, i, j),
    )
}

/// The distinct rows of a batch, each where it first occurs.
pub open spec fn distinct_outcome(batch: BatchView) -> BatchView {
    kept_batch(batch, first_occurrences(batch))
}

/// Whether two rows of a batch are the same, as `same_batch_rows` states.
pub fn rows_are_same(batch: &Batch, i: usize, j: usize) -> (r: bool)
    requires
        i < batch@.num_rows,
        j < batch@.num_rows,
    ensures
        r == same_batch_rows(batch@, i as int, j as int),
{
    let columns = batch.columns();
    let mut c: usize = 0;
    while c < columns.len()
        invariant
            c <= columns.len(),
            column_views(columns@) == batch@.cols,
            columns_have_rows(batch@.cols, batch@.num_rows),
            i < batch@.num_rows,
            j < batch@.num_rows,
            forall|k: int|
                0 <= k < c ==> (#[trigger] batch@.cols[k]).rows[i as int] == batch@.cols[k].rows[j as int],
        decreases columns.len() - c,
    {
        assert(column_views(columns@)[c as int] == columns@[c as int]@);
        if !columns[c].same_rows(i, j) {
            assert(batch@.cols[c as int].rows[i as int] != batch@.cols[c as int].rows[j as int]);
            return false;
        }
        c += 1;
    }
    true
}

/// Keeps each row of a batch where it first occurs, as `distinct_outcome`
/// states.
pub fn distinct_rows(batch: &Batch) -> (r: Batch)
    ensures
        r@ == distinct_outcome(batch@),
{
    let n = batch.num_rows();
    let mut keep: Vec<bool> = Vec::new();
    let mut i: usize = 0;
    while i < n
        invariant
            i <= n,
            n == batch@.num_rows,
            keep@.len() == i,
            forall|x: int| 0 <= x < i ==> (#[trigger] keep@[x]) == first_occurrences(batch@)[x],
        decreases n - i,
    {
        let mut first = true;
        let mut j: usize = 0;
        while j < i && first
            invariant
                j <= i,
                i < n,
                n == batch@.num_rows,
                first ==> forall|y: int| 0 <= y < j ==> !#[trigger] same_batch_rows(batch@, i as int, y),
                !first ==> exists|y: int| 0 <= y < i && #[trigger] same_batch_rows(batch@, i as int, y),
            decreases i - j + (if first {
                1int
            } else {
                0int
            }),
        {
            if rows_are_same(batch, i, j) {
                first = false;
            } else {
                j += 1;
            }
        }
        keep.push(first);
        i += 1;
    }
    assert(keep@ =~= first_occurrences(batch@));
    match keep_rows(batch, &keep) {
        Ok(kept) => kept,
        Err(_) => {
            proof {
                assert(false);
            }
            Batch::empty_with_num_rows(0)
        },
    }
}

/// The groups of one grouping set: the distinct rows of its partition,
/// with the column of ids where it is asked for, and without it where not.
pub open spec fn grouped_partition(groups: BatchView, set: Set<usize>, with_ids: bool) -> BatchView {
    let distinct = distinct_outcome(partition(groups, set));
    if with_ids {
        distinct
    } else {
        BatchView { cols: distinct.cols.drop_last(), num_rows: distinct.num_rows }
    }
}

/// The groups of the first `upto` grouping sets, set after set, or the
/// message of the first error; none without a set.
pub open spec fn grouped_upto(
    groups: BatchView,
    sets: Seq<Set<usize>>,
    with_ids: bool,
    upto: nat,
) -> Result<Option<BatchView>, Seq<char>>
    decreases upto,
{
    if upto == 0 || upto > sets.len() {
        Ok(None)
    } else {
        match grouped_upto(groups, sets, with_ids, (upto - 1) as nat) {
            Err(msg) => Err(msg),
            Ok(None) => Ok(Some(grouped_partition(groups, sets[upto - 1], with_ids))),
            Ok(Some(above)) => match union_outcome(
                above,
                grouped_partition(groups, sets[upto - 1], with_ids),
            ) {
                Ok(both) => Ok(Some(both)),
                Err(msg) => Err(msg),
            },
        }
    }
}

/// The groups of a batch of group columns over grouping sets, or the
/// message of the error: for each set, in order, one row for each distinct
/// row of its partition. Without a set there is no group and no column.
pub open spec fn grouped_outcome(
    groups: BatchView,
    sets: Seq<Set<usize>>,
    with_ids: bool,
) -> Result<BatchView, Seq<char>> {
    if !ids_fit(groups, sets, sets.len() as int) {
        Err(too_many_groups_text())
    } else {
        match grouped_upto(groups, sets, with_ids, sets.len()) {
            Err(msg) => Err(msg),
            Ok(None) => Ok(BatchView { cols: Seq::empty(), num_rows: 0 }),
            Ok(Some(batch)) => Ok(batch),
        }
    }
}

/// Once grouping the first sets fails, grouping more fails the same way.
pub proof fn lemma_grouped_error(
    groups: BatchView,
    sets: Seq<Set<usize>>,
    with_ids: bool,
    upto: nat,
    more: nat,
)
    requires
        upto <= more <= sets.len(),
        grouped_upto(groups, sets, with_ids, upto) is Err,
    ensures
        grouped_upto(groups, sets, with_ids, more) == grouped_upto(groups, sets, with_ids, upto),
    decreases more,
{
    if more > upto {
        lemma_grouped_error(groups, sets, with_ids, upto, (more - 1) as nat);
    }
}

fn without_last_column(batch: &Batch) -> (r: Batch)
    requires
        batch@.cols.len() > 0,
    ensures
        r@ == (BatchView { cols: batch@.cols.drop_last(), num_rows: batch@.num_rows }),
{
    let columns = batch.columns();
    let mut cols: Vec<Array> = Vec::new();
    assert(column_views(cols@) =~= batch@.cols.take(0));
    let mut c: usize = 0;
    while c + 1 < columns.len()
        invariant
            c + 1 <= columns.len(),
            column_views(columns@) == batch@.cols,
            columns_have_rows(batch@.cols, batch@.num_rows),
            column_views(cols@) == batch@.cols.take(c as int),
        decreases columns.len() - c,
    {
        let ghost before = column_views(cols@);
        assert(column_views(columns@)[c as int] == columns@[c as int]@);
        let col = columns[c].clone();
        cols.push(col);
        proof {
            assert(column_views(cols@) =~= before.push(col@));
            assert(batch@.cols.take(c + 1) =~= before.push(col@));
        }
        c += 1;
    }
    proof {
        assert(batch@.cols.take(c as int) =~= batch@.cols.drop_last());
    }
    match Batch::try_with_num_rows(cols, batch.num_rows()) {
        Ok(out) => out,
        Err(_) => {
            proof {
                assert(false);
            }
            Batch::empty_with_num_rows(0)
        },
    }
}

/// Groups a batch of group columns over grouping sets, as
/// `grouped_outcome` states.
#[verifier::loop_isolation(false)]
pub fn group_rows(groups: &Batch, sets: &Vec<BTreeSet<usize>>, with_ids: bool) -> (r: Result<
    Batch,
    RayexecError,
>)
    ensures
        batch_result_is(r, grouped_outcome(groups@, set_views(sets@), with_ids)),
{
    let partitions = expand_grouping_sets(groups, sets)?;
    let ghost views = set_views(sets@);
    let mut grouped: Option<Batch> = None;
    let mut k: usize = 0;
    while k < partitions.len()
        invariant
            k <= partitions.len(),
            partitions@.len() == sets@.len(),
            views == set_views(sets@),
            match grouped_upto(groups@, views, with_ids, k as nat) {
                Ok(Some(batch)) => grouped matches Some(b) && b@ == batch,
                Ok(None) => grouped is None,
                Err(_) => false,
            },
        decreases partitions.len() - k,
    {
        assert(views[k as int] == sets@[k as int]@);
        assert(partitions@[k as int]@ == partition(groups@, sets@[k as int]@));
        let distinct = distinct_rows(&partitions[k]);
        let part = if with_ids {
            distinct
        } else {
            without_last_column(&distinct)
        };
        grouped = match grouped {
            None => Some(part),
            Some(above) => {
                let both = union_all(&above, &part);
                if both.is_err() {
                    proof {
                        lemma_grouped_error(groups@, views, with_ids, (k + 1) as nat, views.len());
                    }
                    return Err(both.unwrap_err());
                }
                Some(both.unwrap())
            },
        };
        k += 1;
    }
    match grouped {
        Some(batch) => Ok(batch),
        None => Ok(Batch::empty_with_num_rows(0)),
    }
}

} // verus!
