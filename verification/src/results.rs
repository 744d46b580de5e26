//! From columns to rows.

use datafusion::arrow::array::ArrayData;
use vstd::prelude::*;

use crate::column::array_cells;
use crate::column::array_kind;
use crate::column::len_of;
use crate::datum::Datum;
use crate::datum::Row;
use crate::datum::RowView;
use crate::utils::coerce;
use crate::utils::index_to_datum;

verus! {

/// A batch of the remote engine: at least one column, all equally long.
pub struct Batch {
    columns: Vec<ArrayData>,
}

impl Batch {
    /// The columns, in the batch's own order.
    pub closed spec fn columns(&self) -> Seq<ArrayData> {
        self.columns@
    }

    /// The number of columns.
    pub open spec fn width(&self) -> nat {
        self.columns().len()
    }

    /// The number of rows, which is the length of each column.
    pub open spec fn height(&self) -> nat {
        array_cells(self.columns()[0]).len()
    }

    /// Whether `columns` can form a batch: there is a column, and all are
    /// as long as the first.
    pub open spec fn aligned(columns: Seq<ArrayData>) -> bool {
        &&& columns.len() > 0
        &&& forall|c: int|
            0 <= c < columns.len() ==> array_cells(#[trigger] columns[c]).len() == array_cells(
                columns[0],
            ).len()
    }

    /// Every batch is made of columns that can form one.
    #[verifier::type_invariant]
    spec fn aligned_columns(self) -> bool {
        Self::aligned(self.columns@)
    }

    /// The rows of the batch: row `r` holds, for each column in order, the
    /// host value of that column's cell at `r`.
    pub open spec fn rows(&self) -> Seq<RowView> {
        Seq::new(
            self.height(),
            |r: int|
                Seq::new(
                    self.width(),
                    |c: int|
                        coerce(array_kind(self.columns()[c]), array_cells(self.columns()[c])[r]),
                ),
        )
    }

    /// Forms a batch of `columns`, or `None` where there is no column or the
    /// columns differ in length.
    pub fn new(columns: Vec<ArrayData>) -> (batch: Option<Batch>)
        ensures
            batch is Some <==> Self::aligned(columns@),
            batch matches Some(b) ==> b.columns() == columns@,
    {
        if columns.len() == 0 {
            return None;
        }
        let height: usize = len_of(&columns[0]);
        let mut c: usize = 1;
        while c < columns.len()
            invariant
                1 <= c <= columns.len(),
                height == array_cells(columns@[0]).len(),
                forall|d: int| 0 <= d < c ==> array_cells(#[trigger] columns@[d]).len() == height,
            decreases columns.len() - c,
        {
            if len_of(&columns[c]) != height {
                return None;
            }
            c = c + 1;
        }
        Some(Batch { columns })
    }

    /// The number of columns.
    pub fn num_columns(&self) -> (n: usize)
        ensures
            n == self.width(),
    {
        self.columns.len()
    }

    /// The number of rows.
    pub fn num_rows(&self) -> (n: usize)
        ensures
            n == self.height(),
            forall|c: int|
                0 <= c < self.width() ==> array_cells(#[trigger] self.columns()[c]).len() == n,
    {
        proof {
            use_type_invariant(self);
        }
        len_of(&self.columns[0])
    }

    /// The column at `index`.
    pub fn column(&self, index: usize) -> (array: &ArrayData)
        requires
            index < self.width(),
        ensures
            *array == self.columns()[index as int],
    {
        &self.columns[index]
    }
}

/// The elements of `v` in the opposite order.
pub fn reversed<T>(v: Vec<T>) -> (r: Vec<T>)
    ensures
        r@ == v@.reverse(),
{
    let ghost whole = v@;
    let mut rest = v;
    let mut r: Vec<T> = Vec::new();
    while rest.len() > 0
        invariant
            rest@.len() <= whole.len(),
            rest@ == whole.take(rest@.len() as int),
            r@.len() + rest@.len() == whole.len(),
            forall|i: int| 0 <= i < r@.len() ==> r@[i] == whole[whole.len() - 1 - i],
        decreases rest.len(),
    {
        let x = rest.pop().unwrap();
        r.push(x);
    }
    assert(r@ =~= whole.reverse());
    r
}

/// Turns column-major data into row-major data: the item at row `r` of
/// column `c` becomes the item at column `c` of row `r`.
pub fn transpose2<T>(v: Vec<Vec<T>>) -> (rows: Vec<Vec<T>>)
    requires
        v.len() > 0,
        forall|c: int| 0 <= c < v.len() ==> (#[trigger] v[c]).len() == v[0].len(),
    ensures
        rows.len() == v[0].len(),
        forall|r: int| 0 <= r < rows.len() ==> (#[trigger] rows[r]).len() == v.len(),
        forall|r: int, c: int|
            0 <= r < rows.len() && 0 <= c < v.len() ==> #[trigger] rows[r][c] == v[c][r],
{
    let ghost whole = v@;
    let mut columns = v;
    let width: usize = columns.len();
    let height: usize = columns[0].len();
    let mut bottom_up: Vec<Vec<T>> = Vec::new();
    let mut left: usize = height;
    while left > 0
        invariant
            width == whole.len(),
            columns@.len() == width,
            width > 0,
            left <= height,
            forall|c: int| 0 <= c < width ==> (#[trigger] whole[c]).len() == height,
            forall|c: int|
                0 <= c < width ==> (#[trigger] columns@[c])@ == whole[c]@.take(left as int),
            bottom_up@.len() == height - left,
            forall|k: int| 0 <= k < bottom_up@.len() ==> (#[trigger] bottom_up@[k])@.len() == width,
            forall|k: int, c: int|
                0 <= k < bottom_up@.len() && 0 <= c < width ==> #[trigger] bottom_up@[k]@[c]
                    == whole[c]@[height - 1 - k],
        decreases left,
    {
        let mut row: Vec<T> = Vec::new();
        let mut c: usize = 0;
        while c < width
            invariant
                width == whole.len(),
                columns@.len() == width,
                0 < left <= height,
                c <= width,
                forall|d: int| 0 <= d < width ==> (#[trigger] whole[d]).len() == height,
                forall|d: int|
                    0 <= d < c ==> (#[trigger] columns@[d])@ == whole[d]@.take(left - 1),
                forall|d: int|
                    c <= d < width ==> (#[trigger] columns@[d])@ == whole[d]@.take(left as int),
                row@.len() == c,
                forall|d: int| 0 <= d < c ==> #[trigger] row@[d] == whole[d]@[left - 1],
            decreases width - c,
        {
            let x = columns[c].pop().unwrap();
            row.push(x);
            c = c + 1;
        }
        bottom_up.push(row);
        left = left - 1;
    }
    let rows = reversed(bottom_up);
    assert forall|r: int, c: int|
        0 <= r < rows.len() && 0 <= c < whole.len() implies #[trigger] rows[r][c]
        == whole[c][r] by {
        assert(rows@[r] == bottom_up@[height - 1 - r]);
        assert(bottom_up@[height - 1 - r]@[c] == whole[c]@[r]);
    }
    assert forall|r: int| 0 <= r < rows.len() implies (#[trigger] rows[r]).len() == whole.len() by {
        assert(rows@[r] == bottom_up@[height - 1 - r]);
    }
    rows
}

/// The rows of a batch, first row first: every cell coerced to its host
/// value, column by column, and the columns then transposed into rows.
pub fn transpose_recordbatch(batch: &Batch) -> (rows: Vec<Row>)
    ensures
        rows.deep_view() == batch.rows(),
{
    proof {
        use_type_invariant(batch);
    }
    let width: usize = batch.num_columns();
    let height: usize = batch.num_rows();
    let mut by_column: Vec<Vec<Option<Datum>>> = Vec::new();
    let mut c: usize = 0;
    while c < width
        invariant
            0 < width == batch.width(),
            height == batch.height(),
            forall|d: int|
                0 <= d < width ==> array_cells(#[trigger] batch.columns()[d]).len() == height,
            c <= width,
            by_column@.len() == c,
            forall|d: int| 0 <= d < c ==> (#[trigger] by_column@[d])@.len() == height,
            forall|d: int, r: int|
                0 <= d < c && 0 <= r < height ==> (#[trigger] by_column@[d]@[r]).deep_view()
                    == coerce(
                    array_kind(batch.columns()[d]),
                    array_cells(batch.columns()[d])[r],
                ),
        decreases width - c,
    {
        let array = batch.column(c);
        let mut cells: Vec<Option<Datum>> = Vec::new();
        let mut r: usize = 0;
        while r < height
            invariant
                height == array_cells(*array).len(),
                r <= height,
                cells@.len() == r,
                forall|q: int|
                    0 <= q < r ==> (#[trigger] cells@[q]).deep_view() == coerce(
                        array_kind(*array),
                        array_cells(*array)[q],
                    ),
            decreases height - r,
        {
            let datum = index_to_datum(array, r);
            cells.push(datum);
            r = r + 1;
        }
        by_column.push(cells);
        c = c + 1;
    }
    let rows = transpose2(by_column);
    assert(rows.deep_view() =~= batch.rows()) by {
        assert forall|r: int| 0 <= r < rows@.len() implies #[trigger] rows.deep_view()[r]
            == batch.rows()[r] by {
            assert forall|d: int| 0 <= d < width implies #[trigger] rows@[r].deep_view()[d]
                == batch.rows()[r][d] by {
                assert(rows@[r]@[d] == by_column@[d]@[r]);
            }
            assert(rows@[r].deep_view() =~= batch.rows()[r]);
        }
    }
    rows
}

/// The rows of a sequence of batches in the order of a scan: batch after
/// batch, and within a batch row after row.
pub open spec fn all_rows(batches: Seq<Batch>) -> Seq<RowView>
    decreases batches.len(),
{
    if batches.len() == 0 {
        Seq::empty()
    } else {
        batches[0].rows() + all_rows(batches.skip(1))
    }
}

/// One fetch from the rows that a scan still owes: the first of them and the
/// rest, or nothing and no change once none is left.
pub open spec fn fetch(pending: Seq<RowView>) -> (Option<RowView>, Seq<RowView>) {
    if pending.len() > 0 {
        (Some(pending[0]), pending.skip(1))
    } else {
        (None, pending)
    }
}

/// What is still owed after `n` fetches.
pub open spec fn after_fetches(pending: Seq<RowView>, n: nat) -> Seq<RowView>
    decreases n,
{
    if n == 0 {
        pending
    } else {
        after_fetches(fetch(pending).1, (n - 1) as nat)
    }
}

/// The number of rows of a sequence of batches.
pub open spec fn total_height(batches: Seq<Batch>) -> nat
    decreases batches.len(),
{
    if batches.len() == 0 {
        0
    } else {
        batches[0].height() + total_height(batches.skip(1))
    }
}

/// A scan over a sequence of batches owes as many rows as the batches have.
pub proof fn lemma_all_rows_len(batches: Seq<Batch>)
    ensures
        all_rows(batches).len() == total_height(batches),
    decreases batches.len(),
{
    if batches.len() > 0 {
        lemma_all_rows_len(batches.skip(1));
    }
}

/// A scan keeps the order of the remote engine: row `r` of batch `b` comes
/// after all rows of the batches before `b` and after the rows before `r`
/// of its own batch.
pub proof fn lemma_all_rows_order(batches: Seq<Batch>, b: int, r: int)
    requires
        0 <= b < batches.len(),
        0 <= r < batches[b].height(),
    ensures
        total_height(batches.take(b)) + r < all_rows(batches).len(),
        all_rows(batches)[total_height(batches.take(b)) + r] == batches[b].rows()[r],
    decreases batches.len(),
{
    let rest = batches.skip(1);
    if b == 0 {
        assert(batches.take(0).len() == 0);
    } else {
        lemma_all_rows_order(rest, b - 1, r);
        assert(rest[b - 1] == batches[b]);
        assert(batches.take(b)[0] == batches[0]);
        assert(batches.take(b).skip(1) =~= rest.take(b - 1));
    }
}

/// Where every batch has `width` columns, every row of the scan has `width`
/// values.
pub proof fn lemma_all_rows_width(batches: Seq<Batch>, width: nat, i: int)
    requires
        forall|b: int| 0 <= b < batches.len() ==> (#[trigger] batches[b]).width() == width,
        0 <= i < all_rows(batches).len(),
    ensures
        all_rows(batches)[i].len() == width,
    decreases batches.len(),
{
    let first = batches[0].rows();
    if i >= first.len() {
        let rest = batches.skip(1);
        assert forall|b: int| 0 <= b < rest.len() implies (#[trigger] rest[b]).width() == width by {
            assert(rest[b] == batches[b + 1]);
        }
        lemma_all_rows_width(rest, width, i - first.len());
    }
}

/// Fetching again and again hands out the owed rows in their order, each
/// once, and after the last of them nothing, however often it is asked.
pub proof fn lemma_fetches(pending: Seq<RowView>, n: nat)
    ensures
        n <= pending.len() ==> after_fetches(pending, n) == pending.skip(n as int),
        n > pending.len() ==> after_fetches(pending, n).len() == 0,
        n < pending.len() ==> fetch(after_fetches(pending, n)).0 == Some(pending[n as int]),
        n >= pending.len() ==> fetch(after_fetches(pending, n)).0 == None::<RowView>,
    decreases n,
{
    if n == 0 {
        assert(pending.skip(0) =~= pending);
    } else {
        let rest = fetch(pending).1;
        lemma_fetches(rest, (n - 1) as nat);
        if pending.len() > 0 {
            if n <= pending.len() {
                assert(rest.skip(n - 1) =~= pending.skip(n as int));
            }
        }
    }
}

/// Draining a scan over a sequence of batches hands out every row of every
/// batch, in the order of [`all_rows`], and as many rows as the batches have;
/// every fetch after that hands out nothing.
pub proof fn lemma_drain(batches: Seq<Batch>, n: nat)
    ensures
        all_rows(batches).len() == total_height(batches),
        n < total_height(batches) ==> fetch(after_fetches(all_rows(batches), n)).0 == Some(
            all_rows(batches)[n as int],
        ),
        n >= total_height(batches) ==> fetch(after_fetches(all_rows(batches), n)).0
            == None::<RowView>,
{
    lemma_all_rows_len(batches);
    lemma_fetches(all_rows(batches), n);
}

/// Once nothing is owed, a fetch gives nothing and leaves nothing owed, after
/// any number of fetches.
pub proof fn lemma_fetch_after_end(pending: Seq<RowView>, n: nat)
    requires
        pending.len() == 0,
    ensures
        fetch(after_fetches(pending, n)) == (None::<RowView>, pending),
    decreases n,
{
    if n > 0 {
        lemma_fetch_after_end(pending, (n - 1) as nat);
    }
}

/// The rows of a scan, handed out one at a time.
pub struct DFResult {
    batches: Vec<Batch>,
    /// The number of batches that have been turned into rows.
    next_batch: usize,
    /// The rows of the last batch turned into rows that are still owed, the
    /// next one to hand out at the end.
    records: Vec<Row>,
    done: bool,
}

impl DFResult {
    /// The rows still owed, the next one first.
    pub closed spec fn pending(&self) -> Seq<RowView> {
        self.records.deep_view().reverse() + all_rows(self.batches@.skip(self.next_batch as int))
    }

    /// Whether the end of the data has been reached.
    pub closed spec fn done(&self) -> bool {
        self.done
    }

    /// The invariant of a scan's rows. Among other things it says that the
    /// end of the data is marked exactly when no row is owed.
    pub closed spec fn wf(&self) -> bool {
        &&& self.next_batch <= self.batches@.len()
        &&& self.records@.len() == 0 ==> self.next_batch == self.batches@.len()
        &&& self.done == (self.records@.len() == 0)
    }

    /// The end of the data is marked exactly when no row is owed.
    pub proof fn lemma_done_iff_nothing_pending(&self)
        requires
            self.wf(),
        ensures
            self.done() <==> self.pending().len() == 0,
    {
        if self.records@.len() == 0 {
            assert(self.batches@.skip(self.next_batch as int).len() == 0);
        }
    }

    /// Starts a scan over `record_batches`, which owes all their rows.
    pub fn new(record_batches: Vec<Batch>) -> (result: DFResult)
        ensures
            result.wf(),
            result.pending() == all_rows(record_batches@),
    {
        let mut result = DFResult {
            batches: record_batches,
            next_batch: 0,
            records: Vec::new(),
            done: false,
        };
        assert(result.batches@.skip(0) =~= result.batches@);
        assert(result.records.deep_view().reverse() =~= Seq::<RowView>::empty());
        assert(result.pending() =~= all_rows(result.batches@));
        result.update_cache();
        result
    }

    /// Hands out the next row, or `None` at the end of the data, where it
    /// changes nothing.
    pub fn next_record(&mut self) -> (row: Option<Row>)
        requires
            old(self).wf(),
        ensures
            final(self).wf(),
            (row.deep_view(), final(self).pending()) == fetch(old(self).pending()),
    {
        proof {
            self.lemma_done_iff_nothing_pending();
        }
        let ghost before = self.records.deep_view();
        match self.records.pop() {
            None => None,
            Some(row) => {
                proof {
                    let after = self.records.deep_view();
                    assert(after =~= before.drop_last());
                    assert(row.deep_view() == before.last());
                    assert(before.reverse()[0] == before.last());
                    assert(after.reverse() =~= before.reverse().skip(1));
                    assert(self.pending() =~= old(self).pending().skip(1));
                }
                if self.records.len() == 0 {
                    self.update_cache();
                }
                Some(row)
            },
        }
    }

    /// Whether the end of the data has been reached, which is so exactly
    /// when no row is owed.
    pub fn finished(self) -> (done: bool)
        requires
            self.wf(),
        ensures
            done == (self.pending().len() == 0),
    {
        proof {
            self.lemma_done_iff_nothing_pending();
        }
        self.done
    }

    /// Turns batches into rows until one has given a row or none is left,
    /// and marks the end of the data in the latter case.
    fn update_cache(&mut self)
        requires
            old(self).next_batch <= old(self).batches@.len(),
            old(self).records@.len() == 0,
            !old(self).done,
        ensures
            final(self).wf(),
            final(self).pending() == old(self).pending(),
            final(self).batches == old(self).batches,
    {
        assert(self.records.deep_view().reverse() =~= Seq::<RowView>::empty());
        while self.records.len() == 0 && self.next_batch < self.batches.len()
            invariant
                self.next_batch <= self.batches@.len(),
                !self.done,
                self.batches == old(self).batches,
                self.pending() == old(self).pending(),
            decreases self.batches@.len() - self.next_batch,
        {
            let ghost rest = self.batches@.skip(self.next_batch as int);
            let rows = transpose_recordbatch(&self.batches[self.next_batch]);
            let ghost rows_view = rows.deep_view();
            self.records = reversed(rows);
            self.next_batch = self.next_batch + 1;
            proof {
                assert(rest[0] == self.batches@[self.next_batch - 1]);
                assert(rest.skip(1) =~= self.batches@.skip(self.next_batch as int));
                assert(self.records.deep_view() =~= rows_view.reverse());
                assert(self.records.deep_view().reverse() =~= rows_view);
            }
        }
        if self.records.len() == 0 {
            self.done = true;
        }
    }
}

} // verus!
