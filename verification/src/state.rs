//! The state of one scan and the steps that the host's calls take it through.

use datafusion::arrow::array::ArrayData;
use vstd::prelude::*;

use crate::datum::Row;
use crate::datum::RowView;
use crate::results::all_rows;
use crate::results::fetch;
use crate::results::reversed;
use crate::results::Batch;
use crate::results::DFResult;

verus! {

/// The number of rows that a scan is taken to return as long as nothing
/// better is known.
pub const PROVISIONAL_ROW_ESTIMATE: u64 = 100;

/// Where a scan stands in its life.
#[derive(Clone, Copy, Debug, PartialEq, Eq, Structural)]
pub enum Phase {
    Created,
    Planned,
    Begun,
    Iterating,
    Ended,
}

/// How the remote query of a scan ended.
pub enum QueryOutcome {
    /// The remote query could not be put together.
    BuildFailed,
    /// The remote engine refused the query or failed on it.
    ExecutionFailed,
    /// The remote engine answered, but not in batches that can be read.
    Unusable,
    /// The batches of the answer, in the remote engine's order.
    Batches(Vec<Batch>),
}

impl QueryOutcome {
    /// The rows that an outcome gives a scan: those of its batches, and none
    /// at all where the query failed.
    pub open spec fn rows(&self) -> Option<Seq<RowView>> {
        match *self {
            QueryOutcome::Batches(batches) => Some(all_rows(batches@)),
            _ => None,
        }
    }

    /// Whether each of `answer`'s sets of columns can form a batch.
    pub open spec fn readable(answer: Seq<Vec<ArrayData>>) -> bool {
        forall|i: int| 0 <= i < answer.len() ==> Batch::aligned((#[trigger] answer[i])@)
    }

    /// The outcome of a query that the remote engine answered with `answer`,
    /// one set of columns for each batch: the batches of those columns, or
    /// `Unusable` where one of the sets cannot form a batch.
    pub fn from_columns(answer: Vec<Vec<ArrayData>>) -> (outcome: QueryOutcome)
        ensures
            Self::readable(answer@) ==> (outcome matches QueryOutcome::Batches(batches)
                && batches@.len() == answer@.len() && forall|i: int|
                0 <= i < answer@.len() ==> (#[trigger] batches@[i]).columns() == answer@[i]@),
            !Self::readable(answer@) ==> outcome is Unusable,
    {
        let ghost whole = answer@;
        let mut rest = answer;
        let mut bottom_up: Vec<Batch> = Vec::new();
        while rest.len() > 0
            invariant
                whole == answer@,
                rest@.len() <= whole.len(),
                rest@ == whole.take(rest@.len() as int),
                bottom_up@.len() + rest@.len() == whole.len(),
                forall|k: int|
                    0 <= k < bottom_up@.len() ==> (#[trigger] bottom_up@[k]).columns()
                        == whole[whole.len() - 1 - k]@,
                forall|i: int|
                    rest@.len() <= i < whole.len() ==> Batch::aligned((#[trigger] whole[i])@),
            decreases rest.len(),
        {
            let columns = rest.pop().unwrap();
            match Batch::new(columns) {
                Some(batch) => {
                    bottom_up.push(batch);
                },
                None => {
                    assert(!Batch::aligned(whole[rest@.len() as int]@));
                    return QueryOutcome::Unusable;
                },
            }
        }
        let batches = reversed(bottom_up);
        QueryOutcome::Batches(batches)
    }
}

/// The mathematical content of the state of a scan.
pub struct ScanModel {
    pub phase: Phase,
    /// The number of rows handed to the host since the scan began or was
    /// last restarted.
    pub current: u64,
    /// The number of rows up to which the scan hands rows out.
    pub total: u64,
    /// The predicate fragments that planning attached.
    pub quals: Seq<Seq<char>>,
    /// The rows still owed to the host, or `None` where the scan has no
    /// result: before its query has run, and after a query that failed.
    pub pending: Option<Seq<RowView>>,
}

impl ScanModel {
    /// The state in which a scan is created.
    pub open spec fn created() -> ScanModel {
        ScanModel {
            phase: Phase::Created,
            current: 0,
            total: PROVISIONAL_ROW_ESTIMATE,
            quals: Seq::empty(),
            pending: None,
        }
    }

    /// Planning: a scan that was just created becomes planned and takes the
    /// predicate fragments along.
    pub open spec fn planned(self, quals: Seq<Seq<char>>) -> ScanModel {
        ScanModel {
            phase: if self.phase is Created {
                Phase::Planned
            } else {
                self.phase
            },
            quals,
            ..self
        }
    }

    /// The start of execution, before the remote query has run.
    pub open spec fn begun(self) -> ScanModel {
        ScanModel { phase: Phase::Begun, ..self }
    }

    /// The end of the remote query: its rows are owed from now on, or the scan
    /// is without result where the query failed.
    pub open spec fn populated(self, rows: Option<Seq<RowView>>) -> ScanModel {
        ScanModel { phase: Phase::Begun, pending: rows, ..self }
    }

    /// Whether a fetch may hand out a row: the scan is below its row limit
    /// and owes a row.
    pub open spec fn has_next(self) -> bool {
        &&& self.current < self.total
        &&& self.pending matches Some(rows)
        &&& rows.len() > 0
    }

    /// The state after one fetch.
    pub open spec fn iterated(self) -> ScanModel {
        if self.has_next() {
            ScanModel {
                phase: Phase::Iterating,
                current: (self.current + 1) as u64,
                pending: Some(fetch(self.pending->0).1),
                ..self
            }
        } else {
            ScanModel { phase: Phase::Iterating, ..self }
        }
    }

    /// The row that one fetch hands out, or `None` for the end of the data.
    pub open spec fn next_row(self) -> Option<RowView> {
        if self.has_next() {
            fetch(self.pending->0).0
        } else {
            None
        }
    }

    /// A restart: nothing counts as handed out any more, and the result is
    /// dropped until the remote query has run again.
    pub open spec fn rescanned(self) -> ScanModel {
        ScanModel { phase: Phase::Begun, current: 0, pending: None, ..self }
    }

    /// The state after `n` fetches.
    pub open spec fn after_fetches(self, n: nat) -> ScanModel
        decreases n,
    {
        if n == 0 {
            self
        } else {
            self.iterated().after_fetches((n - 1) as nat)
        }
    }
}

/// A scan whose rows arrive when it has handed out nothing hands them out in
/// their order, each once, up to its row limit, and after that nothing,
/// however often the host fetches.
pub proof fn lemma_scan_fetches(scan: ScanModel, rows: Seq<RowView>, n: nat)
    requires
        scan.current == 0,
    ensures
        ({
            let start = scan.populated(Some(rows));
            let limit = if rows.len() <= scan.total {
                rows.len()
            } else {
                scan.total as nat
            };
            &&& n < limit ==> start.after_fetches(n).next_row() == Some(rows[n as int])
            &&& n >= limit ==> start.after_fetches(n).next_row() == None::<RowView>
        }),
{
    let start = scan.populated(Some(rows));
    lemma_fetches_from(start, rows, 0, n);
    assert(rows.skip(0) =~= rows);
}

/// The step behind [`lemma_scan_fetches`]: a scan that has handed out the
/// first `done` rows of `rows` and owes the others.
proof fn lemma_fetches_from(scan: ScanModel, rows: Seq<RowView>, done: nat, n: nat)
    requires
        scan.current == done,
        done <= rows.len(),
        done <= scan.total,
        scan.pending == Some(rows.skip(done as int)),
    ensures
        ({
            let limit = if rows.len() <= scan.total {
                rows.len()
            } else {
                scan.total as nat
            };
            &&& done + n < limit ==> scan.after_fetches(n).next_row() == Some(
                rows[(done + n) as int],
            )
            &&& done + n >= limit ==> scan.after_fetches(n).next_row() == None::<RowView>
        }),
    decreases n,
{
    if n > 0 {
        let next = scan.iterated();
        if scan.has_next() {
            assert(rows.skip(done as int).skip(1) =~= rows.skip((done + 1) as int));
            lemma_fetches_from(next, rows, done + 1, (n - 1) as nat);
        } else {
            lemma_fetches_from(next, rows, done, (n - 1) as nat);
        }
    }
}

/// A restart brings back the first pass: a scan whose rows arrived when it
/// had handed out nothing is, after any number of fetches, a restart and the
/// arrival of the same rows, in the state in which it was when the rows
/// first arrived, so that it hands out the same rows again.
pub proof fn lemma_rescan_reproduces(scan: ScanModel, rows: Option<Seq<RowView>>, fetched: nat)
    requires
        scan.current == 0,
    ensures
        scan.populated(rows).after_fetches(fetched).rescanned().populated(rows) == scan.populated(
            rows,
        ),
{
    lemma_fetches_keep(scan.populated(rows), fetched);
}

/// Fetching changes neither the row limit nor the predicate fragments.
pub proof fn lemma_fetches_keep(scan: ScanModel, n: nat)
    ensures
        scan.after_fetches(n).total == scan.total,
        scan.after_fetches(n).quals == scan.quals,
        scan.after_fetches(n).pending is Some <==> scan.pending is Some,
    decreases n,
{
    if n > 0 {
        lemma_fetches_keep(scan.iterated(), (n - 1) as nat);
    }
}

/// A scan without result is at the end of its data and stays there.
pub proof fn lemma_no_result_is_end(scan: ScanModel, n: nat)
    requires
        scan.pending is None,
    ensures
        scan.after_fetches(n).next_row() == None::<RowView>,
        scan.after_fetches(n).current == scan.current,
    decreases n,
{
    if n > 0 {
        lemma_no_result_is_end(scan.iterated(), (n - 1) as nat);
    }
}

/// The state of one scan.
pub struct DataFusionFdwStat {
    phase: Phase,
    current: u64,
    total: u64,
    quals: Vec<String>,
    df_result: Option<DFResult>,
}

impl View for DataFusionFdwStat {
    type V = ScanModel;

    closed spec fn view(&self) -> ScanModel {
        ScanModel {
            phase: self.phase,
            current: self.current,
            total: self.total,
            quals: self.quals.deep_view(),
            pending: match self.df_result {
                Some(result) => Some(result.pending()),
                None => None,
            },
        }
    }
}

impl DataFusionFdwStat {
    /// The invariant of a state: that of its result.
    pub closed spec fn wf(&self) -> bool {
        self.df_result matches Some(result) ==> result.wf()
    }

    /// The state of a scan that is being created.
    pub fn new() -> (state: DataFusionFdwStat)
        ensures
            state.wf(),
            state@ == ScanModel::created(),
    {
        let state = DataFusionFdwStat {
            phase: Phase::Created,
            current: 0,
            total: PROVISIONAL_ROW_ESTIMATE,
            quals: Vec::new(),
            df_result: None,
        };
        assert(state.quals.deep_view() =~= Seq::<Seq<char>>::empty());
        state
    }

    /// Where the scan stands in its life.
    pub fn phase(&self) -> (phase: Phase)
        ensures
            phase == self@.phase,
    {
        self.phase
    }

    /// The number of rows handed to the host since the scan began or was
    /// last restarted.
    pub fn current(&self) -> (current: u64)
        ensures
            current == self@.current,
    {
        self.current
    }

    /// The number of rows up to which the scan hands rows out.
    pub fn total(&self) -> (total: u64)
        ensures
            total == self@.total,
    {
        self.total
    }

    /// The predicate fragments that planning attached.
    pub fn quals(&self) -> (quals: &Vec<String>)
        ensures
            quals.deep_view() == self@.quals,
    {
        &self.quals
    }

    /// Whether the scan has a result.
    pub fn has_result(&self) -> (present: bool)
        ensures
            present == self@.pending is Some,
    {
        self.df_result.is_some()
    }

    /// Takes the step of planning.
    pub fn plan(&mut self, quals: Vec<String>)
        requires
            old(self).wf(),
        ensures
            final(self).wf(),
            final(self)@ == old(self)@.planned(quals.deep_view()),
    {
        if let Phase::Created = self.phase {
            self.phase = Phase::Planned;
        }
        self.quals = quals;
    }

    /// Takes the step of starting execution.
    pub fn begin(&mut self)
        requires
            old(self).wf(),
        ensures
            final(self).wf(),
            final(self)@ == old(self)@.begun(),
    {
        self.phase = Phase::Begun;
    }

    /// Takes in the outcome of the remote query.
    pub fn populate(&mut self, outcome: QueryOutcome)
        requires
            old(self).wf(),
        ensures
            final(self).wf(),
            final(self)@ == old(self)@.populated(outcome.rows()),
    {
        self.phase = Phase::Begun;
        self.df_result = match outcome {
            QueryOutcome::Batches(batches) => Some(DFResult::new(batches)),
            _ => None,
        };
    }

    /// Fetches the next row for the host, or `None` for the end of the data:
    /// where the row limit is reached, where the scan has no result, and where
    /// no row is owed any more.
    pub fn iterate(&mut self) -> (row: Option<Row>)
        requires
            old(self).wf(),
        ensures
            final(self).wf(),
            final(self)@ == old(self)@.iterated(),
            row.deep_view() == old(self)@.next_row(),
    {
        self.phase = Phase::Iterating;
        if self.current < self.total {
            let fetched = match &mut self.df_result {
                Some(result) => result.next_record(),
                None => None,
            };
            if fetched.is_some() {
                self.current = self.current + 1;
            }
            fetched
        } else {
            None
        }
    }

    /// Takes the step of a restart.
    pub fn rescan(&mut self)
        requires
            old(self).wf(),
        ensures
            final(self).wf(),
            final(self)@ == old(self)@.rescanned(),
    {
        self.phase = Phase::Begun;
        self.current = 0;
        self.df_result = None;
    }
}

} // verus!
