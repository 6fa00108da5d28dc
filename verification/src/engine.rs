//! The query executor: a state machine over one query's lifetime.
//!
//! The machine owns every decision the executor makes — which driver call
//! comes next, how each reply is folded into the result, and how any failure
//! becomes the query's error outcome — while the blocking calls themselves
//! (prepare, execute, count and describe columns, fetch a row, read a cell)
//! are performed by the loop that drives it. The driver asks
//! [`QueryExec::next_action`] what to do, performs the call, and hands the
//! reply back through the matching `on_*` method.
//!
//! Each `on_*` method's contract says that the new state is exactly the one
//! the corresponding `step_*` transition function gives, so the whole
//! protocol — prepared, executed, then either no result set or
//! describe/fetch/read until exhaustion, with every failure absorbing into a
//! terminal error — is pinned down at the specification level.

use vstd::prelude::*;

use crate::outcome::{
    data_error, data_error_message, execute_error, execute_error_message, prepare_error,
    prepare_error_message, results_error, results_error_message, OutcomeModel, QueryOutcome,
};
use crate::record::{record_keys_unique, record_upsert, CellModel, CellValue, Record, RecordModel};
use crate::types::{descriptor_for, descriptor_of, Category, ColumnDescriptor, ColumnModel, ColumnReply};

verus! {

/// Where the machine stands in one query's protocol.
///
/// `DescribeColumns` walks the 1-based column indices `next..=total`;
/// `ReadCells` walks the 0-based positions of the current row.
#[derive(Clone, Copy, PartialEq, Eq, Structural, Debug)]
pub enum Phase {
    Prepare,
    Execute,
    CountColumns,
    DescribeColumns { total: u16, next: u16 },
    FetchRow,
    ReadCells { col: usize },
    Finished,
}

/// The next driver call the machine asks for.
#[derive(Clone, Copy, PartialEq, Eq, Structural, Debug)]
pub enum Action {
    /// Allocate a statement bound to the session.
    Prepare,
    /// Run the query text directly, with no parameter binding.
    Execute,
    /// Retrieve the result set's column count.
    CountColumns,
    /// Describe the column with this 1-based index.
    DescribeColumn(u16),
    /// Fetch the next row, or learn that none remains.
    Fetch,
    /// Read the cell at this position of the current row, typed by the
    /// column's classified category.
    GetCell(u16, Category),
    /// The outcome is ready; no further call is needed.
    Finished,
}

/// The mathematical state of the machine.
#[verifier::ext_equal]
pub ghost struct ExecModel {
    pub query: Seq<char>,
    pub phase: Phase,
    pub descriptors: Seq<ColumnModel>,
    pub rows: Seq<RecordModel>,
    pub current: RecordModel,
    pub outcome: Option<OutcomeModel>,
}

impl ExecModel {
    /// The machine's invariant: an outcome exists exactly in the terminal
    /// phase, the descriptor list agrees with the describing window, the
    /// cell position is in range, and every record built so far has unique
    /// keys.
    pub open spec fn wf(self) -> bool {
        &&& (self.outcome is Some <==> self.phase is Finished)
        &&& self.descriptors.len() <= 0x7FFF
        &&& ((self.phase is Prepare || self.phase is Execute || self.phase is CountColumns)
            ==> self.descriptors.len() == 0)
        &&& (self.phase matches Phase::DescribeColumns { total, next }
            ==> 1 <= next <= total <= 0x7FFF && self.descriptors.len() == next - 1)
        &&& (self.phase matches Phase::ReadCells { col } ==> col < self.descriptors.len())
        &&& record_keys_unique(self.current)
        &&& (forall|i: int| 0 <= i < self.rows.len() ==> record_keys_unique(#[trigger] self.rows[i]))
    }

    /// The machine has reached its terminal phase with this outcome.
    pub open spec fn finished_with(self, o: OutcomeModel) -> bool {
        self.phase is Finished && self.outcome == Some(o)
    }

    /// The terminal error state a failure moves the machine into. The error
    /// is absorbing: no transition applies to a finished machine.
    pub open spec fn failed(self, msg: Seq<char>) -> ExecModel {
        ExecModel { phase: Phase::Finished, outcome: Some(OutcomeModel::Error(msg)), ..self }
    }
}

/// The state a fresh machine starts in.
pub open spec fn initial_model(query: Seq<char>) -> ExecModel {
    ExecModel {
        query: query,
        phase: Phase::Prepare,
        descriptors: Seq::<ColumnModel>::empty(),
        rows: Seq::<RecordModel>::empty(),
        current: Seq::<(Seq<char>, CellModel)>::empty(),
        outcome: None,
    }
}

/// A driver reply, with the failure text abstracted to its characters.
pub open spec fn msg_view<T>(r: Result<T, String>) -> Result<T, Seq<char>> {
    match r {
        Ok(v) => Ok(v),
        Err(m) => Err(m@),
    }
}

/// A cell reply, abstracted to its mathematical value.
pub open spec fn cell_view(r: Result<CellValue, String>) -> Result<CellModel, Seq<char>> {
    match r {
        Ok(v) => Ok(v@),
        Err(m) => Err(m@),
    }
}

/// The reported column count, with a negative report treated as no columns.
pub open spec fn clamped_count(n: i16) -> u16 {
    if n < 0 {
        0
    } else {
        n as u16
    }
}

/// Preparation finished: on success the machine moves on to execution, on
/// failure it terminates with the preparation error.
pub open spec fn step_prepared(m: ExecModel, r: Result<(), Seq<char>>) -> ExecModel {
    match r {
        Ok(_) => ExecModel { phase: Phase::Execute, ..m },
        Err(detail) => m.failed(prepare_error_message(detail)),
    }
}

/// Execution finished: a result set leads to describing it, no result set is
/// an empty rows outcome, and a failure terminates with the execution error.
pub open spec fn step_executed(m: ExecModel, r: Result<bool, Seq<char>>) -> ExecModel {
    match r {
        Ok(has_result) => if has_result {
            ExecModel { phase: Phase::CountColumns, ..m }
        } else {
            ExecModel {
                phase: Phase::Finished,
                outcome: Some(OutcomeModel::Rows(Seq::<RecordModel>::empty())),
                ..m
            }
        },
        Err(detail) => m.failed(execute_error_message(detail)),
    }
}

/// The column count arrived: a positive count opens the 1-based describing
/// window, no columns goes straight to fetching, and a failure terminates
/// with the describe error.
pub open spec fn step_column_count(m: ExecModel, r: Result<i16, Seq<char>>) -> ExecModel {
    match r {
        Ok(n) => {
            let total = clamped_count(n);
            if total == 0 {
                ExecModel { phase: Phase::FetchRow, ..m }
            } else {
                ExecModel { phase: Phase::DescribeColumns { total, next: 1 }, ..m }
            }
        },
        Err(detail) => m.failed(results_error_message(detail)),
    }
}

/// One column was described (or its description failed and it degrades to an
/// "unknown" text column): its descriptor is appended, and the window either
/// advances or closes into the fetch loop.
pub open spec fn step_column(m: ExecModel, d: ColumnModel) -> ExecModel
    recommends
        m.phase is DescribeColumns,
{
    let total = m.phase->DescribeColumns_total;
    let next = m.phase->DescribeColumns_next;
    ExecModel {
        phase: if next < total {
            Phase::DescribeColumns { total, next: (next + 1) as u16 }
        } else {
            Phase::FetchRow
        },
        descriptors: m.descriptors.push(d),
        ..m
    }
}

/// A fetch finished: a fresh row opens the cell-reading walk (or, with no
/// described columns, is recorded as an empty record at once), exhaustion
/// closes the query with all accumulated rows, and a failure terminates with
/// the fetch error.
pub open spec fn step_fetch(m: ExecModel, r: Result<bool, Seq<char>>) -> ExecModel {
    match r {
        Ok(have_row) => if have_row {
            if m.descriptors.len() == 0 {
                ExecModel { rows: m.rows.push(Seq::<(Seq<char>, CellModel)>::empty()), ..m }
            } else {
                ExecModel {
                    phase: Phase::ReadCells { col: 0 },
                    current: Seq::<(Seq<char>, CellModel)>::empty(),
                    ..m
                }
            }
        } else {
            ExecModel {
                phase: Phase::Finished,
                outcome: Some(OutcomeModel::Rows(m.rows)),
                rows: Seq::<RecordModel>::empty(),
                ..m
            }
        },
        Err(detail) => m.failed(results_error_message(detail)),
    }
}

/// One cell was read: its value lands in the current record under its
/// column's name, the walk advances or the completed record joins the rows;
/// a failure terminates the whole query with the extraction error.
pub open spec fn step_cell(m: ExecModel, r: Result<CellModel, Seq<char>>) -> ExecModel
    recommends
        m.phase is ReadCells,
        m.phase->ReadCells_col < m.descriptors.len(),
{
    match r {
        Ok(v) => {
            let col = m.phase->ReadCells_col;
            let cur = record_upsert(m.current, m.descriptors[col as int].name, v);
            if col + 1 < m.descriptors.len() {
                ExecModel { phase: Phase::ReadCells { col: (col + 1) as usize }, current: cur, ..m }
            } else {
                ExecModel {
                    phase: Phase::FetchRow,
                    current: Seq::<(Seq<char>, CellModel)>::empty(),
                    rows: m.rows.push(cur),
                    ..m
                }
            }
        },
        Err(detail) => m.failed(data_error_message(detail)),
    }
}

/// The driver call a state asks for next.
pub open spec fn action_of(m: ExecModel) -> Action {
    match m.phase {
        Phase::Prepare => Action::Prepare,
        Phase::Execute => Action::Execute,
        Phase::CountColumns => Action::CountColumns,
        Phase::DescribeColumns { total: _, next } => Action::DescribeColumn(next),
        Phase::FetchRow => Action::Fetch,
        Phase::ReadCells { col } => Action::GetCell(
            col as u16,
            m.descriptors[col as int].category,
        ),
        Phase::Finished => Action::Finished,
    }
}

/// The query executor's state: one machine runs one query string to its
/// outcome.
pub struct QueryExec {
    pub query: String,
    pub phase: Phase,
    pub descriptors: Vec<ColumnDescriptor>,
    pub rows: Vec<Record>,
    pub current: Record,
    pub outcome: Option<QueryOutcome>,
}

impl View for QueryExec {
    type V = ExecModel;

    open spec fn view(&self) -> ExecModel {
        ExecModel {
            query: self.query@,
            phase: self.phase,
            descriptors: self.descriptors.deep_view(),
            rows: self.rows.deep_view(),
            current: self.current@,
            outcome: self.outcome.deep_view(),
        }
    }
}

impl QueryExec {
    pub open spec fn wf(self) -> bool {
        self@.wf()
    }

    /// A fresh machine for one query string.
    pub fn new(query: String) -> (m: QueryExec)
        ensures
            m.wf(),
            m@ == initial_model(query@),
    {
        let m = QueryExec {
            query,
            phase: Phase::Prepare,
            descriptors: Vec::new(),
            rows: Vec::new(),
            current: Record::new(),
            outcome: None,
        };
        proof {
            assert(m@ =~~= initial_model(m.query@));
        }
        m
    }

    /// The driver call to make next.
    pub fn next_action(&self) -> (a: Action)
        requires
            self.wf(),
        ensures
            a == action_of(self@),
    {
        match self.phase {
            Phase::Prepare => Action::Prepare,
            Phase::Execute => Action::Execute,
            Phase::CountColumns => Action::CountColumns,
            Phase::DescribeColumns { total: _, next } => Action::DescribeColumn(next),
            Phase::FetchRow => Action::Fetch,
            Phase::ReadCells { col } => Action::GetCell(
                col as u16,
                self.descriptors[col].category,
            ),
            Phase::Finished => Action::Finished,
        }
    }

    /// Whether the outcome is ready.
    pub fn is_finished(&self) -> (b: bool)
        ensures
            b == (self@.phase is Finished),
    {
        self.phase == Phase::Finished
    }

    /// Consume the reply to [`Action::Prepare`].
    pub fn on_prepared(&mut self, r: Result<(), String>)
        requires
            old(self).wf(),
            old(self)@.phase is Prepare,
        ensures
            final(self).wf(),
            final(self)@ == step_prepared(old(self)@, msg_view(r)),
    {
        match r {
            Ok(_) => {
                self.phase = Phase::Execute;
            },
            Err(detail) => {
                self.outcome = Some(QueryOutcome::Error(prepare_error(&detail)));
                self.phase = Phase::Finished;
            },
        }
        proof {
            assert(self@ =~~= step_prepared(old(self)@, msg_view(r)));
        }
    }

    /// Consume the reply to [`Action::Execute`]: `Ok(true)` means the query
    /// produced a result set, `Ok(false)` that it produced none (a write
    /// statement).
    pub fn on_executed(&mut self, r: Result<bool, String>)
        requires
            old(self).wf(),
            old(self)@.phase is Execute,
        ensures
            final(self).wf(),
            final(self)@ == step_executed(old(self)@, msg_view(r)),
    {
        match r {
            Ok(has_result) => {
                if has_result {
                    self.phase = Phase::CountColumns;
                } else {
                    let no_rows: Vec<Record> = Vec::new();
                    proof {
                        assert(no_rows.deep_view() =~= Seq::<RecordModel>::empty());
                    }
                    self.outcome = Some(QueryOutcome::Rows(no_rows));
                    self.phase = Phase::Finished;
                }
            },
            Err(detail) => {
                self.outcome = Some(QueryOutcome::Error(execute_error(&detail)));
                self.phase = Phase::Finished;
            },
        }
        proof {
            assert(self@ =~~= step_executed(old(self)@, msg_view(r)));
        }
    }

    /// Consume the reply to [`Action::CountColumns`].
    pub fn on_column_count(&mut self, r: Result<i16, String>)
        requires
            old(self).wf(),
            old(self)@.phase is CountColumns,
        ensures
            final(self).wf(),
            final(self)@ == step_column_count(old(self)@, msg_view(r)),
    {
        match r {
            Ok(n) => {
                let total: u16 = if n < 0 {
                    0
                } else {
                    n as u16
                };
                if total == 0 {
                    self.phase = Phase::FetchRow;
                } else {
                    self.phase = Phase::DescribeColumns { total, next: 1 };
                }
            },
            Err(detail) => {
                self.outcome = Some(QueryOutcome::Error(results_error(&detail)));
                self.phase = Phase::Finished;
            },
        }
        proof {
            assert(self@ =~~= step_column_count(old(self)@, msg_view(r)));
        }
    }

    /// Consume the reply to [`Action::DescribeColumn`].
    pub fn on_column(&mut self, r: ColumnReply)
        requires
            old(self).wf(),
            old(self)@.phase is DescribeColumns,
        ensures
            final(self).wf(),
            final(self)@ == step_column(old(self)@, descriptor_of(r)),
    {
        let d = descriptor_for(r);
        if let Phase::DescribeColumns { total, next } = self.phase {
            self.descriptors.push(d);
            if next < total {
                self.phase = Phase::DescribeColumns { total, next: next + 1 };
            } else {
                self.phase = Phase::FetchRow;
            }
        }
        proof {
            assert(self@.descriptors =~= old(self)@.descriptors.push(d@));
            assert(self@ =~~= step_column(old(self)@, d@));
        }
    }

    /// Consume the reply to [`Action::Fetch`]: `Ok(true)` means a row was
    /// fetched, `Ok(false)` that the result set is exhausted.
    pub fn on_fetch(&mut self, r: Result<bool, String>)
        requires
            old(self).wf(),
            old(self)@.phase is FetchRow,
        ensures
            final(self).wf(),
            final(self)@ == step_fetch(old(self)@, msg_view(r)),
    {
        match r {
            Ok(have_row) => {
                if have_row {
                    if self.descriptors.len() == 0 {
                        self.rows.push(Record::new());
                        proof {
                            assert(self@.rows =~= old(self)@.rows.push(
                                Seq::<(Seq<char>, CellModel)>::empty(),
                            ));
                        }
                    } else {
                        self.current = Record::new();
                        self.phase = Phase::ReadCells { col: 0 };
                    }
                } else {
                    let mut finished_rows: Vec<Record> = Vec::new();
                    core::mem::swap(&mut finished_rows, &mut self.rows);
                    self.outcome = Some(QueryOutcome::Rows(finished_rows));
                    self.phase = Phase::Finished;
                }
            },
            Err(detail) => {
                self.outcome = Some(QueryOutcome::Error(results_error(&detail)));
                self.phase = Phase::Finished;
            },
        }
        proof {
            assert(self@ =~~= step_fetch(old(self)@, msg_view(r)));
        }
    }

    /// Consume the reply to [`Action::GetCell`].
    pub fn on_cell(&mut self, r: Result<CellValue, String>)
        requires
            old(self).wf(),
            old(self)@.phase is ReadCells,
        ensures
            final(self).wf(),
            final(self)@ == step_cell(old(self)@, cell_view(r)),
    {
        match r {
            Ok(v) => {
                if let Phase::ReadCells { col } = self.phase {
                    let name = self.descriptors[col].name.clone();
                    self.current.insert(name, v);
                    if col + 1 < self.descriptors.len() {
                        self.phase = Phase::ReadCells { col: col + 1 };
                    } else {
                        let mut finished_row = Record::new();
                        core::mem::swap(&mut finished_row, &mut self.current);
                        self.rows.push(finished_row);
                        self.phase = Phase::FetchRow;
                        proof {
                            assert(self@.rows =~= old(self)@.rows.push(
                                record_upsert(
                                    old(self)@.current,
                                    old(self)@.descriptors[col as int].name,
                                    v@,
                                ),
                            ));
                        }
                    }
                }
            },
            Err(detail) => {
                self.outcome = Some(QueryOutcome::Error(data_error(&detail)));
                self.phase = Phase::Finished;
            },
        }
        proof {
            assert(self@ =~~= step_cell(old(self)@, cell_view(r)));
        }
    }

    /// Hand out the finished query's outcome.
    pub fn into_outcome(self) -> (o: QueryOutcome)
        requires
            self.wf(),
            self@.phase is Finished,
        ensures
            self@.outcome == Some(o@),
    {
        self.outcome.unwrap()
    }
}

/// Schema-shape robustness: if retrieving the column count fails outright,
/// the machine finishes the query with an error outcome carrying the
/// describe failure's message — it never reaches the fetch loop, and the
/// error state is terminal.
pub proof fn lemma_describe_failure(m: ExecModel, detail: Seq<char>)
    requires
        m.wf(),
        m.phase is CountColumns,
    ensures
        step_column_count(m, Err(detail)).finished_with(
            OutcomeModel::Error(results_error_message(detail)),
        ),
{
}

/// The descriptor list matches the reported column count: when the describe
/// walk closes its window, exactly one descriptor stands for each of the
/// 1-based columns `1..=total`, and fetching begins.
pub proof fn lemma_descriptor_count(m: ExecModel, d: ColumnModel)
    requires
        m.wf(),
        m.phase matches Phase::DescribeColumns { total, next } && next == total,
    ensures
        step_column(m, d).descriptors.len() == m.phase->DescribeColumns_total,
        step_column(m, d).phase is FetchRow,
{
}

/// The terminal state is absorbing: a finished machine asks for no further
/// driver call, so once a query's outcome — error or rows — is reached, no
/// step of that query runs again.
pub proof fn lemma_finished_is_absorbing(m: ExecModel)
    requires
        m.phase is Finished,
    ensures
        action_of(m) == Action::Finished,
{
}

/// Fail-fast per row: a cell-extraction failure at any column of any row
/// finishes the whole query with a lone error outcome. The rows already
/// extracted in this query are discarded — the outcome is the error, never a
/// partial rows list.
pub proof fn lemma_cell_failure_fails_query(m: ExecModel, detail: Seq<char>)
    requires
        m.wf(),
        m.phase is ReadCells,
    ensures
        step_cell(m, Err(detail)).finished_with(
            OutcomeModel::Error(data_error_message(detail)),
        ),
        forall|rows: Seq<RecordModel>|
            step_cell(m, Err(detail)).outcome != Some(OutcomeModel::Rows(rows)),
{
}

} // verus!
