//! The bulk loader: the decisions of one all-or-nothing ingestion.
//!
//! An [`Ingestion`] never touches the store itself. It hands out one
//! [`LoaderAction`] at a time; the caller performs it against the store and
//! reports the answer as a [`StoreEvent`], from which the session decides the
//! next action. Every failure before the commit asks for a rollback first; a
//! failed commit leaves no transaction behind to roll back.
use vstd::prelude::*;
use crate::codec::WireRecord;
use crate::registry::{IngestError, StagingRecord, schema_of, table_name, template_name};
use crate::schema::{Column, DecodeError, check_row, conforms, first_fault};
use crate::wire::{Cell, WireValue, cells_of};

verus! {

/// The outcome of a committed ingestion: how many rows were written.
#[derive(Clone, Copy, Debug, PartialEq, Eq, Structural)]
pub struct CommitResult {
    pub count: usize,
}

/// How a store request failed.
#[derive(Clone, Copy, Debug, PartialEq, Eq, Structural)]
pub enum StoreFault {
    /// The connection or the transport failed.
    Connection,
    /// The store refused the request under one of its integrity rules.
    Constraint,
}

/// The store's answer to the last action.
#[derive(Clone, Copy, Debug, PartialEq, Eq, Structural)]
pub enum StoreEvent {
    Done,
    Failed(StoreFault),
}

/// Where an ingestion stands: which request it awaits the answer to.
#[derive(Clone, Copy, Debug, PartialEq, Eq, Structural)]
pub enum Phase {
    Begin,
    Prepare,
    Open,
    Write,
    Finish,
    Commit,
    Rollback,
    Done,
}

/// What the session asks of the store next.
#[derive(Debug)]
pub enum LoaderAction {
    /// Begin one transaction for the whole batch.
    BeginTransaction,
    /// Prepare the insert statement of the named template.
    Prepare { template: &'static str },
    /// Open the bulk column-write stream into the named table, bound to the
    /// prepared statement and to the declared columns in order.
    OpenStream { table: &'static str },
    /// Append one row to the stream.
    WriteRow(Vec<WireValue>),
    /// Flush and close the stream.
    FinishStream,
    /// Commit the transaction.
    Commit,
    /// Roll the transaction back.
    Rollback,
    /// Nothing more is asked; this is the ingestion's outcome.
    Finished(Result<CommitResult, IngestError>),
}

/// The mathematical value of a [`LoaderAction`].
pub enum Request {
    Begin,
    Prepare(&'static str),
    OpenStream(&'static str),
    WriteRow(Seq<Cell>),
    FinishStream,
    Commit,
    Rollback,
    Finished(Result<CommitResult, IngestError>),
}

impl View for LoaderAction {
    type V = Request;

    open spec fn view(&self) -> Request {
        match self {
            LoaderAction::BeginTransaction => Request::Begin,
            LoaderAction::Prepare { template } => Request::Prepare(*template),
            LoaderAction::OpenStream { table } => Request::OpenStream(*table),
            LoaderAction::WriteRow(row) => Request::WriteRow(cells_of(row@)),
            LoaderAction::FinishStream => Request::FinishStream,
            LoaderAction::Commit => Request::Commit,
            LoaderAction::Rollback => Request::Rollback,
            LoaderAction::Finished(r) => Request::Finished(*r),
        }
    }
}

/// The mathematical state of an [`Ingestion`].
pub struct IngestionState {
    pub table: &'static str,
    pub template: &'static str,
    pub columns: Seq<Column>,
    /// The encoded records of the batch, in batch order.
    pub rows: Seq<Seq<Cell>>,
    pub phase: Phase,
    /// How many rows have been handed out for writing.
    pub next: nat,
    pub outcome: Option<Result<CommitResult, IngestError>>,
}

/// The encoded rows of a batch of records, in batch order.
pub open spec fn batch_rows<T: WireRecord>(records: Seq<T>) -> Seq<Seq<Cell>> {
    records.map_values(|r: T| r.cells())
}

/// The state in which an ingestion of the given rows starts.
pub open spec fn initial(
    table: &'static str,
    template: &'static str,
    columns: Seq<Column>,
    rows: Seq<Seq<Cell>>,
) -> IngestionState {
    IngestionState { table, template, columns, rows, phase: Phase::Begin, next: 0, outcome: None }
}

/// The column named by a cell fault.
pub open spec fn fault_column(e: DecodeError) -> &'static str {
    match e {
        DecodeError::MissingRequiredField(c) => c,
        DecodeError::TypeMismatch(c) => c,
    }
}

/// The error of an ingestion whose record at position `k` does not conform.
pub open spec fn violation(columns: Seq<Column>, row: Seq<Cell>, k: nat) -> IngestError {
    IngestError::SchemaViolation {
        record: k as usize,
        column: fault_column(first_fault(columns, row).unwrap()),
    }
}

/// The error that a failed store request before the commit stands for.
pub open spec fn fault_error(f: StoreFault) -> IngestError {
    match f {
        StoreFault::Connection => IngestError::ConnectionError,
        StoreFault::Constraint => IngestError::ConstraintViolation,
    }
}

/// The next step of the stream: write the next row if it conforms, abort at
/// the first row that does not, finish once every row is written.
pub open spec fn advance(s: IngestionState) -> IngestionState {
    if s.next < s.rows.len() {
        if conforms(s.columns, s.rows[s.next as int]) {
            IngestionState { phase: Phase::Write, next: s.next + 1, ..s }
        } else {
            IngestionState {
                phase: Phase::Rollback,
                outcome: Some(Err(violation(s.columns, s.rows[s.next as int], s.next))),
                ..s
            }
        }
    } else {
        IngestionState { phase: Phase::Finish, ..s }
    }
}

/// How an ingestion moves on the store's answer to the request it awaits.
pub open spec fn step(s: IngestionState, ev: StoreEvent) -> IngestionState {
    match s.phase {
        Phase::Done => s,
        Phase::Rollback => IngestionState { phase: Phase::Done, ..s },
        Phase::Commit => match ev {
            StoreEvent::Done => IngestionState {
                phase: Phase::Done,
                outcome: Some(Ok(CommitResult { count: s.rows.len() as usize })),
                ..s
            },
            StoreEvent::Failed(_) => IngestionState {
                phase: Phase::Done,
                outcome: Some(Err(IngestError::CommitFailed)),
                ..s
            },
        },
        _ => match ev {
            StoreEvent::Failed(f) => IngestionState {
                phase: Phase::Rollback,
                outcome: Some(Err(fault_error(f))),
                ..s
            },
            StoreEvent::Done => match s.phase {
                Phase::Begin => IngestionState { phase: Phase::Prepare, ..s },
                Phase::Prepare => IngestionState { phase: Phase::Open, ..s },
                Phase::Finish => IngestionState { phase: Phase::Commit, ..s },
                _ => advance(s),
            },
        },
    }
}

/// The request that a state awaits the answer to; in the final state, the
/// outcome.
pub open spec fn awaited(s: IngestionState) -> Request {
    match s.phase {
        Phase::Begin => Request::Begin,
        Phase::Prepare => Request::Prepare(s.template),
        Phase::Open => Request::OpenStream(s.table),
        Phase::Write => Request::WriteRow(s.rows[s.next - 1]),
        Phase::Finish => Request::FinishStream,
        Phase::Commit => Request::Commit,
        Phase::Rollback => Request::Rollback,
        Phase::Done => Request::Finished(s.outcome.unwrap()),
    }
}

/// The invariant of an ingestion: the rows handed out never outrun the
/// batch, and an ingestion holds an outcome exactly once it is settled.
pub open spec fn state_wf(s: IngestionState) -> bool {
    &&& s.next <= s.rows.len()
    &&& s.phase == Phase::Write ==> s.next >= 1
    &&& (s.phase == Phase::Rollback || s.phase == Phase::Done) <==> s.outcome is Some
}

/// One ingestion of a batch into the staging table of its statement type.
pub struct Ingestion {
    table: &'static str,
    template: &'static str,
    columns: Vec<Column>,
    rows: Vec<Vec<WireValue>>,
    phase: Phase,
    next: usize,
    outcome: Option<Result<CommitResult, IngestError>>,
}

impl View for Ingestion {
    type V = IngestionState;

    closed spec fn view(&self) -> IngestionState {
        IngestionState {
            table: self.table,
            template: self.template,
            columns: self.columns@,
            rows: self.rows@.map_values(|r: Vec<WireValue>| cells_of(r@)),
            phase: self.phase,
            next: self.next as nat,
            outcome: self.outcome,
        }
    }
}

/// A copy of a row of wire values.
fn copy_row(row: &Vec<WireValue>) -> (r: Vec<WireValue>)
    ensures
        cells_of(r@) == cells_of(row@),
{
    let mut r: Vec<WireValue> = Vec::with_capacity(row.len());
    let mut i: usize = 0;
    while i < row.len()
        invariant
            i <= row.len(),
            r@.len() == i,
            forall|j: int| 0 <= j < i ==> r@[j]@ == row@[j]@,
        decreases row.len() - i,
    {
        let v = match &row[i] {
            WireValue::Null => WireValue::Null,
            WireValue::Text(s) => WireValue::Text(s.clone()),
            WireValue::Float8(f) => WireValue::Float8(*f),
            WireValue::Bool(b) => WireValue::Bool(*b),
            WireValue::Int4(n) => WireValue::Int4(*n),
            WireValue::Timestamp(t) => WireValue::Timestamp(*t),
            WireValue::Date(d) => WireValue::Date(*d),
        };
        r.push(v);
        i = i + 1;
    }
    assert(cells_of(r@) =~= cells_of(row@));
    r
}

impl Ingestion {
    /// The session's invariant.
    pub open spec fn wf(&self) -> bool {
        state_wf(self@)
    }

    /// Starts the ingestion of a batch of records of one statement type: the
    /// records are encoded in batch order, and the first action begins the
    /// transaction.
    pub fn start<T: StagingRecord>(records: &Vec<T>) -> (r: (Ingestion, LoaderAction))
        ensures
            r.0.wf(),
            r.0@ == initial(
                table_name(T::kind_spec()),
                template_name(T::kind_spec()),
                T::columns(),
                batch_rows(records@),
            ),
            r.1@ == awaited(r.0@),
    {
        let schema = schema_of(T::kind());
        let mut rows: Vec<Vec<WireValue>> = Vec::with_capacity(records.len());
        let mut i: usize = 0;
        while i < records.len()
            invariant
                i <= records.len(),
                rows@.len() == i,
                forall|j: int| 0 <= j < i ==> cells_of(#[trigger] rows@[j]@) == records@[j].cells(),
            decreases records.len() - i,
        {
            rows.push(records[i].encode());
            i = i + 1;
        }
        let s = Ingestion {
            table: schema.table,
            template: schema.insert_template,
            columns: schema.columns,
            rows,
            phase: Phase::Begin,
            next: 0,
            outcome: None,
        };
        assert(s@.rows =~= batch_rows(records@));
        (s, LoaderAction::BeginTransaction)
    }
    /// The request this ingestion awaits the answer to, as an action.
    fn awaited_action(&self) -> (r: LoaderAction)
        requires
            self.wf(),
        ensures
            r@ == awaited(self@),
    {
        match self.phase {
            Phase::Begin => LoaderAction::BeginTransaction,
            Phase::Prepare => LoaderAction::Prepare { template: self.template },
            Phase::Open => LoaderAction::OpenStream { table: self.table },
            Phase::Write => {
                let row = copy_row(&self.rows[self.next - 1]);
                assert(self@.rows[self.next - 1] == cells_of(self.rows@[self.next - 1]@));
                LoaderAction::WriteRow(row)
            },
            Phase::Finish => LoaderAction::FinishStream,
            Phase::Commit => LoaderAction::Commit,
            Phase::Rollback => LoaderAction::Rollback,
            Phase::Done => LoaderAction::Finished(self.outcome.unwrap()),
        }
    }

    /// Moves past the rows handed out so far: hands out the next row if it
    /// conforms to the declared columns, settles on a schema violation at the
    /// first row that does not, and closes the stream once every row is out.
    fn advance(&mut self)
        requires
            old(self).wf(),
            old(self).phase == Phase::Open || old(self).phase == Phase::Write,
        ensures
            final(self).wf(),
            final(self)@ == advance(old(self)@),
    {
        if self.next < self.rows.len() {
            let k = self.next;
            proof {
                assert(self@.rows[k as int] == cells_of(self.rows@[k as int]@));
            }
            match check_row(&self.columns, &self.rows[k]) {
                Ok(()) => {
                    self.phase = Phase::Write;
                    self.next = k + 1;
                },
                Err(e) => {
                    let column = match e {
                        DecodeError::MissingRequiredField(c) => c,
                        DecodeError::TypeMismatch(c) => c,
                    };
                    self.phase = Phase::Rollback;
                    self.outcome = Some(Err(IngestError::SchemaViolation { record: k, column }));
                },
            }
        } else {
            self.phase = Phase::Finish;
        }
    }

    /// Takes the store's answer to the last action and returns the next one.
    pub fn on_event(&mut self, ev: StoreEvent) -> (r: LoaderAction)
        requires
            old(self).wf(),
        ensures
            final(self).wf(),
            final(self)@ == step(old(self)@, ev),
            r@ == awaited(final(self)@),
    {
        match self.phase {
            Phase::Done => {},
            Phase::Rollback => {
                self.phase = Phase::Done;
            },
            Phase::Commit => {
                match ev {
                    StoreEvent::Done => {
                        self.outcome = Some(Ok(CommitResult { count: self.rows.len() }));
                    },
                    StoreEvent::Failed(_) => {
                        self.outcome = Some(Err(IngestError::CommitFailed));
                    },
                }
                self.phase = Phase::Done;
            },
            _ => match ev {
                StoreEvent::Failed(f) => {
                    let e = match f {
                        StoreFault::Connection => IngestError::ConnectionError,
                        StoreFault::Constraint => IngestError::ConstraintViolation,
                    };
                    self.phase = Phase::Rollback;
                    self.outcome = Some(Err(e));
                },
                StoreEvent::Done => match self.phase {
                    Phase::Begin => {
                        self.phase = Phase::Prepare;
                    },
                    Phase::Prepare => {
                        self.phase = Phase::Open;
                    },
                    Phase::Finish => {
                        self.phase = Phase::Commit;
                    },
                    _ => {
                        self.advance();
                    },
                },
            },
        }
        self.awaited_action()
    }

    /// The phase the ingestion is in.
    pub fn phase(&self) -> (r: Phase)
        ensures
            r == self@.phase,
    {
        self.phase
    }

    /// The declared columns that the stream is bound to, in order.
    pub fn columns(&self) -> (r: &Vec<Column>)
        ensures
            r@ == self@.columns,
    {
        &self.columns
    }
}

} // verus!
