use panopticonbackend::codec::WireRecord;
use panopticonbackend::loader::{CommitResult, Ingestion, LoaderAction, Phase, StoreEvent, StoreFault};
use panopticonbackend::registry::{IngestError, StagingRecord};
use panopticonbackend::staging::{MpesaStatementInsert, SidianInsert};
use panopticonbackend::wire::{Float8, WireValue};

/// A staging table with transactions, answering the loader's actions.
struct MemoryTable {
    committed: Vec<Vec<WireValue>>,
    pending: Vec<Vec<WireValue>>,
    in_transaction: bool,
}

impl MemoryTable {
    fn new() -> Self {
        MemoryTable { committed: Vec::new(), pending: Vec::new(), in_transaction: false }
    }

    fn perform(&mut self, action: LoaderAction, fail: Option<StoreFault>) -> StoreEvent {
        if let Some(f) = fail {
            if let LoaderAction::Commit = action {
                self.pending.clear();
                self.in_transaction = false;
            }
            return StoreEvent::Failed(f);
        }
        match action {
            LoaderAction::BeginTransaction => {
                self.pending.clear();
                self.in_transaction = true;
            }
            LoaderAction::WriteRow(row) => {
                assert!(self.in_transaction);
                self.pending.push(row);
            }
            LoaderAction::Commit => {
                self.committed.append(&mut self.pending);
                self.in_transaction = false;
            }
            LoaderAction::Rollback => {
                self.pending.clear();
                self.in_transaction = false;
            }
            _ => {}
        }
        StoreEvent::Done
    }
}

/// Runs one ingestion against the table; the store fails the request at
/// position `fail_at` (counting from the first) with the given fault.
fn ingest<T: StagingRecord>(
    table: &mut MemoryTable,
    records: &Vec<T>,
    fail_at: Option<(usize, StoreFault)>,
) -> (Result<CommitResult, IngestError>, Vec<String>) {
    let (mut session, mut action) = Ingestion::start(records);
    let mut trace = Vec::new();
    let mut n = 0usize;
    loop {
        trace.push(format!("{:?}", action).split(|c: char| !c.is_alphanumeric()).next().unwrap().to_string());
        if let LoaderAction::Finished(r) = action {
            assert_eq!(session.phase(), Phase::Done);
            return (r, trace);
        }
        let fail = match fail_at {
            Some((k, f)) if k == n => Some(f),
            _ => None,
        };
        let ev = table.perform(action, fail);
        action = session.on_event(ev);
        n += 1;
    }
}

fn f8(x: f64) -> Float8 {
    Float8 { bits: x.to_bits() }
}

fn mpesa(receipt: &str, balance: Option<f64>) -> MpesaStatementInsert {
    MpesaStatementInsert {
        receipt_no: receipt.to_string(),
        completion_time: "2024-03-01 10:15:00".to_string(),
        initiation_time: "2024-03-01 10:14:00".to_string(),
        details: "Pay Bill from 2547XXXXXXXX".to_string(),
        transaction_status: "Completed".to_string(),
        paid_in: Some(f8(1500.0)),
        withdrawn: None,
        balance: balance.map(f8),
        balance_confirmed: true,
        reason_type: "Pay Bill Online".to_string(),
        other_party_info: "JOHN DOE".to_string(),
        linked_transaction_id: None,
        ac_no: "BILL-001".to_string(),
    }
}

#[test]
fn committed_batch_reports_its_count() {
    let mut table = MemoryTable::new();
    table.committed.push(mpesa("OLD0", Some(1.0)).encode());
    let batch = vec![mpesa("R1", Some(10.0)), mpesa("R2", Some(20.0)), mpesa("R3", Some(30.0))];
    let (r, trace) = ingest(&mut table, &batch, None);
    assert_eq!(r, Ok(CommitResult { count: 3 }));
    assert_eq!(table.committed.len(), 4);
    assert_eq!(
        trace,
        vec!["BeginTransaction", "Prepare", "OpenStream", "WriteRow", "WriteRow", "WriteRow", "FinishStream", "Commit", "Finished"]
    );
}

#[test]
fn stored_rows_keep_batch_order() {
    let mut table = MemoryTable::new();
    let batch = vec![mpesa("R1", Some(10.0)), mpesa("R2", Some(20.0)), mpesa("R3", Some(30.0))];
    let (r, _) = ingest(&mut table, &batch, None);
    assert!(r.is_ok());
    let back: Vec<String> = table
        .committed
        .iter()
        .map(|row| MpesaStatementInsert::decode(row).unwrap().receipt_no)
        .collect();
    assert_eq!(back, vec!["R1", "R2", "R3"]);
}

#[test]
fn empty_batch_commits_nothing() {
    let mut table = MemoryTable::new();
    let batch: Vec<MpesaStatementInsert> = Vec::new();
    let (r, _) = ingest(&mut table, &batch, None);
    assert_eq!(r, Ok(CommitResult { count: 0 }));
    assert!(table.committed.is_empty());
}

#[test]
fn violation_at_first_record_leaves_table_unchanged() {
    let mut table = MemoryTable::new();
    table.committed.push(mpesa("OLD0", Some(1.0)).encode());
    let batch = vec![mpesa("R1", None), mpesa("R2", Some(20.0))];
    let (r, trace) = ingest(&mut table, &batch, None);
    assert_eq!(r, Err(IngestError::SchemaViolation { record: 0, column: "balance" }));
    assert_eq!(table.committed.len(), 1);
    assert!(!trace.contains(&"WriteRow".to_string()));
    assert!(trace.contains(&"Rollback".to_string()));
}

#[test]
fn violation_after_written_rows_rolls_them_back() {
    let mut table = MemoryTable::new();
    let batch = vec![mpesa("R1", Some(1.0)), mpesa("R2", Some(2.0)), mpesa("R3", None)];
    let (r, trace) = ingest(&mut table, &batch, None);
    assert_eq!(r, Err(IngestError::SchemaViolation { record: 2, column: "balance" }));
    assert!(table.committed.is_empty());
    assert!(table.pending.is_empty());
    assert_eq!(trace.iter().filter(|t| *t == "WriteRow").count(), 2);
}

#[test]
fn connection_failure_while_streaming_aborts() {
    let mut table = MemoryTable::new();
    let batch = vec![mpesa("R1", Some(1.0)), mpesa("R2", Some(2.0))];
    // requests: begin, prepare, open, write, write, ...
    let (r, _) = ingest(&mut table, &batch, Some((4, StoreFault::Connection)));
    assert_eq!(r, Err(IngestError::ConnectionError));
    assert!(table.committed.is_empty());
}

#[test]
fn constraint_failure_aborts() {
    let mut table = MemoryTable::new();
    let batch = vec![mpesa("R1", Some(1.0))];
    let (r, _) = ingest(&mut table, &batch, Some((3, StoreFault::Constraint)));
    assert_eq!(r, Err(IngestError::ConstraintViolation));
    assert!(table.committed.is_empty());
}

#[test]
fn failed_commit_is_reported_and_nothing_visible() {
    let mut table = MemoryTable::new();
    let batch = vec![mpesa("R1", Some(1.0)), mpesa("R2", Some(2.0))];
    // begin, prepare, open, write, write, finish, commit
    let (r, _) = ingest(&mut table, &batch, Some((6, StoreFault::Constraint)));
    assert_eq!(r, Err(IngestError::CommitFailed));
    assert!(table.committed.is_empty());
}

#[test]
fn failed_begin_reports_connection_error() {
    let mut table = MemoryTable::new();
    let batch = vec![mpesa("R1", Some(1.0))];
    let (r, trace) = ingest(&mut table, &batch, Some((0, StoreFault::Connection)));
    assert_eq!(r, Err(IngestError::ConnectionError));
    assert_eq!(trace, vec!["BeginTransaction", "Rollback", "Finished"]);
}

#[test]
fn prepare_names_the_insert_template_and_table() {
    let batch = vec![SidianInsert {
        date: "01/03/2024".to_string(),
        valuedate: None,
        reference: Some("REF".to_string()),
        narration: None,
        chequenumber: None,
        debit: None,
        credit: Some(f8(250.5)),
        balance: f8(1000.0),
    }];
    let (mut s, a) = Ingestion::start(&batch);
    assert!(matches!(a, LoaderAction::BeginTransaction));
    match s.on_event(StoreEvent::Done) {
        LoaderAction::Prepare { template } => assert_eq!(template, "update_sidian_statement"),
        other => panic!("unexpected {:?}", other),
    }
    match s.on_event(StoreEvent::Done) {
        LoaderAction::OpenStream { table } => assert_eq!(table, "staging.sidian_statement"),
        other => panic!("unexpected {:?}", other),
    }
    assert_eq!(s.columns().len(), 8);
    match s.on_event(StoreEvent::Done) {
        LoaderAction::WriteRow(row) => {
            assert_eq!(row.len(), 8);
            assert_eq!(row[6], WireValue::Float8(f8(250.5)));
            assert_eq!(row[1], WireValue::Null);
        }
        other => panic!("unexpected {:?}", other),
    }
    assert_eq!(SidianInsert::kind().name(), "sidian");
}
