//! What holds of ingestion and retrieval together, over a model of a
//! transactional store.
use vstd::prelude::*;
use crate::codec::WireRecord;
use crate::loader::{
    CommitResult, IngestionState, Phase, Request, StoreEvent, awaited, batch_rows, initial, state_wf,
    step, violation,
};
use crate::registry::{IngestError, StagingRecord, staging_columns, table_name, template_name};
use crate::schema::{
    Column, DecodeError, cell_at, cell_fault, conforms, fault_from, first_fault, padded,
};
use crate::wire::{Cell, WireValue, cells_of, type_of};

verus! {

/// A staging table under transactions: the rows every reader sees, and the
/// rows written in the open transaction, which no other reader sees.
pub struct StoreModel {
    pub committed: Seq<Seq<Cell>>,
    pub pending: Seq<Seq<Cell>>,
}

/// What one answered request does to the store. Beginning opens an empty
/// transaction, a written row joins it, a commit publishes it and a rollback
/// drops it. A failed request changes nothing that readers see, and a failed
/// commit drops the transaction.
pub open spec fn apply(m: StoreModel, req: Request, ev: StoreEvent) -> StoreModel {
    match req {
        Request::Begin => match ev {
            StoreEvent::Done => StoreModel { pending: Seq::empty(), ..m },
            StoreEvent::Failed(_) => m,
        },
        Request::WriteRow(r) => match ev {
            StoreEvent::Done => StoreModel { pending: m.pending.push(r), ..m },
            StoreEvent::Failed(_) => m,
        },
        Request::Commit => match ev {
            StoreEvent::Done => StoreModel { committed: m.committed + m.pending, pending: Seq::empty() },
            StoreEvent::Failed(_) => StoreModel { pending: Seq::empty(), ..m },
        },
        Request::Rollback => StoreModel { pending: Seq::empty(), ..m },
        _ => m,
    }
}

/// An ingestion and the store after the store has answered with `evs`, one
/// answer per awaited request, in order.
pub open spec fn run(s: IngestionState, m: StoreModel, evs: Seq<StoreEvent>) -> (IngestionState, StoreModel)
    decreases evs.len(),
{
    if evs.len() == 0 {
        (s, m)
    } else {
        run(step(s, evs[0]), apply(m, awaited(s), evs[0]), evs.drop_first())
    }
}

/// The rows `0 .. n` of the batch all conform to the declared columns.
pub open spec fn prefix_conforms(s: IngestionState, n: int) -> bool {
    forall|j: int| 0 <= j < n ==> conforms(s.columns, #[trigger] s.rows[j])
}

/// How the store stands against an ingestion that started when the store
/// held `base`.
pub open spec fn tracks(s: IngestionState, m: StoreModel, base: Seq<Seq<Cell>>) -> bool {
    &&& state_wf(s)
    &&& match s.phase {
        Phase::Begin => m.committed == base && s.next == 0,
        Phase::Prepare | Phase::Open => m.committed == base && m.pending == Seq::<Seq<Cell>>::empty()
            && s.next == 0,
        Phase::Write => m.committed == base && m.pending == s.rows.take(s.next - 1)
            && prefix_conforms(s, s.next as int),
        Phase::Finish | Phase::Commit => m.committed == base && m.pending == s.rows
            && s.next == s.rows.len() && prefix_conforms(s, s.next as int),
        Phase::Rollback => m.committed == base && s.outcome matches Some(Err(_)),
        Phase::Done => match s.outcome {
            Some(Ok(c)) => c.count == s.rows.len() && m.committed == base + s.rows
                && prefix_conforms(s, s.rows.len() as int),
            Some(Err(_)) => m.committed == base,
            None => false,
        },
    }
}

/// A step keeps the batch and the store in step with each other.
proof fn lemma_step_tracks(s: IngestionState, m: StoreModel, base: Seq<Seq<Cell>>, ev: StoreEvent)
    requires
        tracks(s, m, base),
        s.rows.len() <= usize::MAX,
    ensures
        tracks(step(s, ev), apply(m, awaited(s), ev), base),
        step(s, ev).rows == s.rows,
        step(s, ev).columns == s.columns,
{
    let t = step(s, ev);
    let m2 = apply(m, awaited(s), ev);
    if s.phase == Phase::Write && ev == StoreEvent::Done {
        assert(m2.pending =~= s.rows.take(s.next as int));
        if s.next < s.rows.len() && conforms(s.columns, s.rows[s.next as int]) {
            assert(t.rows.take(t.next - 1) =~= s.rows.take(s.next as int));
        } else if s.next == s.rows.len() {
            assert(s.rows.take(s.next as int) =~= s.rows);
        }
    }
    if s.phase == Phase::Open && ev == StoreEvent::Done {
        if s.next < s.rows.len() && conforms(s.columns, s.rows[s.next as int]) {
            assert(t.rows.take(t.next - 1) =~= Seq::<Seq<Cell>>::empty());
        } else if s.next == s.rows.len() {
            assert(s.rows =~= Seq::<Seq<Cell>>::empty());
        }
    }
    if s.phase == Phase::Commit && ev == StoreEvent::Done {
        assert(m2.committed == base + s.rows);
    }
}

/// Any number of answers keeps the batch and the store in step.
proof fn lemma_run_tracks(s: IngestionState, m: StoreModel, base: Seq<Seq<Cell>>, evs: Seq<StoreEvent>)
    requires
        tracks(s, m, base),
        s.rows.len() <= usize::MAX,
    ensures
        tracks(run(s, m, evs).0, run(s, m, evs).1, base),
        run(s, m, evs).0.rows == s.rows,
        run(s, m, evs).0.columns == s.columns,
    decreases evs.len(),
{
    if evs.len() > 0 {
        lemma_step_tracks(s, m, base, evs[0]);
        lemma_run_tracks(step(s, evs[0]), apply(m, awaited(s), evs[0]), base, evs.drop_first());
    }
}

/// The state in which the ingestion of `records` starts.
pub open spec fn start_state<T: StagingRecord>(records: Seq<T>) -> IngestionState {
    initial(table_name(T::kind_spec()), template_name(T::kind_spec()), T::columns(), batch_rows(records))
}

proof fn lemma_start_tracks<T: StagingRecord>(records: Seq<T>, m: StoreModel)
    requires
        records.len() <= usize::MAX,
    ensures
        tracks(start_state(records), m, m.committed),
        start_state(records).rows.len() == records.len(),
{
}

/// Atomicity: when a record of the batch does not fit its schema, whatever
/// the store answers, a settled ingestion has failed and readers of the
/// staging table see exactly the rows they saw before it.
pub proof fn lemma_atomicity<T: StagingRecord>(records: Seq<T>, k: int, m: StoreModel, evs: Seq<StoreEvent>)
    requires
        records.len() <= usize::MAX,
        0 <= k < records.len(),
        !conforms(T::columns(), records[k].cells()),
    ensures
        run(start_state(records), m, evs).0.phase == Phase::Done ==> {
            &&& run(start_state(records), m, evs).0.outcome matches Some(Err(_))
            &&& run(start_state(records), m, evs).1.committed == m.committed
        },
{
    lemma_start_tracks(records, m);
    lemma_run_tracks(start_state(records), m, m.committed, evs);
    let s = run(start_state(records), m, evs).0;
    if s.phase == Phase::Done && s.outcome matches Some(Ok(_)) {
        assert(conforms(s.columns, s.rows[k]));
    }
}

/// Count fidelity: a committed ingestion reports the batch's record count,
/// and the staging table grows by exactly that many rows.
pub proof fn lemma_count_fidelity<T: StagingRecord>(records: Seq<T>, m: StoreModel, evs: Seq<StoreEvent>)
    requires
        records.len() <= usize::MAX,
    ensures
        run(start_state(records), m, evs).0.outcome matches Some(Ok(c)) ==> {
            &&& c.count == records.len()
            &&& run(start_state(records), m, evs).1.committed.len() == m.committed.len() + records.len()
        },
{
    lemma_start_tracks(records, m);
    lemma_run_tracks(start_state(records), m, m.committed, evs);
}

/// Order preservation: after a committed ingestion the staging table holds
/// the rows it held before, followed by the batch's records, each encoded,
/// in batch order.
pub proof fn lemma_order_preserved<T: StagingRecord>(records: Seq<T>, m: StoreModel, evs: Seq<StoreEvent>)
    requires
        records.len() <= usize::MAX,
    ensures
        run(start_state(records), m, evs).0.outcome matches Some(Ok(_)) ==> {
            &&& run(start_state(records), m, evs).1.committed.take(m.committed.len() as int) == m.committed
            &&& forall|i: int| 0 <= i < records.len() ==>
                run(start_state(records), m, evs).1.committed[m.committed.len() + i]
                    == (#[trigger] records[i]).cells()
        },
{
    lemma_start_tracks(records, m);
    lemma_run_tracks(start_state(records), m, m.committed, evs);
    let m2 = run(start_state(records), m, evs).1;
    if run(start_state(records), m, evs).0.outcome matches Some(Ok(_)) {
        assert(m2.committed.take(m.committed.len() as int) =~= m.committed);
        assert forall|i: int| 0 <= i < records.len() implies m2.committed[m.committed.len() + i]
            == (#[trigger] records[i]).cells() by {
            assert(batch_rows(records)[i] == records[i].cells());
        }
    }
}

/// `n` successful answers.
pub open spec fn all_done(n: nat) -> Seq<StoreEvent> {
    Seq::new(n, |i: int| StoreEvent::Done)
}

proof fn lemma_stream_commits(s: IngestionState, m: StoreModel)
    requires
        s.phase == Phase::Open || s.phase == Phase::Write,
        state_wf(s),
        s.rows.len() <= usize::MAX,
        forall|j: int| 0 <= j < s.rows.len() ==> conforms(s.columns, #[trigger] s.rows[j]),
    ensures
        run(s, m, all_done((s.rows.len() - s.next + 3) as nat)).0.outcome
            == Some(Ok::<CommitResult, IngestError>(CommitResult { count: s.rows.len() as usize })),
    decreases s.rows.len() - s.next,
{
    let n = (s.rows.len() - s.next + 3) as nat;
    assert(all_done(n).drop_first() =~= all_done((n - 1) as nat));
    let t = step(s, StoreEvent::Done);
    let m1 = apply(m, awaited(s), StoreEvent::Done);
    assert(run(s, m, all_done(n)) == run(t, m1, all_done((n - 1) as nat)));
    if s.next < s.rows.len() {
        lemma_stream_commits(t, m1);
    } else {
        let t2 = step(t, StoreEvent::Done);
        let m2 = apply(m1, awaited(t), StoreEvent::Done);
        assert(all_done((n - 1) as nat).drop_first() =~= all_done((n - 2) as nat));
        assert(run(t, m1, all_done((n - 1) as nat)) == run(t2, m2, all_done((n - 2) as nat)));
        let t3 = step(t2, StoreEvent::Done);
        let m3 = apply(m2, awaited(t2), StoreEvent::Done);
        assert(all_done((n - 2) as nat).drop_first() =~= all_done((n - 3) as nat));
        assert(run(t2, m2, all_done((n - 2) as nat)) == run(t3, m3, all_done((n - 3) as nat)));
        let committed = CommitResult { count: s.rows.len() as usize };
        assert(t3.outcome == Some(Ok::<CommitResult, IngestError>(committed)));
    }
}

/// Success is owed: when every record fits its schema and the store answers
/// every request with success, the ingestion commits with the batch's count.
pub proof fn lemma_commits_when_store_succeeds<T: StagingRecord>(records: Seq<T>, m: StoreModel)
    requires
        records.len() <= usize::MAX,
        forall|i: int| 0 <= i < records.len() ==> conforms(T::columns(), #[trigger] records[i].cells()),
    ensures
        run(start_state(records), m, all_done(records.len() + 5)).0.outcome
            == Some(Ok::<CommitResult, IngestError>(CommitResult { count: records.len() as usize })),
{
    let s0 = start_state(records);
    let n = (records.len() + 5) as nat;
    assert(all_done(n).drop_first() =~= all_done((n - 1) as nat));
    assert(all_done((n - 1) as nat).drop_first() =~= all_done((n - 2) as nat));
    let s1 = step(s0, StoreEvent::Done);
    let m1 = apply(m, awaited(s0), StoreEvent::Done);
    let s2 = step(s1, StoreEvent::Done);
    let m2 = apply(m1, awaited(s1), StoreEvent::Done);
    assert(run(s0, m, all_done(n)) == run(s1, m1, all_done((n - 1) as nat)));
    assert(run(s1, m1, all_done((n - 1) as nat)) == run(s2, m2, all_done((n - 2) as nat)));
    assert((n - 2) as nat == (s2.rows.len() - s2.next + 3) as nat);
    assert forall|j: int| 0 <= j < s2.rows.len() implies conforms(s2.columns, #[trigger] s2.rows[j]) by {
        assert(batch_rows(records)[j] == records[j].cells());
    }
    lemma_stream_commits(s2, m2);
}

proof fn lemma_stream_violation(s: IngestionState, m: StoreModel, k: int)
    requires
        s.phase == Phase::Open || s.phase == Phase::Write,
        state_wf(s),
        s.rows.len() <= usize::MAX,
        s.next <= k < s.rows.len(),
        forall|j: int| 0 <= j < k ==> conforms(s.columns, #[trigger] s.rows[j]),
        !conforms(s.columns, s.rows[k]),
    ensures
        run(s, m, all_done((k - s.next + 2) as nat)).0.outcome
            == Some(Err::<CommitResult, IngestError>(violation(s.columns, s.rows[k], k as nat))),
    decreases k - s.next,
{
    let n = (k - s.next + 2) as nat;
    assert(all_done(n).drop_first() =~= all_done((n - 1) as nat));
    let t = step(s, StoreEvent::Done);
    let m1 = apply(m, awaited(s), StoreEvent::Done);
    assert(run(s, m, all_done(n)) == run(t, m1, all_done((n - 1) as nat)));
    if s.next < k {
        lemma_stream_violation(t, m1, k);
    } else {
        let t2 = step(t, StoreEvent::Done);
        let m2 = apply(m1, awaited(t), StoreEvent::Done);
        assert(all_done((n - 1) as nat).drop_first() =~= all_done((n - 2) as nat));
        assert(run(t, m1, all_done((n - 1) as nat)) == run(t2, m2, all_done((n - 2) as nat)));
    }
}

/// The violation is reported exactly: when the record at `k` is the first
/// that does not fit its schema and the store answers every request with
/// success, the ingestion settles on the schema violation at `k`, naming the
/// record's first faulty column.
pub proof fn lemma_violation_reported<T: StagingRecord>(records: Seq<T>, k: int, m: StoreModel)
    requires
        records.len() <= usize::MAX,
        0 <= k < records.len(),
        forall|j: int| 0 <= j < k ==> conforms(T::columns(), #[trigger] records[j].cells()),
        !conforms(T::columns(), records[k].cells()),
    ensures
        run(start_state(records), m, all_done((k + 4) as nat)).0.outcome == Some(
            Err::<CommitResult, IngestError>(violation(T::columns(), records[k].cells(), k as nat)),
        ),
{
    let s0 = start_state(records);
    let n = (k + 4) as nat;
    assert(all_done(n).drop_first() =~= all_done((n - 1) as nat));
    assert(all_done((n - 1) as nat).drop_first() =~= all_done((n - 2) as nat));
    let s1 = step(s0, StoreEvent::Done);
    let m1 = apply(m, awaited(s0), StoreEvent::Done);
    let s2 = step(s1, StoreEvent::Done);
    let m2 = apply(m1, awaited(s1), StoreEvent::Done);
    assert(run(s0, m, all_done(n)) == run(s1, m1, all_done((n - 1) as nat)));
    assert(run(s1, m1, all_done((n - 1) as nat)) == run(s2, m2, all_done((n - 2) as nat)));
    assert forall|j: int| 0 <= j < k implies conforms(s2.columns, #[trigger] s2.rows[j]) by {
        assert(batch_rows(records)[j] == records[j].cells());
    }
    assert(batch_rows(records)[k] == records[k].cells());
    lemma_stream_violation(s2, m2, k);
}

/// Nullability round trip: a record that fits its schema, encoded and stored
/// as a row, conforms when read back, and the row's cells, absent columns read
/// as null, are the record's own: a null field decodes as absent and every
/// other field as its value.
pub proof fn lemma_round_trip<T: WireRecord>(r: T, row: Seq<WireValue>)
    requires
        conforms(T::columns(), r.cells()),
        cells_of(row) == r.cells(),
    ensures
        conforms(T::columns(), cells_of(row)),
        padded(cells_of(row), T::columns().len()) == r.cells(),
{
    r.lemma_aligned();
    assert(padded(cells_of(row), T::columns().len()) =~= r.cells());
}

/// Required-field enforcement: a row whose first faulty column is a
/// non-nullable one that is absent or null fails to decode with that
/// column's missing-field error.
pub proof fn lemma_required_field(cols: Seq<Column>, row: Seq<Cell>, i: int)
    requires
        0 <= i < cols.len(),
        !cols[i].nullable,
        cell_at(row, i) is Null,
        forall|j: int| 0 <= j < i ==> cell_fault(cols[j], #[trigger] cell_at(row, j)) is None,
    ensures
        first_fault(cols, row) == Some(DecodeError::MissingRequiredField(cols[i].name)),
{
    lemma_required_from(cols, row, i, 0);
}

proof fn lemma_required_from(cols: Seq<Column>, row: Seq<Cell>, i: int, j: int)
    requires
        0 <= j <= i < cols.len(),
        !cols[i].nullable,
        cell_at(row, i) is Null,
        forall|l: int| 0 <= l < i ==> cell_fault(cols[l], #[trigger] cell_at(row, l)) is None,
    ensures
        fault_from(cols, row, j) == Some(DecodeError::MissingRequiredField(cols[i].name)),
    decreases i - j,
{
    if j < i {
        lemma_required_from(cols, row, i, j + 1);
    }
}

/// Schema and codec alignment: for every statement type, the codec emits one
/// value per column the registry declares, each of the declared wire type or
/// null.
pub proof fn lemma_schema_codec_alignment<T: StagingRecord>(r: T)
    ensures
        r.cells().len() == staging_columns(T::kind_spec()).len(),
        forall|i: int| 0 <= i < r.cells().len() ==> #[trigger] r.cells()[i] is Null || type_of(r.cells()[i])
            == Some(staging_columns(T::kind_spec())[i].wire_type),
{
    T::lemma_kind_columns();
    r.lemma_aligned();
}

} // verus!
