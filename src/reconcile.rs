//! The reconciliation of collection records against the M-Pesa ledger.
use vstd::prelude::*;
use crate::codec::{
    WireRecord, text_cell, text_value, text_at, opt_text_cell, opt_text_value, opt_text_at,
    opt_float_cell, opt_float_value, opt_float_at, ts_cell, ts_value, ts_at,
};
use crate::schema::{Column, DecodeError, check_row, lemma_conforms, padded};
use crate::wire::{Cell, Float8, Timestamp, WireType, WireValue, cells_of};
use crate::production::{CollectionDetails, MpesaStatement};

verus! {
/// One reconciled M-Pesa collection: a collection record of the billing
/// system paired with the M-Pesa statement line that pays the same bill.
#[derive(Debug)]
pub struct ReconciledMpesa {
    pub billing_number: String,
    pub cashier: Option<String>,
    pub receipt_date: Timestamp,
    pub patient_name: Option<String>,
    pub mpesa: Option<Float8>,
    pub transaction_code: String,
    pub comments: String,
}

impl WireRecord for ReconciledMpesa {
    open spec fn columns() -> Seq<Column> {
        seq![
            Column { name: "billing_number", wire_type: WireType::Text, nullable: false },
            Column { name: "cashier", wire_type: WireType::Text, nullable: true },
            Column { name: "receipt_date", wire_type: WireType::Timestamp, nullable: false },
            Column { name: "patient_name", wire_type: WireType::Text, nullable: true },
            Column { name: "mpesa", wire_type: WireType::Float8, nullable: true },
            Column { name: "transaction_code", wire_type: WireType::Text, nullable: false },
            Column { name: "comments", wire_type: WireType::Text, nullable: false },
        ]
    }

    open spec fn cells(&self) -> Seq<Cell> {
        seq![
            text_cell(self.billing_number),
            opt_text_cell(self.cashier),
            ts_cell(self.receipt_date),
            opt_text_cell(self.patient_name),
            opt_float_cell(self.mpesa),
            text_cell(self.transaction_code),
            text_cell(self.comments),
        ]
    }

    fn column_list() -> (r: Vec<Column>) {
        let r = vec![
            Column { name: "billing_number", wire_type: WireType::Text, nullable: false },
            Column { name: "cashier", wire_type: WireType::Text, nullable: true },
            Column { name: "receipt_date", wire_type: WireType::Timestamp, nullable: false },
            Column { name: "patient_name", wire_type: WireType::Text, nullable: true },
            Column { name: "mpesa", wire_type: WireType::Float8, nullable: true },
            Column { name: "transaction_code", wire_type: WireType::Text, nullable: false },
            Column { name: "comments", wire_type: WireType::Text, nullable: false },
        ];
        assert(r@ =~= Self::columns());
        r
    }

    fn encode(&self) -> (r: Vec<WireValue>) {
        let r = vec![
            text_value(&self.billing_number),
            opt_text_value(&self.cashier),
            ts_value(&self.receipt_date),
            opt_text_value(&self.patient_name),
            opt_float_value(&self.mpesa),
            text_value(&self.transaction_code),
            text_value(&self.comments),
        ];
        assert(cells_of(r@) =~= self.cells());
        r
    }

    fn decode(row: &Vec<WireValue>) -> (r: Result<Self, DecodeError>) {
        let cols = Self::column_list();
        if let Err(e) = check_row(&cols, row) {
            return Err(e);
        }
        let ghost c = cells_of(row@);
        proof {
            lemma_conforms(Self::columns(), c);
        }
        let r = ReconciledMpesa {
            billing_number: text_at(row, 0),
            cashier: opt_text_at(row, 1),
            receipt_date: ts_at(row, 2),
            patient_name: opt_text_at(row, 3),
            mpesa: opt_float_at(row, 4),
            transaction_code: text_at(row, 5),
            comments: text_at(row, 6),
        };
        assert(r.cells() =~= padded(c, 7));
        Ok(r)
    }

    proof fn lemma_aligned(&self) {
    }
}

/// The calendar day written as `YYYY-MM-DD` in `s`, numbered as in
/// [`Timestamp::day`]; `None` when `s` names no calendar day in that form.
pub uninterp spec fn calendar_day_of(s: Seq<char>) -> Option<i32>;

/// Relies on chrono's `NaiveDate::parse_from_str` with the format `%Y-%m-%d`
/// to read the date, and on `Datelike::num_days_from_ce` for its day number:
/// both depend on the text alone.
#[verifier::external_body]
fn parse_calendar_day(s: &str) -> (r: Option<i32>)
    ensures
        r == calendar_day_of(s@),
{
    match chrono::NaiveDate::parse_from_str(s, "%Y-%m-%d") {
        Ok(d) => Some(chrono::Datelike::num_days_from_ce(&d)),
        Err(_) => None,
    }
}

/// Why a reconciliation was refused.
#[derive(Clone, Copy, Debug, PartialEq, Eq, Structural)]
pub enum ReconcileError {
    /// The requested date is not a calendar day written as `YYYY-MM-DD`.
    InvalidDate,
}

/// The billing reference of a collection record and of a statement line
/// agree: both are present and equal, and the collection falls on `day`.
pub open spec fn pairs_with(day: i32, p: CollectionDetails, l: MpesaStatement) -> bool {
    &&& p.receipt_date.day == day
    &&& p.receipt_no is Some
    &&& l.ac_no is Some
    &&& p.receipt_no.unwrap()@ == l.ac_no.unwrap()@
}

/// The cells of the reconciled record of a matched pair.
pub open spec fn paired_cells(p: CollectionDetails, l: MpesaStatement) -> Seq<Cell> {
    seq![
        text_cell(p.receipt_no.unwrap()),
        opt_text_cell(p.employee_name),
        ts_cell(p.receipt_date),
        opt_text_cell(p.patient_name),
        opt_float_cell(p.mpesa),
        text_cell(l.receipt_no),
        text_cell(l.details),
    ]
}

/// The reconciled records of one collection record, one per statement line
/// that it pairs with, in ledger order.
pub open spec fn matches_of(
    day: i32,
    p: CollectionDetails,
    ledger: Seq<MpesaStatement>,
) -> Seq<Seq<Cell>>
    decreases ledger.len(),
{
    if ledger.len() == 0 {
        Seq::empty()
    } else {
        let rest = matches_of(day, p, ledger.drop_last());
        if pairs_with(day, p, ledger.last()) {
            rest.push(paired_cells(p, ledger.last()))
        } else {
            rest
        }
    }
}

/// The inner join of the collection records that fall on `day` with the
/// statement lines by billing reference: collection records in order, each
/// followed by its matches in ledger order. A collection record without a
/// matching line contributes nothing.
pub open spec fn join(
    day: i32,
    primary: Seq<CollectionDetails>,
    ledger: Seq<MpesaStatement>,
) -> Seq<Seq<Cell>>
    decreases primary.len(),
{
    if primary.len() == 0 {
        Seq::empty()
    } else {
        join(day, primary.drop_last(), ledger) + matches_of(day, primary.last(), ledger)
    }
}

/// The cells of each of a sequence of reconciled records.
pub open spec fn reconciled_cells(rs: Seq<ReconciledMpesa>) -> Seq<Seq<Cell>> {
    rs.map_values(|r: ReconciledMpesa| r.cells())
}

fn copy_opt_text(o: &Option<String>) -> (r: Option<String>)
    ensures
        opt_text_cell(r) == opt_text_cell(*o),
{
    match o {
        Some(s) => Some(s.clone()),
        None => None,
    }
}

/// Whether a collection record falls on `day` and shares its billing
/// reference with a statement line.
pub fn pairs(day: i32, p: &CollectionDetails, l: &MpesaStatement) -> (r: bool)
    ensures
        r == pairs_with(day, *p, *l),
{
    if p.receipt_date.day != day {
        return false;
    }
    match &p.receipt_no {
        Some(a) => match &l.ac_no {
            Some(b) => a.eq(b),
            None => false,
        },
        None => false,
    }
}

/// The reconciled record of a matched pair.
fn pair(p: &CollectionDetails, l: &MpesaStatement) -> (r: ReconciledMpesa)
    requires
        p.receipt_no is Some,
    ensures
        r.cells() == paired_cells(*p, *l),
{
    let billing_number = match &p.receipt_no {
        Some(s) => s.clone(),
        None => String::new(),
    };
    let r = ReconciledMpesa {
        billing_number,
        cashier: copy_opt_text(&p.employee_name),
        receipt_date: p.receipt_date,
        patient_name: copy_opt_text(&p.patient_name),
        mpesa: p.mpesa,
        transaction_code: l.receipt_no.clone(),
        comments: l.details.clone(),
    };
    assert(r.cells() =~= paired_cells(*p, *l));
    r
}

/// Reconciles the collection records that fall on calendar day `day` with the
/// M-Pesa statement lines that carry the same billing reference.
pub fn reconcile_on_day(
    day: i32,
    primary: &Vec<CollectionDetails>,
    ledger: &Vec<MpesaStatement>,
) -> (r: Vec<ReconciledMpesa>)
    ensures
        reconciled_cells(r@) == join(day, primary@, ledger@),
{
    let mut r: Vec<ReconciledMpesa> = Vec::new();
    let mut i: usize = 0;
    while i < primary.len()
        invariant
            i <= primary.len(),
            reconciled_cells(r@) == join(day, primary@.take(i as int), ledger@),
        decreases primary.len() - i,
    {
        let p = &primary[i];
        let ghost before = reconciled_cells(r@);
        let mut j: usize = 0;
        while j < ledger.len()
            invariant
                i < primary.len(),
                j <= ledger.len(),
                p == primary@[i as int],
                reconciled_cells(r@) == before + matches_of(day, *p, ledger@.take(j as int)),
            decreases ledger.len() - j,
        {
            let l = &ledger[j];
            let ghost prev = r@;
            assert(ledger@.take(j + 1).drop_last() =~= ledger@.take(j as int));
            if pairs(day, p, l) {
                let rec = pair(p, l);
                r.push(rec);
                assert(reconciled_cells(r@) =~= reconciled_cells(prev).push(rec.cells()));
            }
            j = j + 1;
        }
        assert(ledger@.take(ledger.len() as int) =~= ledger@);
        assert(primary@.take(i + 1).drop_last() =~= primary@.take(i as int));
        i = i + 1;
    }
    assert(primary@.take(primary.len() as int) =~= primary@);
    r
}

/// Reconciles the collection records that fall on the date written as
/// `YYYY-MM-DD` in `date` with the M-Pesa statement lines that carry the same
/// billing reference; refuses a date that is not written so.
pub fn reconcile(
    date: &str,
    primary: &Vec<CollectionDetails>,
    ledger: &Vec<MpesaStatement>,
) -> (r: Result<Vec<ReconciledMpesa>, ReconcileError>)
    ensures
        match calendar_day_of(date@) {
            Some(day) => r is Ok && reconciled_cells(r->Ok_0@) == join(day, primary@, ledger@),
            None => r == Err::<Vec<ReconciledMpesa>, ReconcileError>(ReconcileError::InvalidDate),
        },
{
    match parse_calendar_day(date) {
        Some(day) => Ok(reconcile_on_day(day, primary, ledger)),
        None => Err(ReconcileError::InvalidDate),
    }
}

/// A collection record that no statement line pairs with has no matches.
proof fn lemma_no_matches(day: i32, p: CollectionDetails, ledger: Seq<MpesaStatement>)
    requires
        forall|j: int| 0 <= j < ledger.len() ==> !pairs_with(day, p, #[trigger] ledger[j]),
    ensures
        matches_of(day, p, ledger) == Seq::<Seq<Cell>>::empty(),
    decreases ledger.len(),
{
    if ledger.len() > 0 {
        lemma_no_matches(day, p, ledger.drop_last());
    }
}

/// Reconciliation is an inner join: a collection record that no statement
/// line pairs with, for want of a line with its billing reference or because
/// it falls on another day, adds no reconciled record.
pub proof fn lemma_unmatched_excluded(
    day: i32,
    primary: Seq<CollectionDetails>,
    p: CollectionDetails,
    ledger: Seq<MpesaStatement>,
)
    requires
        forall|j: int| 0 <= j < ledger.len() ==> !pairs_with(day, p, #[trigger] ledger[j]),
    ensures
        join(day, primary.push(p), ledger) == join(day, primary, ledger),
{
    lemma_no_matches(day, p, ledger);
    assert(primary.push(p).drop_last() =~= primary);
    assert(join(day, primary, ledger) + Seq::<Seq<Cell>>::empty() =~= join(day, primary, ledger));
}

/// Adding the one statement line that pairs with a collection record makes
/// that record appear in the reconciliation exactly once.
pub proof fn lemma_matched_once(
    day: i32,
    primary: Seq<CollectionDetails>,
    p: CollectionDetails,
    ledger: Seq<MpesaStatement>,
    l: MpesaStatement,
)
    requires
        forall|j: int| 0 <= j < ledger.len() ==> !pairs_with(day, p, #[trigger] ledger[j]),
        pairs_with(day, p, l),
    ensures
        join(day, primary.push(p), ledger.push(l)) == join(day, primary, ledger.push(l)).push(
            paired_cells(p, l),
        ),
{
    lemma_no_matches(day, p, ledger);
    assert(ledger.push(l).drop_last() =~= ledger);
    assert(primary.push(p).drop_last() =~= primary);
    assert(matches_of(day, p, ledger.push(l)) =~= seq![paired_cells(p, l)]);
    let before = join(day, primary, ledger.push(l));
    assert(before + seq![paired_cells(p, l)] =~= before.push(paired_cells(p, l)));
}

} // verus!
