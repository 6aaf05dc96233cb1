use chrono::{Datelike, NaiveDate};
use panopticonbackend::production::{CollectionDetails, MpesaStatement};
use panopticonbackend::reconcile::{ReconcileError, reconcile, reconcile_on_day};
use panopticonbackend::wire::{Float8, Timestamp};

fn day(y: i32, m: u32, d: u32) -> i32 {
    NaiveDate::from_ymd_opt(y, m, d).unwrap().num_days_from_ce()
}

fn f8(x: f64) -> Float8 {
    Float8 { bits: x.to_bits() }
}

fn collection(bill: Option<&str>, on: i32) -> CollectionDetails {
    CollectionDetails {
        receipt_no: bill.map(|s| s.to_string()),
        receipt_date: Timestamp { day: on, micros: 9 * 3_600_000_000 },
        patient_name: Some("Jane Doe".to_string()),
        payee: None,
        cash: None,
        cheque: None,
        card: None,
        card_no: None,
        mpesa: Some(f8(1500.0)),
        e_transfer: None,
        transaction_no: None,
        adv_used: None,
        employee_name: Some("Cashier A".to_string()),
        unit_name: None,
    }
}

fn ledger_line(code: &str, account: Option<&str>) -> MpesaStatement {
    let t = Timestamp { day: day(2024, 3, 1), micros: 0 };
    MpesaStatement {
        receipt_no: code.to_string(),
        completion_time: t,
        initiation_time: t,
        details: "Pay Bill".to_string(),
        transaction_status: "Completed".to_string(),
        paid_in: Some(f8(1500.0)),
        withdrawn: None,
        balance: f8(10_000.0),
        balance_confirmed: true,
        reason_type: "Pay Bill Online".to_string(),
        other_party_info: "JANE DOE".to_string(),
        linked_transaction_id: None,
        ac_no: account.map(|s| s.to_string()),
    }
}

#[test]
fn unmatched_collection_is_excluded() {
    let primary = vec![collection(Some("X"), day(2024, 3, 1))];
    let ledger = vec![ledger_line("QAB1", Some("Y"))];
    let r = reconcile("2024-03-01", &primary, &ledger).unwrap();
    assert!(r.is_empty());
}

#[test]
fn matching_ledger_line_makes_it_appear_once() {
    let primary = vec![collection(Some("X"), day(2024, 3, 1))];
    let ledger = vec![ledger_line("QAB1", Some("Y")), ledger_line("QAB2", Some("X"))];
    let r = reconcile("2024-03-01", &primary, &ledger).unwrap();
    assert_eq!(r.len(), 1);
    assert_eq!(r[0].billing_number, "X");
    assert_eq!(r[0].transaction_code, "QAB2");
    assert_eq!(r[0].cashier.as_deref(), Some("Cashier A"));
    assert_eq!(r[0].patient_name.as_deref(), Some("Jane Doe"));
    assert_eq!(r[0].mpesa, Some(f8(1500.0)));
    assert_eq!(r[0].comments, "Pay Bill");
    assert_eq!(r[0].receipt_date.day, day(2024, 3, 1));
}

#[test]
fn other_days_and_missing_references_are_excluded() {
    let primary = vec![
        collection(Some("X"), day(2024, 2, 29)),
        collection(None, day(2024, 3, 1)),
        collection(Some("Z"), day(2024, 3, 1)),
    ];
    let ledger = vec![ledger_line("Q1", Some("X")), ledger_line("Q2", None), ledger_line("Q3", Some("Z"))];
    let r = reconcile("2024-03-01", &primary, &ledger).unwrap();
    assert_eq!(r.len(), 1);
    assert_eq!(r[0].billing_number, "Z");
    let r = reconcile("2024-02-29", &primary, &ledger).unwrap();
    assert_eq!(r.len(), 1);
    assert_eq!(r[0].transaction_code, "Q1");
}

#[test]
fn every_matching_pair_is_reported_in_order() {
    let primary = vec![collection(Some("A"), day(2024, 3, 1)), collection(Some("B"), day(2024, 3, 1))];
    let ledger = vec![ledger_line("Q1", Some("B")), ledger_line("Q2", Some("A")), ledger_line("Q3", Some("B"))];
    let r = reconcile_on_day(day(2024, 3, 1), &primary, &ledger);
    let codes: Vec<&str> = r.iter().map(|x| x.transaction_code.as_str()).collect();
    assert_eq!(codes, vec!["Q2", "Q1", "Q3"]);
}

#[test]
fn malformed_date_is_refused() {
    let primary = vec![collection(Some("X"), day(2024, 3, 1))];
    let ledger = vec![ledger_line("Q", Some("X"))];
    assert_eq!(reconcile("01/03/2024", &primary, &ledger).unwrap_err(), ReconcileError::InvalidDate);
    assert_eq!(reconcile("2024-02-30", &primary, &ledger).unwrap_err(), ReconcileError::InvalidDate);
    assert_eq!(reconcile("", &primary, &ledger).unwrap_err(), ReconcileError::InvalidDate);
}

#[test]
fn empty_inputs_reconcile_to_nothing() {
    let r = reconcile("2024-03-01", &Vec::new(), &Vec::new()).unwrap();
    assert!(r.is_empty());
}
