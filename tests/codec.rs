use panopticonbackend::codec::{WireRecord, decode_rows};
use panopticonbackend::production::{ABSA, LabVisits, MpesaStatement, Sidian};
use panopticonbackend::registry::{StatementKind, schema_of};
use panopticonbackend::schema::{Column, DecodeError, check_row};
use panopticonbackend::staging::{
    ABSAInsert, BillDetailsInsert, CfcInsert, CollectionDetailsInsert, LabVisitsInsert,
    MpesaStatementInsert, MtibaStatementInsert, PdqBreakdownInsert, SidianInsert,
};
use panopticonbackend::users::Scope;
use panopticonbackend::wire::{Float8, Timestamp, WireType, WireValue, value_type};

fn f8(x: f64) -> Float8 {
    Float8 { bits: x.to_bits() }
}

fn text(s: &str) -> WireValue {
    WireValue::Text(s.to_string())
}

fn ts(day: i32, micros: u64) -> Timestamp {
    Timestamp { day, micros }
}

fn absa_all_null() -> ABSAInsert {
    ABSAInsert {
        transaction_date: "2024-03-01".to_string(),
        value_date: "2024-03-01".to_string(),
        description: "Deposit".to_string(),
        user_reference_number: None,
        cheque_number: None,
        debit_amount: None,
        credit_amount: None,
        running_balance: None,
    }
}

fn types_fit(cols: &Vec<Column>, row: &Vec<WireValue>) -> bool {
    cols.len() == row.len()
        && cols.iter().zip(row.iter()).all(|(c, v)| match value_type(v) {
            None => true,
            Some(t) => t == c.wire_type,
        })
}

#[test]
fn null_fields_round_trip_as_absent() {
    let r = absa_all_null();
    let row = r.encode();
    assert_eq!(row.len(), 8);
    assert_eq!(row[3], WireValue::Null);
    let back = ABSAInsert::decode(&row).unwrap();
    assert_eq!(back.user_reference_number, None);
    assert_eq!(back.cheque_number, None);
    assert_eq!(back.debit_amount, None);
    assert_eq!(back.credit_amount, None);
    assert_eq!(back.running_balance, None);
    assert_eq!(back.description, "Deposit");
}

#[test]
fn present_fields_round_trip_exactly() {
    let r = ABSAInsert {
        user_reference_number: Some("U-1".to_string()),
        cheque_number: Some(f8(1234.0)),
        debit_amount: Some(f8(-0.0)),
        credit_amount: Some(f8(99.99)),
        running_balance: Some(f8(1e12)),
        ..absa_all_null()
    };
    let back = ABSAInsert::decode(&r.encode()).unwrap();
    assert_eq!(back.user_reference_number.as_deref(), Some("U-1"));
    assert_eq!(back.cheque_number, Some(f8(1234.0)));
    assert_eq!(back.debit_amount.map(|f| f64::from_bits(f.bits)), Some(-0.0));
    assert_eq!(back.credit_amount, Some(f8(99.99)));
    assert_eq!(back.running_balance, Some(f8(1e12)));
}

#[test]
fn null_in_required_column_is_missing_field() {
    let mut row = absa_all_null().encode();
    row[2] = WireValue::Null;
    assert_eq!(ABSAInsert::decode(&row).unwrap_err(), DecodeError::MissingRequiredField("description"));
}

#[test]
fn absent_required_column_is_missing_field() {
    let row = vec![text("2024-03-01")];
    assert_eq!(ABSAInsert::decode(&row).unwrap_err(), DecodeError::MissingRequiredField("value_date"));
}

#[test]
fn absent_nullable_columns_read_as_null() {
    let row = vec![text("2024-03-01"), text("2024-03-02"), text("Deposit")];
    let back = ABSAInsert::decode(&row).unwrap();
    assert_eq!(back.value_date, "2024-03-02");
    assert_eq!(back.running_balance, None);
}

#[test]
fn wrong_wire_type_is_type_mismatch() {
    let mut row = absa_all_null().encode();
    row[4] = text("12");
    assert_eq!(ABSAInsert::decode(&row).unwrap_err(), DecodeError::TypeMismatch("cheque_number"));
}

#[test]
fn first_faulty_column_is_reported() {
    let mut row = absa_all_null().encode();
    row[1] = WireValue::Bool(true);
    row[2] = WireValue::Null;
    assert_eq!(ABSAInsert::decode(&row).unwrap_err(), DecodeError::TypeMismatch("value_date"));
}

#[test]
fn production_row_decodes_typed_values() {
    let row = vec![
        WireValue::Timestamp(ts(738946, 0)),
        WireValue::Date(738947),
        text("REF"),
        WireValue::Null,
        WireValue::Int4(1001),
        WireValue::Null,
        WireValue::Float8(f8(20.0)),
        WireValue::Float8(f8(120.0)),
    ];
    let s = Sidian::decode(&row).unwrap();
    assert_eq!(s.date, ts(738946, 0));
    assert_eq!(s.valuedate, Some(738947));
    assert_eq!(s.chequenumber, Some(1001));
    assert_eq!(s.balance, f8(120.0));
    let mut missing = row.clone();
    missing[7] = WireValue::Null;
    assert_eq!(Sidian::decode(&missing).unwrap_err(), DecodeError::MissingRequiredField("balance"));
}

#[test]
fn lab_visit_decodes_integer_age() {
    let row = vec![
        text("S-1"),
        text("Jane"),
        text("12345678"),
        WireValue::Int4(34),
        text("years"),
        text("F"),
        WireValue::Null,
        WireValue::Timestamp(ts(738946, 3_600_000_000)),
        text("negative"),
        WireValue::Null,
    ];
    let v = LabVisits::decode(&row).unwrap();
    assert_eq!(v.age, 34);
    assert_eq!(v.sample_date.micros, 3_600_000_000);
    assert_eq!(v.phone_number, None);
}

#[test]
fn decode_rows_fails_on_first_bad_row() {
    let good = absa_all_null().encode();
    let mut bad = absa_all_null().encode();
    bad[0] = WireValue::Null;
    let ok: Vec<ABSAInsert> = decode_rows(&vec![good.clone(), good.clone()]).unwrap();
    assert_eq!(ok.len(), 2);
    let err = decode_rows::<ABSAInsert>(&vec![good.clone(), bad, good]).unwrap_err();
    assert_eq!(err, DecodeError::MissingRequiredField("transaction_date"));
    let none: Vec<ABSA> = decode_rows(&Vec::new()).unwrap();
    assert!(none.is_empty());
}

#[test]
fn check_row_accepts_encoded_record_and_flags_required_null() {
    let cols = MpesaStatementInsert::column_list();
    let r = MpesaStatementInsert {
        receipt_no: "R1".to_string(),
        completion_time: "t".to_string(),
        initiation_time: "t".to_string(),
        details: "d".to_string(),
        transaction_status: "Completed".to_string(),
        paid_in: None,
        withdrawn: None,
        balance: None,
        balance_confirmed: false,
        reason_type: "r".to_string(),
        other_party_info: "o".to_string(),
        linked_transaction_id: None,
        ac_no: "A".to_string(),
    };
    assert_eq!(check_row(&cols, &r.encode()), Err(DecodeError::MissingRequiredField("balance")));
    let r = MpesaStatementInsert { balance: Some(f8(5.0)), ..r };
    assert_eq!(check_row(&cols, &r.encode()), Ok(()));
}

#[test]
fn every_schema_matches_its_codec() {
    let t = |s: &str| s.to_string();
    let rows: Vec<(StatementKind, Vec<WireValue>)> = vec![
        (StatementKind::Mpesa, MpesaStatementInsert {
            receipt_no: t("R"), completion_time: t("c"), initiation_time: t("i"), details: t("d"),
            transaction_status: t("s"), paid_in: Some(f8(1.0)), withdrawn: None, balance: Some(f8(2.0)),
            balance_confirmed: true, reason_type: t("r"), other_party_info: t("o"),
            linked_transaction_id: Some(t("L")), ac_no: t("A"),
        }.encode()),
        (StatementKind::CollectionDetails, CollectionDetailsInsert {
            receipt_no: Some(t("R")), receipt_date: t("d"), patient_name: None, payee: None, cash: Some(f8(1.0)),
            cheque: None, card: None, card_no: Some(f8(4.0)), mpesa: Some(f8(3.0)), e_transfer: None,
            transaction_no: None, adv_used: None, employee_name: Some(t("E")), unit_name: None,
        }.encode()),
        (StatementKind::BillDetails, BillDetailsInsert {
            bill_date: t("d"), bill_no: None, skypeid: None, uhid: None, visit_type: None, patient_name: None,
            payee: None, service_name: None, quantity: Some(f8(1.0)), rate_per_unit: None, discount: None,
            gross: None, paid_amount: None, outstanding: None, service_doc: None, department: None,
            consulting_dr: None, referring_dr: None, servicing_dr: None, payment_mode: None, unit: t("U"),
        }.encode()),
        (StatementKind::LabVisits, LabVisitsInsert {
            sample_number: t("S"), name: t("N"), id_passport_no: Some(t("I")), age: f8(30.0), age_unit: t("y"),
            gender: t("F"), phone_number: None, sample_date: t("d"), result: t("r"), email_address: None,
        }.encode()),
        (StatementKind::Mtiba, MtibaStatementInsert {
            transactionstateid: Some(1), transactiontypeid: None, facilityzohold: t("f"), facilityname: t("n"),
            fullreferencenumber: t("x"), phonenumber: t("p"), payername: t("p"), sendername: t("s"),
            medicalprogramname: t("m"), amountfordisplay: Some(f8(9.0)), transactiondate: ts(1, 0),
            paymentdate: ts(2, 5), transactiontype: t("t"),
        }.encode()),
        (StatementKind::Absa, absa_all_null().encode()),
        (StatementKind::Pdq, PdqBreakdownInsert {
            account_no: None, location_no: None, legal_name: None, card_no: t("4111"), txn_date: Some(t("d")),
            processing_date: None, payment_date: None, terminal_id: Some(f8(7.0)), auth_id: None,
            amount: Some(f8(1.0)), commission: None, net_amount: None, trxn_type: None, currency: Some(t("KES")),
            pmnt_type: None, trxn_source: None, scheme: None, commercial_name: None, arn_reference: None,
            retrieval_ref_no: None, tip_amount: None, card_present: None,
        }.encode()),
        (StatementKind::Sidian, SidianInsert {
            date: t("d"), valuedate: None, reference: None, narration: None, chequenumber: None, debit: None,
            credit: None, balance: f8(0.0),
        }.encode()),
        (StatementKind::Cfc, CfcInsert {
            date: ts(738946, 0), transaction: t("x"), value_date: ts(738946, 1), debit: None, credit: None,
            ledger_balance: None, available_balance: Some(f8(3.0)),
        }.encode()),
    ];
    assert_eq!(rows.len(), 9);
    for (kind, row) in rows {
        let schema = schema_of(kind);
        assert_eq!(schema.kind, kind);
        assert!(types_fit(&schema.columns, &row), "{}", kind.name());
        assert_eq!(check_row(&schema.columns, &row), Ok(()), "{}", kind.name());
    }
}

#[test]
fn mpesa_production_schema_is_declared_in_field_order() {
    let cols = MpesaStatement::column_list();
    let names: Vec<&str> = cols.iter().map(|c| c.name).collect();
    assert_eq!(names[0], "receipt_no");
    assert_eq!(names[12], "ac_no");
    assert_eq!(cols[1].wire_type, WireType::Timestamp);
    assert!(!cols[7].nullable);
    assert!(cols[12].nullable);
}

#[test]
fn default_scope_is_guest() {
    assert_eq!(Scope::default(), Scope::Guest);
}
