use panopticonbackend::registry::{IngestError, StatementKind, lookup};

#[test]
fn lookup_finds_registered_types() {
    let s = lookup("mpesa").unwrap();
    assert_eq!(s.kind, StatementKind::Mpesa);
    assert_eq!(s.table, "staging.mpesa_statement");
    assert_eq!(s.insert_template, "update_mpesa_statement");
    assert_eq!(s.columns.len(), 13);
    assert_eq!(lookup("pdq").unwrap().columns.len(), 22);
    assert_eq!(lookup("billdetails").unwrap().columns.len(), 21);
    for name in ["mpesa", "collectiondetails", "billdetails", "labvisits", "mtiba", "absa", "pdq", "sidian", "cfc"] {
        assert_eq!(lookup(name).unwrap().kind.name(), name);
    }
}

#[test]
fn lookup_refuses_unknown_type() {
    assert_eq!(lookup("equity").unwrap_err(), IngestError::UnknownSchema);
    assert_eq!(lookup("").unwrap_err(), IngestError::UnknownSchema);
    assert_eq!(lookup("MPESA").unwrap_err(), IngestError::UnknownSchema);
}

#[test]
fn staging_nullability_follows_production_requirements() {
    let mpesa = lookup("mpesa").unwrap();
    let balance = mpesa.columns.iter().find(|c| c.name == "balance").unwrap();
    assert!(!balance.nullable);
    let paid_in = mpesa.columns.iter().find(|c| c.name == "paid_in").unwrap();
    assert!(paid_in.nullable);
    let lab = lookup("labvisits").unwrap();
    assert!(!lab.columns.iter().find(|c| c.name == "id_passport_no").unwrap().nullable);
}
