//! Records as submitted for ingestion, and their staging-table columns.
use vstd::prelude::*;
use crate::codec::{
    WireRecord, text_cell, text_value, text_at, opt_text_cell, opt_text_value, opt_text_at,
    float_cell, float_value, float_at, opt_float_cell, opt_float_value, opt_float_at, bool_cell,
    bool_value, bool_at, opt_int4_cell, opt_int4_value, opt_int4_at, ts_cell, ts_value, ts_at,
};
use crate::schema::{Column, DecodeError, check_row, lemma_conforms, padded};
use crate::wire::{Cell, Float8, Timestamp, WireType, WireValue, cells_of};

verus! {

/// One line of an M-Pesa mobile-money statement, as submitted for ingestion.
///
/// Its columns follow the staging table. A field that may be left out of
/// the payload but that the production table requires is declared
/// non-nullable, so that such a record is refused at ingestion.
#[derive(Debug)]
pub struct MpesaStatementInsert {
    pub receipt_no: String,
    pub completion_time: String,
    pub initiation_time: String,
    pub details: String,
    pub transaction_status: String,
    pub paid_in: Option<Float8>,
    pub withdrawn: Option<Float8>,
    pub balance: Option<Float8>,
    pub balance_confirmed: bool,
    pub reason_type: String,
    pub other_party_info: String,
    pub linked_transaction_id: Option<String>,
    pub ac_no: String,
}

impl WireRecord for MpesaStatementInsert {
    open spec fn columns() -> Seq<Column> {
        seq![
            Column { name: "receipt_no", wire_type: WireType::Text, nullable: false },
            Column { name: "completion_time", wire_type: WireType::Text, nullable: false },
            Column { name: "initiation_time", wire_type: WireType::Text, nullable: false },
            Column { name: "details", wire_type: WireType::Text, nullable: false },
            Column { name: "transaction_status", wire_type: WireType::Text, nullable: false },
            Column { name: "paid_in", wire_type: WireType::Float8, nullable: true },
            Column { name: "withdrawn", wire_type: WireType::Float8, nullable: true },
            Column { name: "balance", wire_type: WireType::Float8, nullable: false },
            Column { name: "balance_confirmed", wire_type: WireType::Bool, nullable: false },
            Column { name: "reason_type", wire_type: WireType::Text, nullable: false },
            Column { name: "other_party_info", wire_type: WireType::Text, nullable: false },
            Column { name: "linked_transaction_id", wire_type: WireType::Text, nullable: true },
            Column { name: "ac_no", wire_type: WireType::Text, nullable: false },
        ]
    }

    open spec fn cells(&self) -> Seq<Cell> {
        seq![
            text_cell(self.receipt_no),
            text_cell(self.completion_time),
            text_cell(self.initiation_time),
            text_cell(self.details),
            text_cell(self.transaction_status),
            opt_float_cell(self.paid_in),
            opt_float_cell(self.withdrawn),
            opt_float_cell(self.balance),
            bool_cell(self.balance_confirmed),
            text_cell(self.reason_type),
            text_cell(self.other_party_info),
            opt_text_cell(self.linked_transaction_id),
            text_cell(self.ac_no),
        ]
    }

    fn column_list() -> (r: Vec<Column>) {
        let r = vec![
            Column { name: "receipt_no", wire_type: WireType::Text, nullable: false },
            Column { name: "completion_time", wire_type: WireType::Text, nullable: false },
            Column { name: "initiation_time", wire_type: WireType::Text, nullable: false },
            Column { name: "details", wire_type: WireType::Text, nullable: false },
            Column { name: "transaction_status", wire_type: WireType::Text, nullable: false },
            Column { name: "paid_in", wire_type: WireType::Float8, nullable: true },
            Column { name: "withdrawn", wire_type: WireType::Float8, nullable: true },
            Column { name: "balance", wire_type: WireType::Float8, nullable: false },
            Column { name: "balance_confirmed", wire_type: WireType::Bool, nullable: false },
            Column { name: "reason_type", wire_type: WireType::Text, nullable: false },
            Column { name: "other_party_info", wire_type: WireType::Text, nullable: false },
            Column { name: "linked_transaction_id", wire_type: WireType::Text, nullable: true },
            Column { name: "ac_no", wire_type: WireType::Text, nullable: false },
        ];
        assert(r@ =~= Self::columns());
        r
    }

    fn encode(&self) -> (r: Vec<WireValue>) {
        let r = vec![
            text_value(&self.receipt_no),
            text_value(&self.completion_time),
            text_value(&self.initiation_time),
            text_value(&self.details),
            text_value(&self.transaction_status),
            opt_float_value(&self.paid_in),
            opt_float_value(&self.withdrawn),
            opt_float_value(&self.balance),
            bool_value(&self.balance_confirmed),
            text_value(&self.reason_type),
            text_value(&self.other_party_info),
            opt_text_value(&self.linked_transaction_id),
            text_value(&self.ac_no),
        ];
        assert(cells_of(r@) =~= self.cells());
        r
    }

    fn decode(row: &Vec<WireValue>) -> (r: Result<Self, DecodeError>) {
        let cols = Self::column_list();
        if let Err(e) = check_row(&cols, row) {
            return Err(e);
        }
        let ghost c = cells_of(row@);
        proof {
            lemma_conforms(Self::columns(), c);
        }
        let r = MpesaStatementInsert {
            receipt_no: text_at(row, 0),
            completion_time: text_at(row, 1),
            initiation_time: text_at(row, 2),
            details: text_at(row, 3),
            transaction_status: text_at(row, 4),
            paid_in: opt_float_at(row, 5),
            withdrawn: opt_float_at(row, 6),
            balance: opt_float_at(row, 7),
            balance_confirmed: bool_at(row, 8),
            reason_type: text_at(row, 9),
            other_party_info: text_at(row, 10),
            linked_transaction_id: opt_text_at(row, 11),
            ac_no: text_at(row, 12),
        };
        assert(r.cells() =~= padded(c, 13));
        Ok(r)
    }

    proof fn lemma_aligned(&self) {
    }
}

/// One collection (receipt) record from the billing system, as submitted for ingestion.
///
/// Its columns follow the staging table. A field that may be left out of
/// the payload but that the production table requires is declared
/// non-nullable, so that such a record is refused at ingestion.
#[derive(Debug)]
pub struct CollectionDetailsInsert {
    pub receipt_no: Option<String>,
    pub receipt_date: String,
    pub patient_name: Option<String>,
    pub payee: Option<String>,
    pub cash: Option<Float8>,
    pub cheque: Option<Float8>,
    pub card: Option<Float8>,
    pub card_no: Option<Float8>,
    pub mpesa: Option<Float8>,
    pub e_transfer: Option<Float8>,
    pub transaction_no: Option<String>,
    pub adv_used: Option<Float8>,
    pub employee_name: Option<String>,
    pub unit_name: Option<String>,
}

impl WireRecord for CollectionDetailsInsert {
    open spec fn columns() -> Seq<Column> {
        seq![
            Column { name: "receipt_no", wire_type: WireType::Text, nullable: true },
            Column { name: "receipt_date", wire_type: WireType::Text, nullable: false },
            Column { name: "patient_name", wire_type: WireType::Text, nullable: true },
            Column { name: "payee", wire_type: WireType::Text, nullable: true },
            Column { name: "cash", wire_type: WireType::Float8, nullable: true },
            Column { name: "cheque", wire_type: WireType::Float8, nullable: true },
            Column { name: "card", wire_type: WireType::Float8, nullable: true },
            Column { name: "card_no", wire_type: WireType::Float8, nullable: true },
            Column { name: "mpesa", wire_type: WireType::Float8, nullable: true },
            Column { name: "e_transfer", wire_type: WireType::Float8, nullable: true },
            Column { name: "transaction_no", wire_type: WireType::Text, nullable: true },
            Column { name: "adv_used", wire_type: WireType::Float8, nullable: true },
            Column { name: "employee_name", wire_type: WireType::Text, nullable: true },
            Column { name: "unit_name", wire_type: WireType::Text, nullable: true },
        ]
    }

    open spec fn cells(&self) -> Seq<Cell> {
        seq![
            opt_text_cell(self.receipt_no),
            text_cell(self.receipt_date),
            opt_text_cell(self.patient_name),
            opt_text_cell(self.payee),
            opt_float_cell(self.cash),
            opt_float_cell(self.cheque),
            opt_float_cell(self.card),
            opt_float_cell(self.card_no),
            opt_float_cell(self.mpesa),
            opt_float_cell(self.e_transfer),
            opt_text_cell(self.transaction_no),
            opt_float_cell(self.adv_used),
            opt_text_cell(self.employee_name),
            opt_text_cell(self.unit_name),
        ]
    }

    fn column_list() -> (r: Vec<Column>) {
        let r = vec![
            Column { name: "receipt_no", wire_type: WireType::Text, nullable: true },
            Column { name: "receipt_date", wire_type: WireType::Text, nullable: false },
            Column { name: "patient_name", wire_type: WireType::Text, nullable: true },
            Column { name: "payee", wire_type: WireType::Text, nullable: true },
            Column { name: "cash", wire_type: WireType::Float8, nullable: true },
            Column { name: "cheque", wire_type: WireType::Float8, nullable: true },
            Column { name: "card", wire_type: WireType::Float8, nullable: true },
            Column { name: "card_no", wire_type: WireType::Float8, nullable: true },
            Column { name: "mpesa", wire_type: WireType::Float8, nullable: true },
            Column { name: "e_transfer", wire_type: WireType::Float8, nullable: true },
            Column { name: "transaction_no", wire_type: WireType::Text, nullable: true },
            Column { name: "adv_used", wire_type: WireType::Float8, nullable: true },
            Column { name: "employee_name", wire_type: WireType::Text, nullable: true },
            Column { name: "unit_name", wire_type: WireType::Text, nullable: true },
        ];
        assert(r@ =~= Self::columns());
        r
    }

    fn encode(&self) -> (r: Vec<WireValue>) {
        let r = vec![
            opt_text_value(&self.receipt_no),
            text_value(&self.receipt_date),
            opt_text_value(&self.patient_name),
            opt_text_value(&self.payee),
            opt_float_value(&self.cash),
            opt_float_value(&self.cheque),
            opt_float_value(&self.card),
            opt_float_value(&self.card_no),
            opt_float_value(&self.mpesa),
            opt_float_value(&self.e_transfer),
            opt_text_value(&self.transaction_no),
            opt_float_value(&self.adv_used),
            opt_text_value(&self.employee_name),
            opt_text_value(&self.unit_name),
        ];
        assert(cells_of(r@) =~= self.cells());
        r
    }

    fn decode(row: &Vec<WireValue>) -> (r: Result<Self, DecodeError>) {
        let cols = Self::column_list();
        if let Err(e) = check_row(&cols, row) {
            return Err(e);
        }
        let ghost c = cells_of(row@);
        proof {
            lemma_conforms(Self::columns(), c);
        }
        let r = CollectionDetailsInsert {
            receipt_no: opt_text_at(row, 0),
            receipt_date: text_at(row, 1),
            patient_name: opt_text_at(row, 2),
            payee: opt_text_at(row, 3),
            cash: opt_float_at(row, 4),
            cheque: opt_float_at(row, 5),
            card: opt_float_at(row, 6),
            card_no: opt_float_at(row, 7),
            mpesa: opt_float_at(row, 8),
            e_transfer: opt_float_at(row, 9),
            transaction_no: opt_text_at(row, 10),
            adv_used: opt_float_at(row, 11),
            employee_name: opt_text_at(row, 12),
            unit_name: opt_text_at(row, 13),
        };
        assert(r.cells() =~= padded(c, 14));
        Ok(r)
    }

    proof fn lemma_aligned(&self) {
    }
}

/// One billed service line from the billing system, as submitted for ingestion.
///
/// Its columns follow the staging table. A field that may be left out of
/// the payload but that the production table requires is declared
/// non-nullable, so that such a record is refused at ingestion.
#[derive(Debug)]
pub struct BillDetailsInsert {
    pub bill_date: String,
    pub bill_no: Option<String>,
    pub skypeid: Option<String>,
    pub uhid: Option<String>,
    pub visit_type: Option<String>,
    pub patient_name: Option<String>,
    pub payee: Option<String>,
    pub service_name: Option<String>,
    pub quantity: Option<Float8>,
    pub rate_per_unit: Option<Float8>,
    pub discount: Option<Float8>,
    pub gross: Option<Float8>,
    pub paid_amount: Option<Float8>,
    pub outstanding: Option<Float8>,
    pub service_doc: Option<String>,
    pub department: Option<String>,
    pub consulting_dr: Option<String>,
    pub referring_dr: Option<String>,
    pub servicing_dr: Option<String>,
    pub payment_mode: Option<String>,
    pub unit: String,
}

impl WireRecord for BillDetailsInsert {
    open spec fn columns() -> Seq<Column> {
        seq![
            Column { name: "bill_date", wire_type: WireType::Text, nullable: false },
            Column { name: "bill_no", wire_type: WireType::Text, nullable: true },
            Column { name: "skypeid", wire_type: WireType::Text, nullable: true },
            Column { name: "uhid", wire_type: WireType::Text, nullable: true },
            Column { name: "visit_type", wire_type: WireType::Text, nullable: true },
            Column { name: "patient_name", wire_type: WireType::Text, nullable: true },
            Column { name: "payee", wire_type: WireType::Text, nullable: true },
            Column { name: "service_name", wire_type: WireType::Text, nullable: true },
            Column { name: "quantity", wire_type: WireType::Float8, nullable: true },
            Column { name: "rate_per_unit", wire_type: WireType::Float8, nullable: true },
            Column { name: "discount", wire_type: WireType::Float8, nullable: true },
            Column { name: "gross", wire_type: WireType::Float8, nullable: true },
            Column { name: "paid_amount", wire_type: WireType::Float8, nullable: true },
            Column { name: "outstanding", wire_type: WireType::Float8, nullable: true },
            Column { name: "service_doc", wire_type: WireType::Text, nullable: true },
            Column { name: "department", wire_type: WireType::Text, nullable: true },
            Column { name: "consulting_dr", wire_type: WireType::Text, nullable: true },
            Column { name: "referring_dr", wire_type: WireType::Text, nullable: true },
            Column { name: "servicing_dr", wire_type: WireType::Text, nullable: true },
            Column { name: "payment_mode", wire_type: WireType::Text, nullable: true },
            Column { name: "unit", wire_type: WireType::Text, nullable: false },
        ]
    }

    open spec fn cells(&self) -> Seq<Cell> {
        seq![
            text_cell(self.bill_date),
            opt_text_cell(self.bill_no),
            opt_text_cell(self.skypeid),
            opt_text_cell(self.uhid),
            opt_text_cell(self.visit_type),
            opt_text_cell(self.patient_name),
            opt_text_cell(self.payee),
            opt_text_cell(self.service_name),
            opt_float_cell(self.quantity),
            opt_float_cell(self.rate_per_unit),
            opt_float_cell(self.discount),
            opt_float_cell(self.gross),
            opt_float_cell(self.paid_amount),
            opt_float_cell(self.outstanding),
            opt_text_cell(self.service_doc),
            opt_text_cell(self.department),
            opt_text_cell(self.consulting_dr),
            opt_text_cell(self.referring_dr),
            opt_text_cell(self.servicing_dr),
            opt_text_cell(self.payment_mode),
            text_cell(self.unit),
        ]
    }

    fn column_list() -> (r: Vec<Column>) {
        let r = vec![
            Column { name: "bill_date", wire_type: WireType::Text, nullable: false },
            Column { name: "bill_no", wire_type: WireType::Text, nullable: true },
            Column { name: "skypeid", wire_type: WireType::Text, nullable: true },
            Column { name: "uhid", wire_type: WireType::Text, nullable: true },
            Column { name: "visit_type", wire_type: WireType::Text, nullable: true },
            Column { name: "patient_name", wire_type: WireType::Text, nullable: true },
            Column { name: "payee", wire_type: WireType::Text, nullable: true },
            Column { name: "service_name", wire_type: WireType::Text, nullable: true },
            Column { name: "quantity", wire_type: WireType::Float8, nullable: true },
            Column { name: "rate_per_unit", wire_type: WireType::Float8, nullable: true },
            Column { name: "discount", wire_type: WireType::Float8, nullable: true },
            Column { name: "gross", wire_type: WireType::Float8, nullable: true },
            Column { name: "paid_amount", wire_type: WireType::Float8, nullable: true },
            Column { name: "outstanding", wire_type: WireType::Float8, nullable: true },
            Column { name: "service_doc", wire_type: WireType::Text, nullable: true },
            Column { name: "department", wire_type: WireType::Text, nullable: true },
            Column { name: "consulting_dr", wire_type: WireType::Text, nullable: true },
            Column { name: "referring_dr", wire_type: WireType::Text, nullable: true },
            Column { name: "servicing_dr", wire_type: WireType::Text, nullable: true },
            Column { name: "payment_mode", wire_type: WireType::Text, nullable: true },
            Column { name: "unit", wire_type: WireType::Text, nullable: false },
        ];
        assert(r@ =~= Self::columns());
        r
    }

    fn encode(&self) -> (r: Vec<WireValue>) {
        let r = vec![
            text_value(&self.bill_date),
            opt_text_value(&self.bill_no),
            opt_text_value(&self.skypeid),
            opt_text_value(&self.uhid),
            opt_text_value(&self.visit_type),
            opt_text_value(&self.patient_name),
            opt_text_value(&self.payee),
            opt_text_value(&self.service_name),
            opt_float_value(&self.quantity),
            opt_float_value(&self.rate_per_unit),
            opt_float_value(&self.discount),
            opt_float_value(&self.gross),
            opt_float_value(&self.paid_amount),
            opt_float_value(&self.outstanding),
            opt_text_value(&self.service_doc),
            opt_text_value(&self.department),
            opt_text_value(&self.consulting_dr),
            opt_text_value(&self.referring_dr),
            opt_text_value(&self.servicing_dr),
            opt_text_value(&self.payment_mode),
            text_value(&self.unit),
        ];
        assert(cells_of(r@) =~= self.cells());
        r
    }

    fn decode(row: &Vec<WireValue>) -> (r: Result<Self, DecodeError>) {
        let cols = Self::column_list();
        if let Err(e) = check_row(&cols, row) {
            return Err(e);
        }
        let ghost c = cells_of(row@);
        proof {
            lemma_conforms(Self::columns(), c);
        }
        let r = BillDetailsInsert {
            bill_date: text_at(row, 0),
            bill_no: opt_text_at(row, 1),
            skypeid: opt_text_at(row, 2),
            uhid: opt_text_at(row, 3),
            visit_type: opt_text_at(row, 4),
            patient_name: opt_text_at(row, 5),
            payee: opt_text_at(row, 6),
            service_name: opt_text_at(row, 7),
            quantity: opt_float_at(row, 8),
            rate_per_unit: opt_float_at(row, 9),
            discount: opt_float_at(row, 10),
            gross: opt_float_at(row, 11),
            paid_amount: opt_float_at(row, 12),
            outstanding: opt_float_at(row, 13),
            service_doc: opt_text_at(row, 14),
            department: opt_text_at(row, 15),
            consulting_dr: opt_text_at(row, 16),
            referring_dr: opt_text_at(row, 17),
            servicing_dr: opt_text_at(row, 18),
            payment_mode: opt_text_at(row, 19),
            unit: text_at(row, 20),
        };
        assert(r.cells() =~= padded(c, 21));
        Ok(r)
    }

    proof fn lemma_aligned(&self) {
    }
}

/// One laboratory visit, as submitted for ingestion.
///
/// Its columns follow the staging table. A field that may be left out of
/// the payload but that the production table requires is declared
/// non-nullable, so that such a record is refused at ingestion.
#[derive(Debug)]
pub struct LabVisitsInsert {
    pub sample_number: String,
    pub name: String,
    pub id_passport_no: Option<String>,
    pub age: Float8,
    pub age_unit: String,
    pub gender: String,
    pub phone_number: Option<String>,
    pub sample_date: String,
    pub result: String,
    pub email_address: Option<String>,
}

impl WireRecord for LabVisitsInsert {
    open spec fn columns() -> Seq<Column> {
        seq![
            Column { name: "sample_number", wire_type: WireType::Text, nullable: false },
            Column { name: "name", wire_type: WireType::Text, nullable: false },
            Column { name: "id_passport_no", wire_type: WireType::Text, nullable: false },
            Column { name: "age", wire_type: WireType::Float8, nullable: false },
            Column { name: "age_unit", wire_type: WireType::Text, nullable: false },
            Column { name: "gender", wire_type: WireType::Text, nullable: false },
            Column { name: "phone_number", wire_type: WireType::Text, nullable: true },
            Column { name: "sample_date", wire_type: WireType::Text, nullable: false },
            Column { name: "result", wire_type: WireType::Text, nullable: false },
            Column { name: "email_address", wire_type: WireType::Text, nullable: true },
        ]
    }

    open spec fn cells(&self) -> Seq<Cell> {
        seq![
            text_cell(self.sample_number),
            text_cell(self.name),
            opt_text_cell(self.id_passport_no),
            float_cell(self.age),
            text_cell(self.age_unit),
            text_cell(self.gender),
            opt_text_cell(self.phone_number),
            text_cell(self.sample_date),
            text_cell(self.result),
            opt_text_cell(self.email_address),
        ]
    }

    fn column_list() -> (r: Vec<Column>) {
        let r = vec![
            Column { name: "sample_number", wire_type: WireType::Text, nullable: false },
            Column { name: "name", wire_type: WireType::Text, nullable: false },
            Column { name: "id_passport_no", wire_type: WireType::Text, nullable: false },
            Column { name: "age", wire_type: WireType::Float8, nullable: false },
            Column { name: "age_unit", wire_type: WireType::Text, nullable: false },
            Column { name: "gender", wire_type: WireType::Text, nullable: false },
            Column { name: "phone_number", wire_type: WireType::Text, nullable: true },
            Column { name: "sample_date", wire_type: WireType::Text, nullable: false },
            Column { name: "result", wire_type: WireType::Text, nullable: false },
            Column { name: "email_address", wire_type: WireType::Text, nullable: true },
        ];
        assert(r@ =~= Self::columns());
        r
    }

    fn encode(&self) -> (r: Vec<WireValue>) {
        let r = vec![
            text_value(&self.sample_number),
            text_value(&self.name),
            opt_text_value(&self.id_passport_no),
            float_value(&self.age),
            text_value(&self.age_unit),
            text_value(&self.gender),
            opt_text_value(&self.phone_number),
            text_value(&self.sample_date),
            text_value(&self.result),
            opt_text_value(&self.email_address),
        ];
        assert(cells_of(r@) =~= self.cells());
        r
    }

    fn decode(row: &Vec<WireValue>) -> (r: Result<Self, DecodeError>) {
        let cols = Self::column_list();
        if let Err(e) = check_row(&cols, row) {
            return Err(e);
        }
        let ghost c = cells_of(row@);
        proof {
            lemma_conforms(Self::columns(), c);
        }
        let r = LabVisitsInsert {
            sample_number: text_at(row, 0),
            name: text_at(row, 1),
            id_passport_no: opt_text_at(row, 2),
            age: float_at(row, 3),
            age_unit: text_at(row, 4),
            gender: text_at(row, 5),
            phone_number: opt_text_at(row, 6),
            sample_date: text_at(row, 7),
            result: text_at(row, 8),
            email_address: opt_text_at(row, 9),
        };
        assert(r.cells() =~= padded(c, 10));
        Ok(r)
    }

    proof fn lemma_aligned(&self) {
    }
}

/// One line of an M-Tiba health-wallet statement, as submitted for ingestion.
///
/// Its columns follow the staging table. A field that may be left out of
/// the payload but that the production table requires is declared
/// non-nullable, so that such a record is refused at ingestion.
#[derive(Debug)]
pub struct MtibaStatementInsert {
    pub transactionstateid: Option<i32>,
    pub transactiontypeid: Option<i32>,
    pub facilityzohold: String,
    pub facilityname: String,
    pub fullreferencenumber: String,
    pub phonenumber: String,
    pub payername: String,
    pub sendername: String,
    pub medicalprogramname: String,
    pub amountfordisplay: Option<Float8>,
    pub transactiondate: Timestamp,
    pub paymentdate: Timestamp,
    pub transactiontype: String,
}

impl WireRecord for MtibaStatementInsert {
    open spec fn columns() -> Seq<Column> {
        seq![
            Column { name: "transactionstateid", wire_type: WireType::Int4, nullable: true },
            Column { name: "transactiontypeid", wire_type: WireType::Int4, nullable: true },
            Column { name: "facilityzohold", wire_type: WireType::Text, nullable: false },
            Column { name: "facilityname", wire_type: WireType::Text, nullable: false },
            Column { name: "fullreferencenumber", wire_type: WireType::Text, nullable: false },
            Column { name: "phonenumber", wire_type: WireType::Text, nullable: false },
            Column { name: "payername", wire_type: WireType::Text, nullable: false },
            Column { name: "sendername", wire_type: WireType::Text, nullable: false },
            Column { name: "medicalprogramname", wire_type: WireType::Text, nullable: false },
            Column { name: "amountfordisplay", wire_type: WireType::Float8, nullable: false },
            Column { name: "transactiondate", wire_type: WireType::Timestamp, nullable: false },
            Column { name: "paymentdate", wire_type: WireType::Timestamp, nullable: false },
            Column { name: "transactiontype", wire_type: WireType::Text, nullable: false },
        ]
    }

    open spec fn cells(&self) -> Seq<Cell> {
        seq![
            opt_int4_cell(self.transactionstateid),
            opt_int4_cell(self.transactiontypeid),
            text_cell(self.facilityzohold),
            text_cell(self.facilityname),
            text_cell(self.fullreferencenumber),
            text_cell(self.phonenumber),
            text_cell(self.payername),
            text_cell(self.sendername),
            text_cell(self.medicalprogramname),
            opt_float_cell(self.amountfordisplay),
            ts_cell(self.transactiondate),
            ts_cell(self.paymentdate),
            text_cell(self.transactiontype),
        ]
    }

    fn column_list() -> (r: Vec<Column>) {
        let r = vec![
            Column { name: "transactionstateid", wire_type: WireType::Int4, nullable: true },
            Column { name: "transactiontypeid", wire_type: WireType::Int4, nullable: true },
            Column { name: "facilityzohold", wire_type: WireType::Text, nullable: false },
            Column { name: "facilityname", wire_type: WireType::Text, nullable: false },
            Column { name: "fullreferencenumber", wire_type: WireType::Text, nullable: false },
            Column { name: "phonenumber", wire_type: WireType::Text, nullable: false },
            Column { name: "payername", wire_type: WireType::Text, nullable: false },
            Column { name: "sendername", wire_type: WireType::Text, nullable: false },
            Column { name: "medicalprogramname", wire_type: WireType::Text, nullable: false },
            Column { name: "amountfordisplay", wire_type: WireType::Float8, nullable: false },
            Column { name: "transactiondate", wire_type: WireType::Timestamp, nullable: false },
            Column { name: "paymentdate", wire_type: WireType::Timestamp, nullable: false },
            Column { name: "transactiontype", wire_type: WireType::Text, nullable: false },
        ];
        assert(r@ =~= Self::columns());
        r
    }

    fn encode(&self) -> (r: Vec<WireValue>) {
        let r = vec![
            opt_int4_value(&self.transactionstateid),
            opt_int4_value(&self.transactiontypeid),
            text_value(&self.facilityzohold),
            text_value(&self.facilityname),
            text_value(&self.fullreferencenumber),
            text_value(&self.phonenumber),
            text_value(&self.payername),
            text_value(&self.sendername),
            text_value(&self.medicalprogramname),
            opt_float_value(&self.amountfordisplay),
            ts_value(&self.transactiondate),
            ts_value(&self.paymentdate),
            text_value(&self.transactiontype),
        ];
        assert(cells_of(r@) =~= self.cells());
        r
    }

    fn decode(row: &Vec<WireValue>) -> (r: Result<Self, DecodeError>) {
        let cols = Self::column_list();
        if let Err(e) = check_row(&cols, row) {
            return Err(e);
        }
        let ghost c = cells_of(row@);
        proof {
            lemma_conforms(Self::columns(), c);
        }
        let r = MtibaStatementInsert {
            transactionstateid: opt_int4_at(row, 0),
            transactiontypeid: opt_int4_at(row, 1),
            facilityzohold: text_at(row, 2),
            facilityname: text_at(row, 3),
            fullreferencenumber: text_at(row, 4),
            phonenumber: text_at(row, 5),
            payername: text_at(row, 6),
            sendername: text_at(row, 7),
            medicalprogramname: text_at(row, 8),
            amountfordisplay: opt_float_at(row, 9),
            transactiondate: ts_at(row, 10),
            paymentdate: ts_at(row, 11),
            transactiontype: text_at(row, 12),
        };
        assert(r.cells() =~= padded(c, 13));
        Ok(r)
    }

    proof fn lemma_aligned(&self) {
    }
}

/// One line of an ABSA bank statement, as submitted for ingestion.
///
/// Its columns follow the staging table. A field that may be left out of
/// the payload but that the production table requires is declared
/// non-nullable, so that such a record is refused at ingestion.
#[derive(Debug)]
pub struct ABSAInsert {
    pub transaction_date: String,
    pub value_date: String,
    pub description: String,
    pub user_reference_number: Option<String>,
    pub cheque_number: Option<Float8>,
    pub debit_amount: Option<Float8>,
    pub credit_amount: Option<Float8>,
    pub running_balance: Option<Float8>,
}

impl WireRecord for ABSAInsert {
    open spec fn columns() -> Seq<Column> {
        seq![
            Column { name: "transaction_date", wire_type: WireType::Text, nullable: false },
            Column { name: "value_date", wire_type: WireType::Text, nullable: false },
            Column { name: "description", wire_type: WireType::Text, nullable: false },
            Column { name: "user_reference_number", wire_type: WireType::Text, nullable: true },
            Column { name: "cheque_number", wire_type: WireType::Float8, nullable: true },
            Column { name: "debit_amount", wire_type: WireType::Float8, nullable: true },
            Column { name: "credit_amount", wire_type: WireType::Float8, nullable: true },
            Column { name: "running_balance", wire_type: WireType::Float8, nullable: true },
        ]
    }

    open spec fn cells(&self) -> Seq<Cell> {
        seq![
            text_cell(self.transaction_date),
            text_cell(self.value_date),
            text_cell(self.description),
            opt_text_cell(self.user_reference_number),
            opt_float_cell(self.cheque_number),
            opt_float_cell(self.debit_amount),
            opt_float_cell(self.credit_amount),
            opt_float_cell(self.running_balance),
        ]
    }

    fn column_list() -> (r: Vec<Column>) {
        let r = vec![
            Column { name: "transaction_date", wire_type: WireType::Text, nullable: false },
            Column { name: "value_date", wire_type: WireType::Text, nullable: false },
            Column { name: "description", wire_type: WireType::Text, nullable: false },
            Column { name: "user_reference_number", wire_type: WireType::Text, nullable: true },
            Column { name: "cheque_number", wire_type: WireType::Float8, nullable: true },
            Column { name: "debit_amount", wire_type: WireType::Float8, nullable: true },
            Column { name: "credit_amount", wire_type: WireType::Float8, nullable: true },
            Column { name: "running_balance", wire_type: WireType::Float8, nullable: true },
        ];
        assert(r@ =~= Self::columns());
        r
    }

    fn encode(&self) -> (r: Vec<WireValue>) {
        let r = vec![
            text_value(&self.transaction_date),
            text_value(&self.value_date),
            text_value(&self.description),
            opt_text_value(&self.user_reference_number),
            opt_float_value(&self.cheque_number),
            opt_float_value(&self.debit_amount),
            opt_float_value(&self.credit_amount),
            opt_float_value(&self.running_balance),
        ];
        assert(cells_of(r@) =~= self.cells());
        r
    }

    fn decode(row: &Vec<WireValue>) -> (r: Result<Self, DecodeError>) {
        let cols = Self::column_list();
        if let Err(e) = check_row(&cols, row) {
            return Err(e);
        }
        let ghost c = cells_of(row@);
        proof {
            lemma_conforms(Self::columns(), c);
        }
        let r = ABSAInsert {
            transaction_date: text_at(row, 0),
            value_date: text_at(row, 1),
            description: text_at(row, 2),
            user_reference_number: opt_text_at(row, 3),
            cheque_number: opt_float_at(row, 4),
            debit_amount: opt_float_at(row, 5),
            credit_amount: opt_float_at(row, 6),
            running_balance: opt_float_at(row, 7),
        };
        assert(r.cells() =~= padded(c, 8));
        Ok(r)
    }

    proof fn lemma_aligned(&self) {
    }
}

/// One card-terminal (PDQ) settlement line, as submitted for ingestion.
///
/// Its columns follow the staging table. A field that may be left out of
/// the payload but that the production table requires is declared
/// non-nullable, so that such a record is refused at ingestion.
#[derive(Debug)]
pub struct PdqBreakdownInsert {
    pub account_no: Option<Float8>,
    pub location_no: Option<Float8>,
    pub legal_name: Option<String>,
    pub card_no: String,
    pub txn_date: Option<String>,
    pub processing_date: Option<String>,
    pub payment_date: Option<String>,
    pub terminal_id: Option<Float8>,
    pub auth_id: Option<String>,
    pub amount: Option<Float8>,
    pub commission: Option<Float8>,
    pub net_amount: Option<Float8>,
    pub trxn_type: Option<String>,
    pub currency: Option<String>,
    pub pmnt_type: Option<String>,
    pub trxn_source: Option<String>,
    pub scheme: Option<String>,
    pub commercial_name: Option<String>,
    pub arn_reference: Option<String>,
    pub retrieval_ref_no: Option<String>,
    pub tip_amount: Option<Float8>,
    pub card_present: Option<String>,
}

impl WireRecord for PdqBreakdownInsert {
    open spec fn columns() -> Seq<Column> {
        seq![
            Column { name: "account_no", wire_type: WireType::Float8, nullable: true },
            Column { name: "location_no", wire_type: WireType::Float8, nullable: true },
            Column { name: "legal_name", wire_type: WireType::Text, nullable: true },
            Column { name: "card_no", wire_type: WireType::Text, nullable: false },
            Column { name: "txn_date", wire_type: WireType::Text, nullable: true },
            Column { name: "processing_date", wire_type: WireType::Text, nullable: true },
            Column { name: "payment_date", wire_type: WireType::Text, nullable: true },
            Column { name: "terminal_id", wire_type: WireType::Float8, nullable: true },
            Column { name: "auth_id", wire_type: WireType::Text, nullable: true },
            Column { name: "amount", wire_type: WireType::Float8, nullable: true },
            Column { name: "commission", wire_type: WireType::Float8, nullable: true },
            Column { name: "net_amount", wire_type: WireType::Float8, nullable: true },
            Column { name: "trxn_type", wire_type: WireType::Text, nullable: true },
            Column { name: "currency", wire_type: WireType::Text, nullable: true },
            Column { name: "pmnt_type", wire_type: WireType::Text, nullable: true },
            Column { name: "trxn_source", wire_type: WireType::Text, nullable: true },
            Column { name: "scheme", wire_type: WireType::Text, nullable: true },
            Column { name: "commercial_name", wire_type: WireType::Text, nullable: true },
            Column { name: "arn_reference", wire_type: WireType::Text, nullable: true },
            Column { name: "retrieval_ref_no", wire_type: WireType::Text, nullable: true },
            Column { name: "tip_amount", wire_type: WireType::Float8, nullable: true },
            Column { name: "card_present", wire_type: WireType::Text, nullable: true },
        ]
    }

    open spec fn cells(&self) -> Seq<Cell> {
        seq![
            opt_float_cell(self.account_no),
            opt_float_cell(self.location_no),
            opt_text_cell(self.legal_name),
            text_cell(self.card_no),
            opt_text_cell(self.txn_date),
            opt_text_cell(self.processing_date),
            opt_text_cell(self.payment_date),
            opt_float_cell(self.terminal_id),
            opt_text_cell(self.auth_id),
            opt_float_cell(self.amount),
            opt_float_cell(self.commission),
            opt_float_cell(self.net_amount),
            opt_text_cell(self.trxn_type),
            opt_text_cell(self.currency),
            opt_text_cell(self.pmnt_type),
            opt_text_cell(self.trxn_source),
            opt_text_cell(self.scheme),
            opt_text_cell(self.commercial_name),
            opt_text_cell(self.arn_reference),
            opt_text_cell(self.retrieval_ref_no),
            opt_float_cell(self.tip_amount),
            opt_text_cell(self.card_present),
        ]
    }

    fn column_list() -> (r: Vec<Column>) {
        let r = vec![
            Column { name: "account_no", wire_type: WireType::Float8, nullable: true },
            Column { name: "location_no", wire_type: WireType::Float8, nullable: true },
            Column { name: "legal_name", wire_type: WireType::Text, nullable: true },
            Column { name: "card_no", wire_type: WireType::Text, nullable: false },
            Column { name: "txn_date", wire_type: WireType::Text, nullable: true },
            Column { name: "processing_date", wire_type: WireType::Text, nullable: true },
            Column { name: "payment_date", wire_type: WireType::Text, nullable: true },
            Column { name: "terminal_id", wire_type: WireType::Float8, nullable: true },
            Column { name: "auth_id", wire_type: WireType::Text, nullable: true },
            Column { name: "amount", wire_type: WireType::Float8, nullable: true },
            Column { name: "commission", wire_type: WireType::Float8, nullable: true },
            Column { name: "net_amount", wire_type: WireType::Float8, nullable: true },
            Column { name: "trxn_type", wire_type: WireType::Text, nullable: true },
            Column { name: "currency", wire_type: WireType::Text, nullable: true },
            Column { name: "pmnt_type", wire_type: WireType::Text, nullable: true },
            Column { name: "trxn_source", wire_type: WireType::Text, nullable: true },
            Column { name: "scheme", wire_type: WireType::Text, nullable: true },
            Column { name: "commercial_name", wire_type: WireType::Text, nullable: true },
            Column { name: "arn_reference", wire_type: WireType::Text, nullable: true },
            Column { name: "retrieval_ref_no", wire_type: WireType::Text, nullable: true },
            Column { name: "tip_amount", wire_type: WireType::Float8, nullable: true },
            Column { name: "card_present", wire_type: WireType::Text, nullable: true },
        ];
        assert(r@ =~= Self::columns());
        r
    }

    fn encode(&self) -> (r: Vec<WireValue>) {
        let r = vec![
            opt_float_value(&self.account_no),
            opt_float_value(&self.location_no),
            opt_text_value(&self.legal_name),
            text_value(&self.card_no),
            opt_text_value(&self.txn_date),
            opt_text_value(&self.processing_date),
            opt_text_value(&self.payment_date),
            opt_float_value(&self.terminal_id),
            opt_text_value(&self.auth_id),
            opt_float_value(&self.amount),
            opt_float_value(&self.commission),
            opt_float_value(&self.net_amount),
            opt_text_value(&self.trxn_type),
            opt_text_value(&self.currency),
            opt_text_value(&self.pmnt_type),
            opt_text_value(&self.trxn_source),
            opt_text_value(&self.scheme),
            opt_text_value(&self.commercial_name),
            opt_text_value(&self.arn_reference),
            opt_text_value(&self.retrieval_ref_no),
            opt_float_value(&self.tip_amount),
            opt_text_value(&self.card_present),
        ];
        assert(cells_of(r@) =~= self.cells());
        r
    }

    fn decode(row: &Vec<WireValue>) -> (r: Result<Self, DecodeError>) {
        let cols = Self::column_list();
        if let Err(e) = check_row(&cols, row) {
            return Err(e);
        }
        let ghost c = cells_of(row@);
        proof {
            lemma_conforms(Self::columns(), c);
        }
        let r = PdqBreakdownInsert {
            account_no: opt_float_at(row, 0),
            location_no: opt_float_at(row, 1),
            legal_name: opt_text_at(row, 2),
            card_no: text_at(row, 3),
            txn_date: opt_text_at(row, 4),
            processing_date: opt_text_at(row, 5),
            payment_date: opt_text_at(row, 6),
            terminal_id: opt_float_at(row, 7),
            auth_id: opt_text_at(row, 8),
            amount: opt_float_at(row, 9),
            commission: opt_float_at(row, 10),
            net_amount: opt_float_at(row, 11),
            trxn_type: opt_text_at(row, 12),
            currency: opt_text_at(row, 13),
            pmnt_type: opt_text_at(row, 14),
            trxn_source: opt_text_at(row, 15),
            scheme: opt_text_at(row, 16),
            commercial_name: opt_text_at(row, 17),
            arn_reference: opt_text_at(row, 18),
            retrieval_ref_no: opt_text_at(row, 19),
            tip_amount: opt_float_at(row, 20),
            card_present: opt_text_at(row, 21),
        };
        assert(r.cells() =~= padded(c, 22));
        Ok(r)
    }

    proof fn lemma_aligned(&self) {
    }
}

/// One line of a Sidian bank statement, as submitted for ingestion.
///
/// Its columns follow the staging table. A field that may be left out of
/// the payload but that the production table requires is declared
/// non-nullable, so that such a record is refused at ingestion.
#[derive(Debug)]
pub struct SidianInsert {
    pub date: String,
    pub valuedate: Option<String>,
    pub reference: Option<String>,
    pub narration: Option<String>,
    pub chequenumber: Option<Float8>,
    pub debit: Option<Float8>,
    pub credit: Option<Float8>,
    pub balance: Float8,
}

impl WireRecord for SidianInsert {
    open spec fn columns() -> Seq<Column> {
        seq![
            Column { name: "date", wire_type: WireType::Text, nullable: false },
            Column { name: "valuedate", wire_type: WireType::Text, nullable: true },
            Column { name: "reference", wire_type: WireType::Text, nullable: true },
            Column { name: "narration", wire_type: WireType::Text, nullable: true },
            Column { name: "chequenumber", wire_type: WireType::Float8, nullable: true },
            Column { name: "debit", wire_type: WireType::Float8, nullable: true },
            Column { name: "credit", wire_type: WireType::Float8, nullable: true },
            Column { name: "balance", wire_type: WireType::Float8, nullable: false },
        ]
    }

    open spec fn cells(&self) -> Seq<Cell> {
        seq![
            text_cell(self.date),
            opt_text_cell(self.valuedate),
            opt_text_cell(self.reference),
            opt_text_cell(self.narration),
            opt_float_cell(self.chequenumber),
            opt_float_cell(self.debit),
            opt_float_cell(self.credit),
            float_cell(self.balance),
        ]
    }

    fn column_list() -> (r: Vec<Column>) {
        let r = vec![
            Column { name: "date", wire_type: WireType::Text, nullable: false },
            Column { name: "valuedate", wire_type: WireType::Text, nullable: true },
            Column { name: "reference", wire_type: WireType::Text, nullable: true },
            Column { name: "narration", wire_type: WireType::Text, nullable: true },
            Column { name: "chequenumber", wire_type: WireType::Float8, nullable: true },
            Column { name: "debit", wire_type: WireType::Float8, nullable: true },
            Column { name: "credit", wire_type: WireType::Float8, nullable: true },
            Column { name: "balance", wire_type: WireType::Float8, nullable: false },
        ];
        assert(r@ =~= Self::columns());
        r
    }

    fn encode(&self) -> (r: Vec<WireValue>) {
        let r = vec![
            text_value(&self.date),
            opt_text_value(&self.valuedate),
            opt_text_value(&self.reference),
            opt_text_value(&self.narration),
            opt_float_value(&self.chequenumber),
            opt_float_value(&self.debit),
            opt_float_value(&self.credit),
            float_value(&self.balance),
        ];
        assert(cells_of(r@) =~= self.cells());
        r
    }

    fn decode(row: &Vec<WireValue>) -> (r: Result<Self, DecodeError>) {
        let cols = Self::column_list();
        if let Err(e) = check_row(&cols, row) {
            return Err(e);
        }
        let ghost c = cells_of(row@);
        proof {
            lemma_conforms(Self::columns(), c);
        }
        let r = SidianInsert {
            date: text_at(row, 0),
            valuedate: opt_text_at(row, 1),
            reference: opt_text_at(row, 2),
            narration: opt_text_at(row, 3),
            chequenumber: opt_float_at(row, 4),
            debit: opt_float_at(row, 5),
            credit: opt_float_at(row, 6),
            balance: float_at(row, 7),
        };
        assert(r.cells() =~= padded(c, 8));
        Ok(r)
    }

    proof fn lemma_aligned(&self) {
    }
}

/// One line of a CFC bank statement, as submitted for ingestion.
///
/// Its columns follow the staging table. A field that may be left out of
/// the payload but that the production table requires is declared
/// non-nullable, so that such a record is refused at ingestion.
#[derive(Debug)]
pub struct CfcInsert {
    pub date: Timestamp,
    pub transaction: String,
    pub value_date: Timestamp,
    pub debit: Option<Float8>,
    pub credit: Option<Float8>,
    pub ledger_balance: Option<Float8>,
    pub available_balance: Option<Float8>,
}

impl WireRecord for CfcInsert {
    open spec fn columns() -> Seq<Column> {
        seq![
            Column { name: "date", wire_type: WireType::Timestamp, nullable: false },
            Column { name: "transaction", wire_type: WireType::Text, nullable: false },
            Column { name: "value_date", wire_type: WireType::Timestamp, nullable: false },
            Column { name: "debit", wire_type: WireType::Float8, nullable: true },
            Column { name: "credit", wire_type: WireType::Float8, nullable: true },
            Column { name: "ledger_balance", wire_type: WireType::Float8, nullable: true },
            Column { name: "available_balance", wire_type: WireType::Float8, nullable: true },
        ]
    }

    open spec fn cells(&self) -> Seq<Cell> {
        seq![
            ts_cell(self.date),
            text_cell(self.transaction),
            ts_cell(self.value_date),
            opt_float_cell(self.debit),
            opt_float_cell(self.credit),
            opt_float_cell(self.ledger_balance),
            opt_float_cell(self.available_balance),
        ]
    }

    fn column_list() -> (r: Vec<Column>) {
        let r = vec![
            Column { name: "date", wire_type: WireType::Timestamp, nullable: false },
            Column { name: "transaction", wire_type: WireType::Text, nullable: false },
            Column { name: "value_date", wire_type: WireType::Timestamp, nullable: false },
            Column { name: "debit", wire_type: WireType::Float8, nullable: true },
            Column { name: "credit", wire_type: WireType::Float8, nullable: true },
            Column { name: "ledger_balance", wire_type: WireType::Float8, nullable: true },
            Column { name: "available_balance", wire_type: WireType::Float8, nullable: true },
        ];
        assert(r@ =~= Self::columns());
        r
    }

    fn encode(&self) -> (r: Vec<WireValue>) {
        let r = vec![
            ts_value(&self.date),
            text_value(&self.transaction),
            ts_value(&self.value_date),
            opt_float_value(&self.debit),
            opt_float_value(&self.credit),
            opt_float_value(&self.ledger_balance),
            opt_float_value(&self.available_balance),
        ];
        assert(cells_of(r@) =~= self.cells());
        r
    }

    fn decode(row: &Vec<WireValue>) -> (r: Result<Self, DecodeError>) {
        let cols = Self::column_list();
        if let Err(e) = check_row(&cols, row) {
            return Err(e);
        }
        let ghost c = cells_of(row@);
        proof {
            lemma_conforms(Self::columns(), c);
        }
        let r = CfcInsert {
            date: ts_at(row, 0),
            transaction: text_at(row, 1),
            value_date: ts_at(row, 2),
            debit: opt_float_at(row, 3),
            credit: opt_float_at(row, 4),
            ledger_balance: opt_float_at(row, 5),
            available_balance: opt_float_at(row, 6),
        };
        assert(r.cells() =~= padded(c, 7));
        Ok(r)
    }

    proof fn lemma_aligned(&self) {
    }
}

} // verus!
