//! The schema registry: one declared staging schema per statement type.
use vstd::prelude::*;
use vstd::string::StringExecFns;
use crate::codec::WireRecord;
use crate::schema::Column;
use crate::staging::{
    ABSAInsert, BillDetailsInsert, CfcInsert, CollectionDetailsInsert, LabVisitsInsert,
    MpesaStatementInsert, MtibaStatementInsert, PdqBreakdownInsert, SidianInsert,
};

verus! {

/// The statement types that can be ingested.
#[derive(Clone, Copy, Debug, PartialEq, Eq, Structural)]
pub enum StatementKind {
    /// An M-Pesa mobile-money statement.
    Mpesa,
    /// Collection (receipt) details from the billing system.
    CollectionDetails,
    /// Billed service lines from the billing system.
    BillDetails,
    /// Laboratory visits.
    LabVisits,
    /// An M-Tiba health-wallet statement.
    Mtiba,
    /// An ABSA bank statement.
    Absa,
    /// Card-terminal (PDQ) settlement breakdowns.
    Pdq,
    /// A Sidian bank statement.
    Sidian,
    /// A CFC bank statement.
    Cfc,
}

/// Why an ingestion did not commit.
#[derive(Clone, Copy, Debug, PartialEq, Eq)]
pub enum IngestError {
    /// No statement type is registered under the requested name.
    UnknownSchema,
    /// The record at position `record` of the batch does not fit its schema
    /// at the named column.
    SchemaViolation { record: usize, column: &'static str },
    /// The store could not be reached, or the connection failed.
    ConnectionError,
    /// The store refused a row under one of its integrity rules.
    ConstraintViolation,
    /// The commit itself failed; nothing of the batch is visible.
    CommitFailed,
}

/// The declared staging schema of one statement type.
#[derive(Debug)]
pub struct StatementSchema {
    pub kind: StatementKind,
    /// The staging table that ingestion writes to.
    pub table: &'static str,
    /// The identifier of the bulk-insert template of the statement type.
    pub insert_template: &'static str,
    /// The columns, in the order in which the record codec emits values.
    pub columns: Vec<Column>,
}

/// The name under which a statement type is registered.
pub open spec fn kind_name(k: StatementKind) -> &'static str {
    match k {
        StatementKind::Mpesa => "mpesa",
        StatementKind::CollectionDetails => "collectiondetails",
        StatementKind::BillDetails => "billdetails",
        StatementKind::LabVisits => "labvisits",
        StatementKind::Mtiba => "mtiba",
        StatementKind::Absa => "absa",
        StatementKind::Pdq => "pdq",
        StatementKind::Sidian => "sidian",
        StatementKind::Cfc => "cfc",
    }
}

/// The statement type registered under a name, if any.
pub open spec fn kind_named(name: Seq<char>) -> Option<StatementKind> {
    if name == kind_name(StatementKind::Mpesa)@ {
        Some(StatementKind::Mpesa)
    } else if name == kind_name(StatementKind::CollectionDetails)@ {
        Some(StatementKind::CollectionDetails)
    } else if name == kind_name(StatementKind::BillDetails)@ {
        Some(StatementKind::BillDetails)
    } else if name == kind_name(StatementKind::LabVisits)@ {
        Some(StatementKind::LabVisits)
    } else if name == kind_name(StatementKind::Mtiba)@ {
        Some(StatementKind::Mtiba)
    } else if name == kind_name(StatementKind::Absa)@ {
        Some(StatementKind::Absa)
    } else if name == kind_name(StatementKind::Pdq)@ {
        Some(StatementKind::Pdq)
    } else if name == kind_name(StatementKind::Sidian)@ {
        Some(StatementKind::Sidian)
    } else if name == kind_name(StatementKind::Cfc)@ {
        Some(StatementKind::Cfc)
    } else {
        None
    }
}

/// The staging table of a statement type.
pub open spec fn table_name(k: StatementKind) -> &'static str {
    match k {
        StatementKind::Mpesa => "staging.mpesa_statement",
        StatementKind::CollectionDetails => "staging.collection_details",
        StatementKind::BillDetails => "staging.bill_details",
        StatementKind::LabVisits => "staging.lab_visits",
        StatementKind::Mtiba => "staging.mtiba_statement",
        StatementKind::Absa => "staging.absa_statement",
        StatementKind::Pdq => "staging.pdq_statement",
        StatementKind::Sidian => "staging.sidian_statement",
        StatementKind::Cfc => "staging.cfc_statement",
    }
}

/// The bulk-insert template identifier of a statement type.
pub open spec fn template_name(k: StatementKind) -> &'static str {
    match k {
        StatementKind::Mpesa => "update_mpesa_statement",
        StatementKind::CollectionDetails => "update_collection_details",
        StatementKind::BillDetails => "update_bill_details",
        StatementKind::LabVisits => "update_lab_visits",
        StatementKind::Mtiba => "update_mtiba_statement",
        StatementKind::Absa => "update_absa_statement",
        StatementKind::Pdq => "update_pdq_statement",
        StatementKind::Sidian => "update_sidian_statement",
        StatementKind::Cfc => "update_cfc_statement",
    }
}

/// The declared staging columns of a statement type.
pub open spec fn staging_columns(k: StatementKind) -> Seq<Column> {
    match k {
        StatementKind::Mpesa => MpesaStatementInsert::columns(),
        StatementKind::CollectionDetails => CollectionDetailsInsert::columns(),
        StatementKind::BillDetails => BillDetailsInsert::columns(),
        StatementKind::LabVisits => LabVisitsInsert::columns(),
        StatementKind::Mtiba => MtibaStatementInsert::columns(),
        StatementKind::Absa => ABSAInsert::columns(),
        StatementKind::Pdq => PdqBreakdownInsert::columns(),
        StatementKind::Sidian => SidianInsert::columns(),
        StatementKind::Cfc => CfcInsert::columns(),
    }
}

/// What the registry declares for a statement type.
pub open spec fn declares(s: &StatementSchema, k: StatementKind) -> bool {
    &&& s.kind == k
    &&& s.table == table_name(k)
    &&& s.insert_template == template_name(k)
    &&& s.columns@ == staging_columns(k)
}

/// A record type that is ingested into the staging table of one statement type.
pub trait StagingRecord: WireRecord {
    /// The statement type of the record.
    spec fn kind_spec() -> StatementKind;

    /// The statement type of the record, whose declared staging columns are
    /// the record's own.
    fn kind() -> (k: StatementKind)
        ensures
            k == Self::kind_spec(),
            staging_columns(k) == Self::columns(),
    ;

    /// The registry declares the record's own columns for its statement type.
    proof fn lemma_kind_columns()
        ensures
            staging_columns(Self::kind_spec()) == Self::columns(),
    ;
}

impl StagingRecord for MpesaStatementInsert {
    open spec fn kind_spec() -> StatementKind {
        StatementKind::Mpesa
    }

    fn kind() -> (k: StatementKind) {
        StatementKind::Mpesa
    }

    proof fn lemma_kind_columns() {
    }
}

impl StagingRecord for CollectionDetailsInsert {
    open spec fn kind_spec() -> StatementKind {
        StatementKind::CollectionDetails
    }

    fn kind() -> (k: StatementKind) {
        StatementKind::CollectionDetails
    }

    proof fn lemma_kind_columns() {
    }
}

impl StagingRecord for BillDetailsInsert {
    open spec fn kind_spec() -> StatementKind {
        StatementKind::BillDetails
    }

    fn kind() -> (k: StatementKind) {
        StatementKind::BillDetails
    }

    proof fn lemma_kind_columns() {
    }
}

impl StagingRecord for LabVisitsInsert {
    open spec fn kind_spec() -> StatementKind {
        StatementKind::LabVisits
    }

    fn kind() -> (k: StatementKind) {
        StatementKind::LabVisits
    }

    proof fn lemma_kind_columns() {
    }
}

impl StagingRecord for MtibaStatementInsert {
    open spec fn kind_spec() -> StatementKind {
        StatementKind::Mtiba
    }

    fn kind() -> (k: StatementKind) {
        StatementKind::Mtiba
    }

    proof fn lemma_kind_columns() {
    }
}

impl StagingRecord for ABSAInsert {
    open spec fn kind_spec() -> StatementKind {
        StatementKind::Absa
    }

    fn kind() -> (k: StatementKind) {
        StatementKind::Absa
    }

    proof fn lemma_kind_columns() {
    }
}

impl StagingRecord for PdqBreakdownInsert {
    open spec fn kind_spec() -> StatementKind {
        StatementKind::Pdq
    }

    fn kind() -> (k: StatementKind) {
        StatementKind::Pdq
    }

    proof fn lemma_kind_columns() {
    }
}

impl StagingRecord for SidianInsert {
    open spec fn kind_spec() -> StatementKind {
        StatementKind::Sidian
    }

    fn kind() -> (k: StatementKind) {
        StatementKind::Sidian
    }

    proof fn lemma_kind_columns() {
    }
}

impl StagingRecord for CfcInsert {
    open spec fn kind_spec() -> StatementKind {
        StatementKind::Cfc
    }

    fn kind() -> (k: StatementKind) {
        StatementKind::Cfc
    }

    proof fn lemma_kind_columns() {
    }
}

impl StatementKind {
    /// The name under which the statement type is registered.
    pub fn name(&self) -> (r: &'static str)
        ensures
            r == kind_name(*self),
    {
        match self {
            StatementKind::Mpesa => "mpesa",
            StatementKind::CollectionDetails => "collectiondetails",
            StatementKind::BillDetails => "billdetails",
            StatementKind::LabVisits => "labvisits",
            StatementKind::Mtiba => "mtiba",
            StatementKind::Absa => "absa",
            StatementKind::Pdq => "pdq",
            StatementKind::Sidian => "sidian",
            StatementKind::Cfc => "cfc",
        }
    }
}

/// The declared schema of a statement type.
pub fn schema_of(kind: StatementKind) -> (r: StatementSchema)
    ensures
        declares(&r, kind),
{
    match kind {
        StatementKind::Mpesa => StatementSchema {
            kind,
            table: "staging.mpesa_statement",
            insert_template: "update_mpesa_statement",
            columns: MpesaStatementInsert::column_list(),
        },
        StatementKind::CollectionDetails => StatementSchema {
            kind,
            table: "staging.collection_details",
            insert_template: "update_collection_details",
            columns: CollectionDetailsInsert::column_list(),
        },
        StatementKind::BillDetails => StatementSchema {
            kind,
            table: "staging.bill_details",
            insert_template: "update_bill_details",
            columns: BillDetailsInsert::column_list(),
        },
        StatementKind::LabVisits => StatementSchema {
            kind,
            table: "staging.lab_visits",
            insert_template: "update_lab_visits",
            columns: LabVisitsInsert::column_list(),
        },
        StatementKind::Mtiba => StatementSchema {
            kind,
            table: "staging.mtiba_statement",
            insert_template: "update_mtiba_statement",
            columns: MtibaStatementInsert::column_list(),
        },
        StatementKind::Absa => StatementSchema {
            kind,
            table: "staging.absa_statement",
            insert_template: "update_absa_statement",
            columns: ABSAInsert::column_list(),
        },
        StatementKind::Pdq => StatementSchema {
            kind,
            table: "staging.pdq_statement",
            insert_template: "update_pdq_statement",
            columns: PdqBreakdownInsert::column_list(),
        },
        StatementKind::Sidian => StatementSchema {
            kind,
            table: "staging.sidian_statement",
            insert_template: "update_sidian_statement",
            columns: SidianInsert::column_list(),
        },
        StatementKind::Cfc => StatementSchema {
            kind,
            table: "staging.cfc_statement",
            insert_template: "update_cfc_statement",
            columns: CfcInsert::column_list(),
        },
    }
}

/// Looks a statement type up by its registered name.
pub fn lookup(name: &str) -> (r: Result<StatementSchema, IngestError>)
    ensures
        match kind_named(name@) {
            Some(k) => r is Ok && declares(&r->Ok_0, k),
            None => r is Err && r->Err_0 == IngestError::UnknownSchema,
        },
{
    let key = String::from_str(name);
    if key == String::from_str("mpesa") {
        return Ok(schema_of(StatementKind::Mpesa));
    }
    if key == String::from_str("collectiondetails") {
        return Ok(schema_of(StatementKind::CollectionDetails));
    }
    if key == String::from_str("billdetails") {
        return Ok(schema_of(StatementKind::BillDetails));
    }
    if key == String::from_str("labvisits") {
        return Ok(schema_of(StatementKind::LabVisits));
    }
    if key == String::from_str("mtiba") {
        return Ok(schema_of(StatementKind::Mtiba));
    }
    if key == String::from_str("absa") {
        return Ok(schema_of(StatementKind::Absa));
    }
    if key == String::from_str("pdq") {
        return Ok(schema_of(StatementKind::Pdq));
    }
    if key == String::from_str("sidian") {
        return Ok(schema_of(StatementKind::Sidian));
    }
    if key == String::from_str("cfc") {
        return Ok(schema_of(StatementKind::Cfc));
    }
    Err(IngestError::UnknownSchema)
}

} // verus!
