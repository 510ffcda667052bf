//! The SQLite database: its schema and the rows to insert, ready to be handed
//! to a connection.

use vstd::prelude::*;
use vstd::string::StringExecFns;
use crate::common::{
    triples, BuildError, BuildErrorView, FigureData, FigureView, OUTPUT_DIR,
};
use crate::text::{decimal_text, decimal_u16, lemma_decimal_round_trip, numeral_value};

verus! {

/// Creates the one table of the database: both identifiers and the name are
/// required, the identifier pair is the primary key, and names are unique.
pub const CREATE_TABLE: &'static str = "CREATE TABLE PortalFigure (
            figure_id INTEGER NOT NULL,
            variant_id INTEGER NOT NULL,
            name TEXT NOT NULL,
            PRIMARY KEY (figure_id, variant_id),
            UNIQUE(name)
        )";

/// Inserts one figure; its three parameters are the columns in order.
pub const INSERT_ROW: &'static str =
    "INSERT INTO PortalFigure (figure_id, variant_id, name) VALUES (?1, ?2, ?3)";

/// The parameters of one insert.
#[derive(Debug, Clone)]
pub struct Row {
    /// Decimal numeral of the figure identifier.
    pub figure_id: String,
    /// Decimal numeral of the variant identifier.
    pub variant_id: String,
    /// The figure's name.
    pub name: String,
}

/// What a row holds, as mathematical values.
pub ghost struct RowView {
    pub figure_id: Seq<char>,
    pub variant_id: Seq<char>,
    pub name: Seq<char>,
}

impl View for Row {
    type V = RowView;

    open spec fn view(&self) -> RowView {
        RowView { figure_id: self.figure_id@, variant_id: self.variant_id@, name: self.name@ }
    }
}

/// Everything needed to build the database: run `create_table` once, then
/// `insert_row` with each row's parameters, in order.
#[derive(Debug, Clone)]
pub struct DatabasePlan {
    /// The database file.
    pub file_name: String,
    /// The statement that creates the table.
    pub create_table: String,
    /// The statement that inserts one row.
    pub insert_row: String,
    /// The parameters of each insert, in collection order.
    pub rows: Vec<Row>,
}

/// The database file for a version.
pub open spec fn file_name_text(version: Seq<char>) -> Seq<char> {
    OUTPUT_DIR@ + "/portal-figure_v"@ + version + ".db"@
}

/// The row that stores a figure.
pub open spec fn row_of(f: FigureView) -> RowView {
    RowView {
        figure_id: decimal_text(f.figure_id as nat),
        variant_id: decimal_text(f.variant_id as nat),
        name: f.name,
    }
}

/// The rows that store a collection, in its order.
pub open spec fn rows_of(figs: Seq<FigureData>) -> Seq<RowView> {
    Seq::new(figs.len(), |i: int| row_of(figs[i]@))
}

/// What a row's parameters read as: two numbers and a name.
pub open spec fn row_reading(row: RowView) -> (nat, nat, Seq<char>) {
    (numeral_value(row.figure_id, 10), numeral_value(row.variant_id, 10), row.name)
}

/// The rows of a collection read back as exactly its identifier pairs and
/// names, one row per figure and in the same order.
pub proof fn lemma_rows_hold_triples(figs: Seq<FigureData>)
    ensures
        rows_of(figs).len() == figs.len(),
        forall|i: int|
            0 <= i < figs.len() ==> row_reading(#[trigger] rows_of(figs)[i]) == (
                triples(figs)[i].0 as nat,
                triples(figs)[i].1 as nat,
                triples(figs)[i].2,
            ),
{
    assert forall|i: int| 0 <= i < figs.len() implies row_reading(#[trigger] rows_of(figs)[i]) == (
        triples(figs)[i].0 as nat,
        triples(figs)[i].1 as nat,
        triples(figs)[i].2,
    ) by {
        lemma_decimal_round_trip(figs[i].figure_id as nat);
        lemma_decimal_round_trip(figs[i].variant_id as nat);
    }
}

/// Plans the database for a collection and a version.
pub fn emit(all_figure_data: &Vec<FigureData>, version: &str) -> (r: DatabasePlan)
    ensures
        r.file_name@ == file_name_text(version@),
        r.create_table@ == CREATE_TABLE@,
        r.insert_row@ == INSERT_ROW@,
        r.rows@.len() == all_figure_data@.len(),
        forall|i: int|
            0 <= i < all_figure_data@.len() ==> (#[trigger] r.rows@[i])@ == row_of(
                all_figure_data@[i]@,
            ),
{
    let mut file_name = String::from_str(OUTPUT_DIR);
    file_name.append("/portal-figure_v");
    file_name.append(version);
    file_name.append(".db");

    let mut rows: Vec<Row> = Vec::new();
    let mut i: usize = 0;
    while i < all_figure_data.len()
        invariant
            i <= all_figure_data@.len(),
            rows@.len() == i,
            forall|k: int| 0 <= k < i ==> (#[trigger] rows@[k])@ == row_of(all_figure_data@[k]@),
        decreases all_figure_data@.len() - i,
    {
        let figure = &all_figure_data[i];
        rows.push(
            Row {
                figure_id: decimal_u16(figure.figure_id),
                variant_id: decimal_u16(figure.variant_id),
                name: figure.name.clone(),
            },
        );
        i += 1;
    }
    DatabasePlan {
        file_name,
        create_table: String::from_str(CREATE_TABLE),
        insert_row: String::from_str(INSERT_ROW),
        rows,
    }
}

/// The error for an insert that failed. A row that the table's constraints
/// refused is a constraint error that names the figure; any other failure
/// is an I/O error on the database file.
pub fn insert_failure(name: &str, file_name: &str, constraint: bool, diagnostic: String) -> (e:
    BuildError)
    ensures
        constraint ==> e@ == (BuildErrorView::EmitConstraint {
            name: name@,
            diagnostic: diagnostic@,
        }),
        !constraint ==> e@ == (BuildErrorView::EmitIo {
            target: file_name@,
            diagnostic: "Failed to insert figure '"@ + name@ + "': "@ + diagnostic@,
        }),
{
    if constraint {
        BuildError::EmitConstraint { name: String::from_str(name), diagnostic }
    } else {
        let mut text = String::from_str("Failed to insert figure '");
        text.append(name);
        text.append("': ");
        text.append(diagnostic.as_str());
        BuildError::EmitIo { target: String::from_str(file_name), diagnostic: text }
    }
}

} // verus!
