//! What holds across the four artifacts of one validated collection.

use vstd::prelude::*;
use crate::aggregate::is_valid_collection;
use crate::common::{triples, FigureData, FigureView};
use crate::text::{
    decimal_text, hex_text, lemma_decimal_round_trip, lemma_hex_round_trip, numeral_value,
};
use crate::javascript;
use crate::json;
use crate::rust;
use crate::sqlite;

verus! {

/// Whether two collections agree, place by place, in identifiers, name and
/// slug.
pub open spec fn same_content(a: Seq<FigureData>, b: Seq<FigureData>) -> bool {
    &&& a.len() == b.len()
    &&& forall|i: int|
        0 <= i < a.len() ==> {
            &&& (#[trigger] a[i]).figure_id == b[i].figure_id
            &&& a[i].variant_id == b[i].variant_id
            &&& a[i].name@ == b[i].name@
            &&& a[i].name_id@ == b[i].name_id@
        }
}

/// Validated collections with the same triples agree in their slugs too,
/// since a slug is derived from the name alone.
pub proof fn lemma_triples_fix_content(a: Seq<FigureData>, b: Seq<FigureData>)
    requires
        is_valid_collection(a),
        is_valid_collection(b),
        triples(a) == triples(b),
    ensures
        same_content(a, b),
{
    assert(triples(a).len() == a.len());
    assert(triples(b).len() == b.len());
    assert forall|i: int| 0 <= i < a.len() implies {
        &&& (#[trigger] a[i]).figure_id == b[i].figure_id
        &&& a[i].variant_id == b[i].variant_id
        &&& a[i].name@ == b[i].name@
        &&& a[i].name_id@ == b[i].name_id@
    } by {
        assert(triples(a)[i] == triples(b)[i]);
    }
}

proof fn lemma_javascript_blocks(a: Seq<FigureData>, b: Seq<FigureData>)
    requires
        same_content(a, b),
    ensures
        javascript::const_blocks_text(a) == javascript::const_blocks_text(b),
    decreases a.len(),
{
    if a.len() > 0 {
        lemma_javascript_blocks(a.drop_last(), b.drop_last());
    }
}

proof fn lemma_rust_blocks(a: Seq<FigureData>, b: Seq<FigureData>)
    requires
        same_content(a, b),
    ensures
        rust::const_blocks_text(a) == rust::const_blocks_text(b),
    decreases a.len(),
{
    if a.len() > 0 {
        lemma_rust_blocks(a.drop_last(), b.drop_last());
    }
}

/// Every artifact is written from the identifier pairs and names of the
/// validated collection, in its order, and from nothing else: two validated
/// collections with the same triples give the same module source, type
/// declarations, library source, JSON document and database rows.
pub proof fn lemma_artifacts_follow_triples(a: Seq<FigureData>, b: Seq<FigureData>)
    requires
        is_valid_collection(a),
        is_valid_collection(b),
        triples(a) == triples(b),
    ensures
        javascript::index_js_text(a) == javascript::index_js_text(b),
        javascript::index_dts_text(a) == javascript::index_dts_text(b),
        rust::lib_rs_text(a) == rust::lib_rs_text(b),
        json::document_text(a) == json::document_text(b),
        sqlite::rows_of(a) == sqlite::rows_of(b),
{
    lemma_triples_fix_content(a, b);
    lemma_javascript_blocks(a, b);
    lemma_rust_blocks(a, b);
    assert(javascript::export_names(a) =~= javascript::export_names(b));
    assert(javascript::declarations(a) =~= javascript::declarations(b));
    assert(rust::export_names(a) =~= rust::export_names(b));
    assert(json::objects_of(a) =~= json::objects_of(b));
    assert(sqlite::rows_of(a) =~= sqlite::rows_of(b));
}

/// Every field of a figure reads back unaltered from each notation that an
/// artifact writes it in: the identifiers from their decimal numerals (JSON
/// document, database rows) and from their hexadecimal numerals (module and
/// library source), the name from its JSON string literal (JSON document,
/// module source) and from its Rust string literal (library source). In the
/// database rows the name stands as it is.
pub proof fn lemma_written_fields_read_back(f: FigureView)
    ensures
        numeral_value(decimal_text(f.figure_id as nat), 10) == f.figure_id,
        numeral_value(decimal_text(f.variant_id as nat), 10) == f.variant_id,
        numeral_value(hex_text(f.figure_id as nat), 16) == f.figure_id,
        numeral_value(hex_text(f.variant_id as nat), 16) == f.variant_id,
        json::read_json_string(json::json_string_text(f.name)) == Some(f.name),
        rust::read_literal(rust::literal_text(f.name)) == Some(f.name),
        sqlite::row_of(f).name == f.name,
{
    lemma_decimal_round_trip(f.figure_id as nat);
    lemma_decimal_round_trip(f.variant_id as nat);
    lemma_hex_round_trip(f.figure_id as nat);
    lemma_hex_round_trip(f.variant_id as nat);
    json::lemma_json_string_reads_back(f.name);
    rust::lemma_literal_reads_back(f.name);
}

} // verus!
