use portalfigure::aggregate::{find_figure, Aggregator};
use portalfigure::common::{OutputFile, RawFigureData};
use portalfigure::javascript;
use portalfigure::json;
use portalfigure::rust;
use portalfigure::sqlite;

fn record(figure_id: u16, variant_id: u16, name: &str) -> RawFigureData {
    RawFigureData {
        figure_id: Some(figure_id),
        variant_id: Some(variant_id),
        name: Some(name.to_string()),
    }
}

#[test]
fn two_spyros_from_records_to_artifacts() {
    let mut aggregator = Aggregator::new();
    aggregator.accept(record(0x1ce, 0x3000, "Spyro"), "src/spyro.toml".to_string()).unwrap();
    aggregator
        .accept(record(0x1ce, 0x3002, "Dark Spyro"), "src/dark-spyro.toml".to_string())
        .unwrap();
    let figures = aggregator.into_figures();

    let document = json::emit(&figures, "2.0.0").unwrap();
    let value: serde_json::Value = serde_json::from_str(&document.content).unwrap();
    let items = value.as_array().unwrap();
    assert_eq!(items.len(), 2);
    assert_eq!(items[0].get("figure_id").unwrap().as_u64(), Some(0x1ce));
    assert_eq!(items[0].get("variant_id").unwrap().as_u64(), Some(0x3000));
    assert_eq!(items[0].get("name").unwrap().as_str(), Some("Spyro"));
    assert_eq!(items[1].get("variant_id").unwrap().as_u64(), Some(0x3002));
    assert_eq!(items[1].get("name").unwrap().as_str(), Some("Dark Spyro"));
    assert!(items[0].get("name_id").is_none());
    assert!(items[0].get("file_path").is_none());

    let plan = sqlite::emit(&figures, "2.0.0");
    assert_eq!(plan.rows.len(), 2);
    assert_eq!(plan.rows[0].figure_id.parse::<u16>().unwrap(), 0x1ce);
    assert_eq!(plan.rows[0].variant_id.parse::<u16>().unwrap(), 0x3000);
    assert_eq!(plan.rows[1].variant_id.parse::<u16>().unwrap(), 0x3002);

    let found = find_figure(&figures, 0x1ce, 0x3000).unwrap();
    assert_eq!(found.name, "Spyro");

    let package = javascript::emit(&figures, "2.0.0");
    let spyro = package.index_js.content.find("export const Spyro = {").unwrap();
    let dark = package.index_js.content.find("export const DarkSpyro = {").unwrap();
    assert!(spyro < dark);
    assert!(package.index_js.content.contains("  Spyro,\n  DarkSpyro,\n];"));
    assert!(!package.index_js.content.contains("src/spyro.toml"));

    let package = rust::emit(&figures, "2.0.0");
    let spyro = package.lib_rs.content.find("pub const SPYRO: PortalFigure").unwrap();
    let dark = package.lib_rs.content.find("pub const DARK_SPYRO: PortalFigure").unwrap();
    assert!(spyro < dark);
    assert!(package.lib_rs.content.contains("    SPYRO,\n    DARK_SPYRO,\n];"));
    assert!(package.cargo_toml.content.contains("version = \"2.0.0\""));
}

#[test]
fn refused_record_leaves_no_trace() {
    let mut aggregator = Aggregator::new();
    aggregator.accept(record(0x1ce, 0x3000, "Spyro"), "src/spyro.toml".to_string()).unwrap();
    assert!(aggregator.accept(record(0x1ce, 0x3000, "Twin"), "src/twin.toml".to_string()).is_err());
    let figures = aggregator.into_figures();
    assert_eq!(figures.len(), 1);
    let document = json::emit(&figures, "1").unwrap();
    assert!(!document.content.contains("Twin"));
    assert_eq!(sqlite::emit(&figures, "1").rows.len(), 1);
}

#[test]
fn output_file_stands_under_its_directory() {
    let file = OutputFile::in_dir(&"dist/rust".to_string(), "/README.md", "text".to_string());
    assert_eq!(file.path, "dist/rust/README.md");
    assert_eq!(file.content, "text");
}
