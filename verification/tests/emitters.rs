use portalfigure::common::FigureData;
use portalfigure::javascript;
use portalfigure::json;
use portalfigure::rust;
use portalfigure::slug::derive_slug;
use portalfigure::sqlite;

fn figure(figure_id: u16, variant_id: u16, name: &str) -> FigureData {
    FigureData {
        figure_id,
        variant_id,
        name: name.to_string(),
        name_id: derive_slug(name),
        file_path: format!("src/{}.toml", name),
    }
}

fn with_slug(slug: &str) -> FigureData {
    FigureData {
        figure_id: 1,
        variant_id: 2,
        name: "n".to_string(),
        name_id: slug.to_string(),
        file_path: "p".to_string(),
    }
}

fn spyros() -> Vec<FigureData> {
    vec![figure(0x1ce, 0x3000, "Spyro"), figure(0x1ce, 0x3002, "Dark Spyro")]
}

#[test]
fn javascript_export_names() {
    assert_eq!(javascript::export_name(&with_slug("trigger_happy")), "TriggerHappy");
    assert_eq!(javascript::export_name(&with_slug("spyro")), "Spyro");
    assert_eq!(javascript::export_name(&with_slug("r2_d2")), "R2D2");
    assert_eq!(javascript::export_name(&with_slug("")), "");
}

#[test]
fn javascript_export_name_with_empty_segments() {
    assert_eq!(javascript::export_name(&with_slug("_a__b_")), "AB");
    assert_eq!(javascript::export_name(&with_slug("__")), "");
    assert_eq!(javascript::export_name(&with_slug("hot__dog")), "HotDog");
}

#[test]
fn rust_export_names() {
    assert_eq!(rust::export_name(&with_slug("trigger_happy")), "TRIGGER_HAPPY");
    assert_eq!(rust::export_name(&with_slug("_a__b_")), "_A__B_");
    assert_eq!(rust::export_name(&with_slug("r2_d2")), "R2_D2");
    assert_eq!(rust::export_name(&with_slug("")), "");
}

#[test]
fn javascript_package_of_two_figures() {
    let p = javascript::emit(&spyros(), "1.2.3");
    assert_eq!(p.package_dir, "dist/javascript");
    assert_eq!(p.src_dir, "dist/javascript/src");
    assert_eq!(p.package_json.path, "dist/javascript/package.json");
    assert_eq!(p.index_js.path, "dist/javascript/src/index.js");
    assert_eq!(p.index_dts.path, "dist/javascript/src/index.d.ts");
    assert_eq!(p.readme.path, "dist/javascript/README.md");
    assert_eq!(
        p.package_json.content,
        "{\n  \"name\": \"portal-figure\",\n  \"description\": \"A library of data relating to figures from the Skylanders series of video games.\",\n  \"version\": \"1.2.3\",\n  \"main\": \"src/index.js\",\n  \"types\": \"src/index.d.ts\",\n  \"keywords\": [],\n  \"author\": \"peabnuts123\",\n  \"license\": \"CC0-1.0\",\n  \"type\": \"commonjs\"\n}"
    );
    assert_eq!(
        p.index_js.content,
        "\nexport const Spyro = {\n  figureId: 0x1ce,\n  variantId: 0x3000,\n  name: \"Spyro\",\n};\n\nexport const DarkSpyro = {\n  figureId: 0x1ce,\n  variantId: 0x3002,\n  name: \"Dark Spyro\",\n};\n\n\nexport const PortalFigures = [\n  Spyro,\n  DarkSpyro,\n];\n\nexport function findFigure(figureId, variantId) {\n  for (const figure of PortalFigures) {\n    if (figure.figureId == figureId && figure.variantId == variantId) {\n      return figure;\n    }\n  }\n  return undefined;\n}\n"
    );
    assert_eq!(
        p.index_dts.content,
        "export interface PortalFigure {\n  figureId: number;\n  variantId: number;\n  name: string;\n}\n\nexport const Spyro: PortalFigure;\nexport const DarkSpyro: PortalFigure;\n\nexport const PortalFigures: readonly PortalFigure[];\n\nexport function findFigure(figureId: number, variantId: number): PortalFigure | undefined;\n"
    );
    assert!(p.readme.content.starts_with("# portal-figure\n"));
    assert!(p.readme.content.contains("findFigure(0x1ce, 0x3000)"));
}

#[test]
fn javascript_package_of_no_figures() {
    let p = javascript::emit(&Vec::new(), "0.0.1");
    assert_eq!(
        p.index_js.content,
        "\n\nexport const PortalFigures = [\n];\n\nexport function findFigure(figureId, variantId) {\n  for (const figure of PortalFigures) {\n    if (figure.figureId == figureId && figure.variantId == variantId) {\n      return figure;\n    }\n  }\n  return undefined;\n}\n"
    );
    assert!(p.index_dts.content.contains("}\n\n\n\nexport const PortalFigures"));
    assert!(p.package_json.content.contains("\"version\": \"0.0.1\""));
}

#[test]
fn rust_package_of_two_figures() {
    let p = rust::emit(&spyros(), "1.2.3");
    assert_eq!(p.crate_dir, "dist/rust");
    assert_eq!(p.src_dir, "dist/rust/src");
    assert_eq!(p.cargo_toml.path, "dist/rust/Cargo.toml");
    assert_eq!(p.lib_rs.path, "dist/rust/src/lib.rs");
    assert_eq!(p.readme.path, "dist/rust/README.md");
    assert_eq!(
        p.cargo_toml.content,
        "[package]\nname = \"portal_figure\"\ndescription = \"A library of data relating to figures from the Skylanders series of video games.\"\nversion = \"1.2.3\"\nedition = \"2024\"\nlicense = \"CC0-1.0\"\n\n[dependencies]\n"
    );
    assert_eq!(
        p.lib_rs.content,
        "pub struct PortalFigure {\n    pub figure_id: u16,\n    pub variant_id: u16,\n    pub name: &'static str,\n}\n\n\npub const SPYRO: PortalFigure = PortalFigure {\n    figure_id: 0x1ce,\n    variant_id: 0x3000,\n    name: \"Spyro\",\n};\n\npub const DARK_SPYRO: PortalFigure = PortalFigure {\n    figure_id: 0x1ce,\n    variant_id: 0x3002,\n    name: \"Dark Spyro\",\n};\n\n\npub const PORTAL_FIGURES: &[PortalFigure] = &[\n    SPYRO,\n    DARK_SPYRO,\n];\n\npub fn find_figure(figure_id: u16, variant_id: u16) -> Option<&'static PortalFigure> {\n    for figure in PORTAL_FIGURES {\n        if figure.figure_id == figure_id && figure.variant_id == variant_id {\n            return Some(figure);\n        }\n    }\n    None\n}\n"
    );
    assert!(p.readme.content.starts_with("# portal_figure\n"));
    assert!(p.readme.content.contains("find_figure(0x1ce, 0x3000)"));
}

#[test]
fn json_document_of_two_figures() {
    let a = json::emit(&spyros(), "1.2.3").unwrap();
    assert_eq!(a.file_name, "dist/portal-figure_v1.2.3.json");
    assert_eq!(
        a.content,
        "[{\"figure_id\":462,\"variant_id\":12288,\"name\":\"Spyro\"},{\"figure_id\":462,\"variant_id\":12290,\"name\":\"Dark Spyro\"}]"
    );
}

#[test]
fn json_document_of_no_figures() {
    let a = json::emit(&Vec::new(), "7").unwrap();
    assert_eq!(a.file_name, "dist/portal-figure_v7.json");
    assert_eq!(a.content, "[]");
}

#[test]
fn json_document_escapes_names() {
    let figs = vec![figure(1, 2, "He said \"hi\"\\\n")];
    let a = json::emit(&figs, "1").unwrap();
    assert_eq!(
        a.content,
        "[{\"figure_id\":1,\"variant_id\":2,\"name\":\"He said \\\"hi\\\"\\\\\\n\"}]"
    );
}

#[test]
fn json_document_decodes_to_the_collection() {
    let figs = vec![
        figure(0x1ce, 0x3000, "Spyro"),
        figure(0, 65535, "Tab\there \"quoted\" \u{e9}"),
        figure(65535, 0, ""),
    ];
    let a = json::emit(&figs, "1").unwrap();
    let v: serde_json::Value = serde_json::from_str(&a.content).unwrap();
    let items = v.as_array().unwrap();
    assert_eq!(items.len(), figs.len());
    for (item, f) in items.iter().zip(figs.iter()) {
        let o = item.as_object().unwrap();
        assert_eq!(o.len(), 3);
        assert_eq!(o.get("figure_id").unwrap().as_u64().unwrap(), f.figure_id as u64);
        assert_eq!(o.get("variant_id").unwrap().as_u64().unwrap(), f.variant_id as u64);
        assert_eq!(o.get("name").unwrap().as_str().unwrap(), f.name);
    }
}

#[test]
fn json_document_from_encoded_figures() {
    let entries = vec![
        json::EncodedFigure { figure_id: 5, variant_id: 6, name_json: "\"a\"".to_string() },
        json::EncodedFigure { figure_id: 7, variant_id: 8, name_json: "\"b\"".to_string() },
    ];
    assert_eq!(
        json::document(&entries),
        "[{\"figure_id\":5,\"variant_id\":6,\"name\":\"a\"},{\"figure_id\":7,\"variant_id\":8,\"name\":\"b\"}]"
    );
    let e = json::encode(&figure(5, 6, "a")).unwrap();
    assert_eq!(e.figure_id, 5);
    assert_eq!(e.variant_id, 6);
    assert_eq!(e.name_json, "\"a\"");
}

#[test]
fn database_plan_of_two_figures() {
    let p = sqlite::emit(&spyros(), "1.2.3");
    assert_eq!(p.file_name, "dist/portal-figure_v1.2.3.db");
    assert!(p.create_table.starts_with("CREATE TABLE PortalFigure ("));
    assert!(p.create_table.contains("PRIMARY KEY (figure_id, variant_id)"));
    assert!(p.create_table.contains("UNIQUE(name)"));
    assert_eq!(
        p.insert_row,
        "INSERT INTO PortalFigure (figure_id, variant_id, name) VALUES (?1, ?2, ?3)"
    );
    assert_eq!(p.rows.len(), 2);
    assert_eq!(p.rows[0].figure_id, "462");
    assert_eq!(p.rows[0].variant_id, "12288");
    assert_eq!(p.rows[0].name, "Spyro");
    assert_eq!(p.rows[1].figure_id, "462");
    assert_eq!(p.rows[1].variant_id, "12290");
    assert_eq!(p.rows[1].name, "Dark Spyro");
}

#[test]
fn json_encoder_outcomes_are_passed_on() {
    let f = figure(5, 6, "a");
    let e = json::encoded_with(&f, Ok("\"lit\"".to_string())).unwrap();
    assert_eq!(e.figure_id, 5);
    assert_eq!(e.variant_id, 6);
    assert_eq!(e.name_json, "\"lit\"");

    let err = serde_json::from_str::<serde_json::Value>("{").unwrap_err();
    let text = err.to_string();
    let line = err.line();
    let column = err.column();
    let r = json::encoded_with(&f, Err(err));
    let back = r.unwrap_err();
    assert_eq!(back.to_string(), text);
    assert_eq!(back.line(), line);
    assert_eq!(back.column(), column);
}

fn named(name: &str) -> FigureData {
    FigureData {
        figure_id: 1,
        variant_id: 2,
        name: name.to_string(),
        name_id: "x".to_string(),
        file_path: "p".to_string(),
    }
}

#[test]
fn rust_string_literals() {
    assert_eq!(rust::string_literal(""), "\"\"");
    assert_eq!(rust::string_literal("Spyro"), "\"Spyro\"");
    assert_eq!(rust::string_literal("A\\tB"), "\"A\\\\tB\"");
    assert_eq!(rust::string_literal("A\"B"), "\"A\\\"B\"");
    assert_eq!(rust::string_literal("A\tB"), "\"A\\u{09}B\"");
    assert_eq!(rust::string_literal("\n\r\u{0}"), "\"\\u{0a}\\u{0d}\\u{00}\"");
    assert_eq!(rust::string_literal("\u{1f}\u{7f}\u{9f}"), "\"\\u{1f}\\u{7f}\\u{9f}\"");
    assert_eq!(rust::string_literal(" ~\u{a0}\u{e9}{}u"), "\" ~\u{a0}\u{e9}{}u\"");
    assert_eq!(rust::string_literal("\\u{41}"), "\"\\\\u{41}\"");
}

#[test]
fn rust_constants_hold_names_with_quotes_and_backslashes() {
    let figs = vec![named("A\\tB"), named("A\"B")];
    let p = rust::emit(&figs, "1");
    assert!(p.lib_rs.content.contains("    name: \"A\\\\tB\",\n};\n"));
    assert!(p.lib_rs.content.contains("    name: \"A\\\"B\",\n};\n"));
}

#[test]
fn javascript_string_literals() {
    assert_eq!(json::string_literal("Spyro"), "\"Spyro\"");
    assert_eq!(json::string_literal("A\"B"), "\"A\\\"B\"");
    assert_eq!(json::string_literal("A\\tB"), "\"A\\\\tB\"");
    assert_eq!(json::string_literal("A\tB"), "\"A\\tB\"");
    let back: String = serde_json::from_str(&json::string_literal("q\"b\\n\n\u{1}\u{e9}")).unwrap();
    assert_eq!(back, "q\"b\\n\n\u{1}\u{e9}");
}

#[test]
fn javascript_constants_hold_names_with_quotes_and_backslashes() {
    let figs = vec![named("A\\tB"), named("A\"B")];
    let p = javascript::emit(&figs, "1");
    assert!(p.index_js.content.contains("  name: \"A\\\\tB\",\n};\n"));
    assert!(p.index_js.content.contains("  name: \"A\\\"B\",\n};\n"));
}

#[test]
fn json_string_literal_of_every_kind_of_character() {
    assert_eq!(
        json::string_literal("\u{0}\u{1}\u{8}\u{9}\u{a}\u{b}\u{c}\u{d}\u{e}\u{1f} \u{7f}\u{9f}\u{e9}/'"),
        "\"\\u0000\\u0001\\b\\t\\n\\u000b\\f\\r\\u000e\\u001f \u{7f}\u{9f}\u{e9}/'\""
    );
    assert_eq!(json::string_literal(""), "\"\"");
}

#[test]
fn json_string_literal_of_each_ascii_character_reads_back() {
    for b in 0u8..128 {
        let text = format!("a{}z", b as char);
        let back: String = serde_json::from_str(&json::string_literal(&text)).unwrap();
        assert_eq!(back, text);
    }
}

#[test]
fn rust_package_of_no_figures() {
    let p = rust::emit(&Vec::new(), "0.0.1");
    assert_eq!(
        p.lib_rs.content,
        "pub struct PortalFigure {\n    pub figure_id: u16,\n    pub variant_id: u16,\n    pub name: &'static str,\n}\n\n\n\npub const PORTAL_FIGURES: &[PortalFigure] = &[\n];\n\npub fn find_figure(figure_id: u16, variant_id: u16) -> Option<&'static PortalFigure> {\n    for figure in PORTAL_FIGURES {\n        if figure.figure_id == figure_id && figure.variant_id == variant_id {\n            return Some(figure);\n        }\n    }\n    None\n}\n"
    );
    assert!(p.cargo_toml.content.contains("version = \"0.0.1\""));
}

#[test]
fn packages_of_one_figure_list_it_with_a_closing_comma() {
    let figs = vec![figure(1, 2, "Hot Dog")];
    let p = javascript::emit(&figs, "1");
    assert!(p.index_js.content.contains("export const PortalFigures = [\n  HotDog,\n];"));
    let p = rust::emit(&figs, "1");
    assert!(p.lib_rs.content.contains("pub const PORTAL_FIGURES: &[PortalFigure] = &[\n    HOT_DOG,\n];"));
}

#[test]
fn insert_failures_are_told_apart() {
    let e = sqlite::insert_failure("Spyro", "dist/x.db", true, "UNIQUE constraint failed".to_string());
    match e {
        portalfigure::common::BuildError::EmitConstraint { name, diagnostic } => {
            assert_eq!(name, "Spyro");
            assert_eq!(diagnostic, "UNIQUE constraint failed");
        }
        other => panic!("unexpected error: {:?}", other),
    }
    let e = sqlite::insert_failure("Spyro", "dist/x.db", false, "disk is full".to_string());
    match e {
        portalfigure::common::BuildError::EmitIo { target, diagnostic } => {
            assert_eq!(target, "dist/x.db");
            assert_eq!(diagnostic, "Failed to insert figure 'Spyro': disk is full");
        }
        other => panic!("unexpected error: {:?}", other),
    }
}
