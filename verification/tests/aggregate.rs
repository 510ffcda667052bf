use portalfigure::aggregate::{find_figure, position_of_key, position_of_slug, Aggregator};
use portalfigure::common::{BuildError, Field, FigureData, RawFigureData};
use portalfigure::slug::derive_slug;

fn raw(figure_id: Option<u16>, variant_id: Option<u16>, name: Option<&str>) -> RawFigureData {
    RawFigureData { figure_id, variant_id, name: name.map(|n| n.to_string()) }
}

fn spyros() -> Vec<FigureData> {
    let mut agg = Aggregator::new();
    agg.accept(raw(Some(0x1ce), Some(0x3000), Some("Spyro")), "src/a.toml".to_string()).unwrap();
    agg.accept(raw(Some(0x1ce), Some(0x3002), Some("Dark Spyro")), "src/b.toml".to_string())
        .unwrap();
    agg.into_figures()
}

#[test]
fn slug_of_two_words() {
    assert_eq!(derive_slug("Trigger Happy"), "trigger_happy");
}

#[test]
fn slug_drops_punctuation() {
    assert_eq!(derive_slug("Spyro's Adventure!"), "spyros_adventure");
}

#[test]
fn slug_is_the_same_on_every_call() {
    assert_eq!(derive_slug("Hot Dog"), derive_slug("Hot Dog"));
    assert_eq!(derive_slug("trigger_happy"), "trigger_happy");
}

#[test]
fn slug_keeps_digits_and_underscores() {
    assert_eq!(derive_slug("R2 D2_x"), "r2_d2_x");
    assert_eq!(derive_slug(""), "");
    assert_eq!(derive_slug("  "), "__");
    assert_eq!(derive_slug("-!?"), "");
}

#[test]
fn slug_drops_letters_outside_ascii() {
    assert_eq!(derive_slug("Pok\u{e9}mon \u{c9}clair"), "pokmon_clair");
}

#[test]
fn accepts_records_in_order() {
    let figs = spyros();
    assert_eq!(figs.len(), 2);
    assert_eq!(figs[0].figure_id, 0x1ce);
    assert_eq!(figs[0].variant_id, 0x3000);
    assert_eq!(figs[0].name, "Spyro");
    assert_eq!(figs[0].name_id, "spyro");
    assert_eq!(figs[0].file_path, "src/a.toml");
    assert_eq!(figs[1].variant_id, 0x3002);
    assert_eq!(figs[1].name, "Dark Spyro");
    assert_eq!(figs[1].name_id, "dark_spyro");
    assert_eq!(figs[1].file_path, "src/b.toml");
}

#[test]
fn missing_figure_id_is_reported_first() {
    let mut agg = Aggregator::new();
    let r = agg.accept(raw(None, None, None), "src/x.toml".to_string());
    match r {
        Err(BuildError::MissingField { field, path }) => {
            assert_eq!(field, Field::FigureId);
            assert_eq!(field.name(), "figure_id");
            assert_eq!(path, "src/x.toml");
        }
        other => panic!("unexpected result: {:?}", other),
    }
    assert_eq!(agg.len(), 0);
}

#[test]
fn missing_variant_id_is_reported() {
    let mut agg = Aggregator::new();
    let r = agg.accept(raw(Some(1), None, None), "src/x.toml".to_string());
    match r {
        Err(BuildError::MissingField { field, path }) => {
            assert_eq!(field, Field::VariantId);
            assert_eq!(field.name(), "variant_id");
            assert_eq!(path, "src/x.toml");
        }
        other => panic!("unexpected result: {:?}", other),
    }
    assert_eq!(agg.len(), 0);
}

#[test]
fn missing_name_is_reported() {
    let mut agg = Aggregator::new();
    let r = agg.accept(raw(Some(1), Some(2), None), "src/x.toml".to_string());
    match r {
        Err(BuildError::MissingField { field, path }) => {
            assert_eq!(field, Field::Name);
            assert_eq!(field.name(), "name");
            assert_eq!(path, "src/x.toml");
        }
        other => panic!("unexpected result: {:?}", other),
    }
    assert_eq!(agg.len(), 0);
}

#[test]
fn duplicate_key_is_refused() {
    let mut agg = Aggregator::new();
    agg.accept(raw(Some(0x1ce), Some(0x3000), Some("Spyro")), "src/a.toml".to_string()).unwrap();
    let r = agg.accept(raw(Some(0x1ce), Some(0x3000), Some("Other")), "src/b.toml".to_string());
    match r {
        Err(BuildError::DuplicateKey { figure_id, variant_id, path_a, path_b }) => {
            assert_eq!(figure_id, 0x1ce);
            assert_eq!(variant_id, 0x3000);
            assert_eq!(path_a, "src/a.toml");
            assert_eq!(path_b, "src/b.toml");
        }
        other => panic!("unexpected result: {:?}", other),
    }
    assert_eq!(agg.len(), 1);
    assert_eq!(agg.figures()[0].name, "Spyro");
}

#[test]
fn duplicate_key_comes_before_duplicate_slug() {
    let mut agg = Aggregator::new();
    agg.accept(raw(Some(1), Some(2), Some("Spyro")), "src/a.toml".to_string()).unwrap();
    let r = agg.accept(raw(Some(1), Some(2), Some("spyro")), "src/b.toml".to_string());
    assert!(matches!(r, Err(BuildError::DuplicateKey { .. })));
}

#[test]
fn duplicate_slug_is_refused() {
    let mut agg = Aggregator::new();
    agg.accept(raw(Some(1), Some(1), Some("Fire Bot")), "src/a.toml".to_string()).unwrap();
    agg.accept(raw(Some(1), Some(2), Some("Water Bot")), "src/w.toml".to_string()).unwrap();
    let r = agg.accept(raw(Some(1), Some(3), Some("fire_bot!")), "src/b.toml".to_string());
    match r {
        Err(BuildError::DuplicateSlug { name, slug, original_name, path_a, path_b }) => {
            assert_eq!(name, "fire_bot!");
            assert_eq!(slug, "fire_bot");
            assert_eq!(original_name, "Fire Bot");
            assert_eq!(path_a, "src/a.toml");
            assert_eq!(path_b, "src/b.toml");
        }
        other => panic!("unexpected result: {:?}", other),
    }
    assert_eq!(agg.len(), 2);
}

#[test]
fn hyphen_is_dropped_and_space_is_not() {
    assert_eq!(derive_slug("Fire Bot"), "fire_bot");
    assert_eq!(derive_slug("fire-bot"), "firebot");
    let mut agg = Aggregator::new();
    agg.accept(raw(Some(1), Some(1), Some("Fire Bot")), "src/a.toml".to_string()).unwrap();
    assert!(agg.accept(raw(Some(1), Some(2), Some("fire-bot")), "src/b.toml".to_string()).is_ok());
    let r = agg.accept(raw(Some(1), Some(3), Some("FireBot")), "src/c.toml".to_string());
    assert!(matches!(r, Err(BuildError::DuplicateSlug { .. })));
}

#[test]
fn lookup_finds_every_figure_and_nothing_else() {
    let figs = spyros();
    for f in figs.iter() {
        let found = find_figure(&figs, f.figure_id, f.variant_id).unwrap();
        assert_eq!(found.figure_id, f.figure_id);
        assert_eq!(found.variant_id, f.variant_id);
        assert_eq!(found.name, f.name);
    }
    assert_eq!(find_figure(&figs, 0x1ce, 0x3000).unwrap().name, "Spyro");
    assert!(find_figure(&figs, 0x1ce, 0x3001).is_none());
    assert!(find_figure(&figs, 0x3000, 0x1ce).is_none());
    assert!(find_figure(&Vec::new(), 0, 0).is_none());
}

#[test]
fn positions_are_first_matches() {
    let figs = spyros();
    assert_eq!(position_of_key(&figs, 0x1ce, 0x3002), Some(1));
    assert_eq!(position_of_key(&figs, 0x1ce, 0x3003), None);
    assert_eq!(position_of_slug(&figs, &"dark_spyro".to_string()), Some(1));
    assert_eq!(position_of_slug(&figs, &"spyro".to_string()), Some(0));
    assert_eq!(position_of_slug(&figs, &"Spyro".to_string()), None);
}

#[test]
fn messages_name_the_files() {
    let e = BuildError::MissingField { field: Field::Name, path: "src/x.toml".to_string() };
    assert_eq!(e.message(), "Missing required field 'name': src/x.toml");
    let e = BuildError::DuplicateKey {
        figure_id: 462,
        variant_id: 12288,
        path_a: "src/a.toml".to_string(),
        path_b: "src/b.toml".to_string(),
    };
    assert_eq!(
        e.message(),
        "Duplicate `figure_id` and `variant_id` found: (figure_id='462') (variant_id='12288') (file_a='src/a.toml') (file_b='src/b.toml')"
    );
    let e = BuildError::DuplicateSlug {
        name: "fire_bot!".to_string(),
        slug: "fire_bot".to_string(),
        original_name: "Fire Bot".to_string(),
        path_a: "src/a.toml".to_string(),
        path_b: "src/b.toml".to_string(),
    };
    assert_eq!(
        e.message(),
        "Name 'fire_bot!' from file 'src/b.toml' is not unique enough to generate unique name_id. Both files produced unique name_id 'fire_bot'. Duplicate: (name='Fire Bot') (path='src/a.toml')"
    );
    let e = BuildError::Parse { path: "src/x.toml".to_string(), diagnostic: "bad".to_string() };
    assert_eq!(e.message(), "Failed to parse TOML. (path='src/x.toml') bad");
    let e = BuildError::EmitIo { target: "dist/x".to_string(), diagnostic: "Failed".to_string() };
    assert_eq!(e.message(), "Failed: 'dist/x'");
    let e = BuildError::EmitConstraint { name: "A".to_string(), diagnostic: "why".to_string() };
    assert_eq!(e.message(), "Failed to insert figure 'A': why");
}
