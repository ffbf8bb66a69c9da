use film_dev::calculator::CalculationEngine;
use film_dev::calculator::CalculationError;
use film_dev::fixed::Fixed;
use film_dev::models::CalculationRequest;
use film_dev::models::Database;
use film_dev::models::DatabaseMetadata;
use film_dev::models::Developer;
use film_dev::models::DeveloperData;
use film_dev::models::Film;
use film_dev::models::FilmType;

fn fx(units: i64) -> Fixed {
    Fixed { units }
}

fn data(dilution: &str) -> DeveloperData {
    DeveloperData {
        dilution: dilution.to_string(),
        time_minutes: None,
        time: None,
        temperature_c: fx(200000),
        agitation_initial_seconds: 30,
        agitation_interval_seconds: 10,
        agitation_frequency_minutes: 1,
        push_1_stop_minutes: None,
        push_2_stop_minutes: None,
        push_3_stop_minutes: None,
        pull_1_stop_minutes: None,
        pull_2_stop_minutes: None,
        developer_time_minutes: None,
        push_1_stop_dev_time: None,
        push_2_stop_dev_time: None,
        pull_1_stop_dev_time: None,
        first_dev_time_minutes: None,
        push_1_stop_first_dev_time: None,
        push_2_stop_first_dev_time: None,
        pull_1_stop_first_dev_time: None,
        dilution_ratio: None,
    }
}

fn film(name: &str, film_type: FilmType, developers: Vec<(String, DeveloperData)>) -> Film {
    Film {
        name: name.to_string(),
        manufacturer: "Maker".to_string(),
        iso: 400,
        film_type,
        process: "standard".to_string(),
        year_released: Some(1954),
        current_production: true,
        price_35mm_usd: None,
        alternative_names: vec![],
        description: "test film".to_string(),
        grain: "fine".to_string(),
        contrast: "medium".to_string(),
        best_uses: vec!["general".to_string()],
        developers,
    }
}

fn developer(name: &str, safety: Option<&str>) -> Developer {
    Developer {
        name: name.to_string(),
        manufacturer: "Maker".to_string(),
        developer_type: "powder".to_string(),
        year_introduced: Some(1927),
        price_per_liter_usd: None,
        capacity_rolls_per_liter: Some(10),
        description: "test developer".to_string(),
        characteristics: "general purpose".to_string(),
        dilutions: vec!["stock".to_string(), "1:1".to_string()],
        stock_life_months: Some(6),
        working_life_hours: Some(24),
        safety_notes: safety.map(|s| s.to_string()),
    }
}

fn metadata() -> DatabaseMetadata {
    DatabaseMetadata {
        version: "1.0".to_string(),
        last_updated: "2024-01-01".to_string(),
        film_count: 1,
        developer_count: 1,
        total_combinations: 1,
    }
}

/// A monochrome dataset: tri-x-400 with d76, time 9.0 minutes at "1:1",
/// compensation 1.0 at 20 degrees (key 40) and 1.1 at 21 degrees (key 42).
fn mono_database() -> Database {
    let mut d = data("1:1");
    d.time_minutes = Some(fx(90000));
    Database {
        films: vec![("tri-x-400".to_string(), film("Tri-X 400", FilmType::BlackWhite, vec![(
            "d76".to_string(),
            d,
        )]))],
        developers: vec![("d76".to_string(), developer("Kodak D-76", None))],
        temperature_compensation: vec![(40, fx(10000)), (42, fx(11000))],
        metadata: metadata(),
    }
}

fn engine_with(db: Database) -> CalculationEngine {
    assert!(db.check_wf());
    let mut engine = CalculationEngine::new();
    engine.load_database(db);
    engine
}

fn request(temp_units: i64, push_pull: i32, volume: u32) -> CalculationRequest {
    CalculationRequest {
        film_key: "tri-x-400".to_string(),
        developer_key: "d76".to_string(),
        temperature: fx(temp_units),
        push_pull,
        volume,
    }
}

#[test]
fn rejects_low_temperature() {
    let engine = engine_with(mono_database());
    let r = engine.calculate_development(request(149999, 0, 500));
    assert!(matches!(r, Err(CalculationError::InvalidTemperature(t)) if t.units == 149999));
}

#[test]
fn rejects_high_temperature() {
    let engine = engine_with(mono_database());
    let r = engine.calculate_development(request(300001, 0, 500));
    assert!(matches!(r, Err(CalculationError::InvalidTemperature(t)) if t.units == 300001));
}

#[test]
fn rejects_out_of_range_push_pull() {
    let engine = engine_with(mono_database());
    let r = engine.calculate_development(request(200000, -3, 500));
    assert!(matches!(r, Err(CalculationError::InvalidPushPull(-3))));
    let r = engine.calculate_development(request(200000, 4, 500));
    assert!(matches!(r, Err(CalculationError::InvalidPushPull(4))));
}

#[test]
fn rejects_out_of_range_volume() {
    let engine = engine_with(mono_database());
    let r = engine.calculate_development(request(200000, 0, 99));
    assert!(matches!(r, Err(CalculationError::InvalidVolume(99))));
    let r = engine.calculate_development(request(200000, 0, 2001));
    assert!(matches!(r, Err(CalculationError::InvalidVolume(2001))));
}

#[test]
fn validation_precedes_lookups() {
    // An unknown film with an invalid temperature still fails on the
    // temperature: validation comes before any lookup.
    let engine = engine_with(mono_database());
    let mut req = request(100000, 0, 500);
    req.film_key = "no-such-film".to_string();
    let r = engine.calculate_development(req);
    assert!(matches!(r, Err(CalculationError::InvalidTemperature(_))));
}

#[test]
fn unloaded_engine_fails_distinctly() {
    let engine = CalculationEngine::new();
    let r = engine.calculate_development(request(200000, 0, 500));
    assert!(matches!(r, Err(CalculationError::DatabaseNotLoaded)));
    assert!(matches!(engine.get_available_films(), Err(CalculationError::DatabaseNotLoaded)));
    assert!(matches!(engine.get_film_info("tri-x-400"), Err(CalculationError::DatabaseNotLoaded)));
}

#[test]
fn film_not_found() {
    let engine = engine_with(mono_database());
    let mut req = request(200000, 0, 500);
    req.film_key = "pan-f".to_string();
    let r = engine.calculate_development(req);
    assert!(matches!(r, Err(CalculationError::FilmNotFound(k)) if k == "pan-f"));
}

#[test]
fn developer_not_found() {
    let engine = engine_with(mono_database());
    let mut req = request(200000, 0, 500);
    req.developer_key = "rodinal".to_string();
    let r = engine.calculate_development(req);
    assert!(matches!(r, Err(CalculationError::DeveloperNotFound(k)) if k == "rodinal"));
}

#[test]
fn combination_not_supported() {
    let mut db = mono_database();
    db.developers.push(("rodinal".to_string(), developer("Rodinal", None)));
    let engine = engine_with(db);
    let mut req = request(200000, 0, 500);
    req.developer_key = "rodinal".to_string();
    let r = engine.calculate_development(req);
    match r {
        Err(CalculationError::CombinationNotSupported { film, developer }) => {
            assert_eq!(film, "Tri-X 400");
            assert_eq!(developer, "rodinal");
        },
        other => panic!("expected combination error, got {:?}", other),
    }
}

#[test]
fn stock_suffix_falls_back_to_base_key() {
    // `d76_stock` resolves to the record stored under `d76`.
    let engine = engine_with(mono_database());
    let mut req = request(200000, 0, 500);
    req.developer_key = "d76_stock".to_string();
    let r = engine.calculate_development(req).expect("fallback should resolve");
    assert_eq!(r.developer_name, "Kodak D-76");
    let d = engine.get_developer_info("d76_stock").expect("info fallback");
    assert_eq!(d.name, "Kodak D-76");
}

#[test]
fn kit_suffix_falls_back_to_base_key() {
    let engine = engine_with(mono_database());
    let d = engine.get_developer_info("d76_kit").expect("kit fallback");
    assert_eq!(d.name, "Kodak D-76");
}

#[test]
fn two_segment_fallback() {
    let mut db = mono_database();
    db.developers = vec![("xtol_replenished".to_string(), developer("Xtol", None))];
    let engine = engine_with(db);
    let d = engine.get_developer_info("xtol_replenished_one_shot").expect("segment fallback");
    assert_eq!(d.name, "Xtol");
}

#[test]
fn end_to_end_monochrome_nominal() {
    // tri-x-400 with d76, 20 degrees, no push/pull, 500 ml, time 9.0 at 1:1.
    let engine = engine_with(mono_database());
    let r = engine.calculate_development(request(200000, 0, 500)).expect("calculation");
    assert_eq!(r.time_minutes.units, 90000);
    assert_eq!(r.time_formatted, "9:00");
    assert_eq!(r.dilution, "1:1");
    assert_eq!(r.developer_amount, 250);
    assert_eq!(r.water_amount, 250);
    assert_eq!(r.temperature.units, 200000);
    assert_eq!(r.push_pull, 0);
    assert_eq!(r.film_type, FilmType::BlackWhite);
    assert_eq!(r.film_name, "Tri-X 400");
    assert_eq!(r.developer_name, "Kodak D-76");
    assert!(r.notes.is_empty());
}

#[test]
fn end_to_end_push_one_stop() {
    // No explicit override: 9.0 x 1.4 = 12.6 minutes, formatted 12:36.
    let engine = engine_with(mono_database());
    let r = engine.calculate_development(request(200000, 1, 500)).expect("calculation");
    assert_eq!(r.time_minutes.units, 126000);
    assert_eq!(r.time_formatted, "12:36");
    assert_eq!(r.notes, vec!["Push 1 stop".to_string()]);
}

#[test]
fn push_override_replaces_multiplier() {
    let mut db = mono_database();
    db.films[0].1.developers[0].1.push_1_stop_minutes = Some(fx(110000));
    let engine = engine_with(db);
    let r = engine.calculate_development(request(200000, 1, 500)).expect("calculation");
    assert_eq!(r.time_minutes.units, 110000);
    assert_eq!(r.time_formatted, "11:00");
}

#[test]
fn pull_two_stops_halves_time() {
    let engine = engine_with(mono_database());
    let r = engine.calculate_development(request(200000, -2, 500)).expect("calculation");
    assert_eq!(r.time_minutes.units, 45000);
    assert_eq!(r.time_formatted, "4:30");
    assert_eq!(r.notes, vec!["Pull 2 stops".to_string()]);
}

#[test]
fn monochrome_base_time_fallbacks() {
    // No time_minutes: the alternate time field is used; with neither, the
    // fixed 8-minute fallback applies.
    let mut db = mono_database();
    db.films[0].1.developers[0].1.time_minutes = None;
    db.films[0].1.developers[0].1.time = Some(fx(70000));
    let engine = engine_with(db);
    let r = engine.calculate_development(request(200000, 0, 500)).expect("calculation");
    assert_eq!(r.time_minutes.units, 70000);

    let mut db = mono_database();
    db.films[0].1.developers[0].1.time_minutes = None;
    let engine = engine_with(db);
    let r = engine.calculate_development(request(200000, 0, 500)).expect("calculation");
    assert_eq!(r.time_minutes.units, 80000);
    assert_eq!(r.time_formatted, "8:00");
}

fn color_database() -> Database {
    let d = data("1:4");
    Database {
        films: vec![("portra-400".to_string(), film("Portra 400", FilmType::ColorNegative, vec![(
            "c41".to_string(),
            d,
        )]))],
        developers: vec![("c41".to_string(), developer("C-41 Kit", Some("Wear gloves")))],
        temperature_compensation: vec![(40, fx(10000))],
        metadata: metadata(),
    }
}

#[test]
fn color_negative_ready_to_use() {
    // Any dilution string: the whole volume is developer, zero water.
    let engine = engine_with(color_database());
    let mut req = request(200000, 0, 500);
    req.film_key = "portra-400".to_string();
    req.developer_key = "c41".to_string();
    let r = engine.calculate_development(req).expect("calculation");
    assert_eq!(r.dilution, "Ready to use");
    assert_eq!(r.developer_amount, 500);
    assert_eq!(r.water_amount, 0);
    // 3.25-minute fallback for the developer stage.
    assert_eq!(r.time_minutes.units, 32500);
    assert_eq!(r.time_formatted, "3:15");
    assert_eq!(
        r.notes,
        vec!["C-41 Developer".to_string(), "Safety: Wear gloves".to_string()]
    );
}

#[test]
fn color_negative_push_table() {
    let engine = engine_with(color_database());
    let mut req = request(200000, 1, 500);
    req.film_key = "portra-400".to_string();
    req.developer_key = "c41".to_string();
    let r = engine.calculate_development(req).expect("calculation");
    assert_eq!(r.time_minutes.units, 45000);
    // Out-of-table stop values leave the base time unmodified.
    let mut req = request(200000, 3, 500);
    req.film_key = "portra-400".to_string();
    req.developer_key = "c41".to_string();
    let r = engine.calculate_development(req).expect("calculation");
    assert_eq!(r.time_minutes.units, 32500);
}

fn slide_database() -> Database {
    let d = data("stock");
    Database {
        films: vec![("provia-100".to_string(), film("Provia 100F", FilmType::Slide, vec![(
            "e6".to_string(),
            d,
        )]))],
        developers: vec![("e6".to_string(), developer("E-6 Kit", None))],
        temperature_compensation: vec![],
        metadata: metadata(),
    }
}

#[test]
fn slide_first_developer() {
    let engine = engine_with(slide_database());
    let mut req = request(200000, 0, 1000);
    req.film_key = "provia-100".to_string();
    req.developer_key = "e6".to_string();
    let r = engine.calculate_development(req).expect("calculation");
    // 6-minute fallback, ready to use, E-6 note.
    assert_eq!(r.time_minutes.units, 60000);
    assert_eq!(r.dilution, "Ready to use");
    assert_eq!(r.developer_amount, 1000);
    assert_eq!(r.water_amount, 0);
    assert_eq!(r.notes, vec!["E-6 First Developer".to_string()]);
}

#[test]
fn slide_pull_one_stop() {
    let engine = engine_with(slide_database());
    let mut req = request(200000, -1, 1000);
    req.film_key = "provia-100".to_string();
    req.developer_key = "e6".to_string();
    let r = engine.calculate_development(req).expect("calculation");
    assert_eq!(r.time_minutes.units, 45000);
    assert_eq!(r.notes, vec!["E-6 First Developer".to_string(), "Pull 1 stop".to_string()]);
}

#[test]
fn temperature_note_embeds_value() {
    let engine = engine_with(mono_database());
    let r = engine.calculate_development(request(215000, 0, 500)).expect("calculation");
    assert_eq!(r.notes, vec!["Temperature adjusted for 21.5\u{b0}C".to_string()]);
}

#[test]
fn exact_half_degree_compensation() {
    // An exact half-degree entry wins over interpolation: 1.2 at 20.5, not
    // the 1.05 the brackets at 20 and 21 would interpolate to.
    let mut db = mono_database();
    db.temperature_compensation.push((41, fx(12000)));
    let engine = engine_with(db);
    let r = engine.calculate_development(request(205000, 0, 500)).expect("calculation");
    assert_eq!(r.time_minutes.units, 108000);
    assert_eq!(r.time_formatted, "10:48");
}

#[test]
fn half_degree_interpolates_between_degrees() {
    // 20.5 degrees with entries at 20 (1.0) and 21 (1.1) and none at 20.5:
    // the factor interpolates to 1.05, so 9.0 minutes becomes 9.45.
    let engine = engine_with(mono_database());
    let r = engine.calculate_development(request(205000, 0, 500)).expect("calculation");
    assert_eq!(r.time_minutes.units, 94500);
    assert_eq!(r.time_formatted, "9:27");
}

#[test]
fn interpolation_follows_a_falling_curve() {
    // Entries 1.1 at 20 and 1.0 at 21 interpolate downward to 1.05.
    let mut db = mono_database();
    db.temperature_compensation = vec![(40, fx(11000)), (42, fx(10000))];
    let engine = engine_with(db);
    let r = engine.calculate_development(request(205000, 0, 500)).expect("calculation");
    assert_eq!(r.time_minutes.units, 94500);
}

#[test]
fn half_degree_falls_back_to_floor_degree() {
    // With the upper bracket missing, the floor integer-degree entry
    // answers: 20.5 degrees with an entry only at 20 keeps the factor 1.0.
    let mut db = mono_database();
    db.temperature_compensation = vec![(40, fx(10000))];
    let engine = engine_with(db);
    let r = engine.calculate_development(request(205000, 0, 500)).expect("calculation");
    assert_eq!(r.time_minutes.units, 90000);
    assert_eq!(r.time_formatted, "9:00");
}

#[test]
fn missing_compensation_defaults_to_one() {
    let engine = engine_with(mono_database());
    // 24 degrees: no key 48 and no other tier applies.
    let r = engine.calculate_development(request(240000, 0, 500)).expect("calculation");
    assert_eq!(r.time_minutes.units, 90000);
    assert_eq!(
        r.notes,
        vec!["Temperature adjusted for 24\u{b0}C".to_string()]
    );
}

#[test]
fn temperature_rounds_to_nearest_half_degree() {
    // 20.2 rounds to 20.0 (key 40); 20.3 rounds to 20.5 (key 41).
    let mut db = mono_database();
    db.temperature_compensation.push((41, fx(12000)));
    let engine = engine_with(db);
    let r = engine.calculate_development(request(202000, 0, 500)).expect("calculation");
    assert_eq!(r.time_minutes.units, 90000);
    let r = engine.calculate_development(request(203000, 0, 500)).expect("calculation");
    assert_eq!(r.time_minutes.units, 108000);
}

#[test]
fn accepts_boundary_inputs() {
    // The bounds are inclusive: 15 and 30 degrees, -2 and +3 stops,
    // 100 and 2000 milliliters all pass validation.
    let engine = engine_with(mono_database());
    assert!(engine.calculate_development(request(150000, 0, 500)).is_ok());
    assert!(engine.calculate_development(request(300000, 0, 500)).is_ok());
    assert!(engine.calculate_development(request(200000, -2, 500)).is_ok());
    assert!(engine.calculate_development(request(200000, 3, 500)).is_ok());
    assert!(engine.calculate_development(request(200000, 0, 100)).is_ok());
    assert!(engine.calculate_development(request(200000, 0, 2000)).is_ok());
}

#[test]
fn half_degree_rounding_ties_to_even() {
    // 20.25 doubles to 40.5, which ties to the even 40 (20.0 degrees);
    // 20.75 doubles to 41.5, which ties to the even 42 (21.0 degrees).
    let engine = engine_with(mono_database());
    let r = engine.calculate_development(request(202500, 0, 500)).expect("calculation");
    assert_eq!(r.time_minutes.units, 90000);
    let r = engine.calculate_development(request(207500, 0, 500)).expect("calculation");
    assert_eq!(r.time_minutes.units, 99000);
}

#[test]
fn dilution_split_sums_to_volume() {
    let engine = engine_with(mono_database());
    for (notation, volume) in [("1:1", 500u32), ("1:31", 1000), ("2:3", 777), ("1:9", 123)] {
        let (_, dev, water) = engine.calculate_dilution(notation, volume, &FilmType::BlackWhite);
        assert_eq!(dev + water, volume);
    }
    let (_, dev, water) = engine.calculate_dilution("1:31", 1000, &FilmType::BlackWhite);
    assert_eq!(dev, 31);
    assert_eq!(water, 969);
}

#[test]
fn stock_dilution_monochrome() {
    let engine = engine_with(mono_database());
    let (label, dev, water) = engine.calculate_dilution("stock", 500, &FilmType::BlackWhite);
    assert_eq!(label, "Stock");
    assert_eq!(dev, 500);
    assert_eq!(water, 0);
    let (label, dev, water) = engine.calculate_dilution("1:0", 500, &FilmType::BlackWhite);
    assert_eq!(label, "Stock");
    assert_eq!(dev, 500);
    assert_eq!(water, 0);
}

#[test]
fn browsing_accessors() {
    let engine = engine_with(mono_database());
    let films = engine.get_available_films().expect("films");
    assert_eq!(films.len(), 1);
    assert_eq!(films[0].name, "Tri-X 400");
    let keys = engine.get_available_developers_for_film("tri-x-400").expect("keys");
    assert_eq!(keys, vec!["d76".to_string()]);
    assert!(matches!(
        engine.get_available_developers_for_film("none"),
        Err(CalculationError::FilmNotFound(_))
    ));
    let f = engine.get_film_info("tri-x-400").expect("film info");
    assert_eq!(f.iso, 400);
    assert!(matches!(engine.get_film_info("none"), Err(CalculationError::FilmNotFound(_))));
}

#[test]
fn well_formedness_check_rejects_out_of_range_values() {
    let mut db = mono_database();
    db.films[0].1.developers[0].1.time_minutes = Some(fx(1_000_000_001));
    assert!(!db.check_wf());
    let mut db = mono_database();
    db.temperature_compensation[0].1 = fx(-1);
    assert!(!db.check_wf());
    let mut db = mono_database();
    db.films[0].1.developers[0].1.dilution = "0:0".to_string();
    assert!(!db.check_wf());
    assert!(mono_database().check_wf());
}
