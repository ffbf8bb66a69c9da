use film_dev::calculator::CalculationEngine;
use film_dev::database::DatabaseError;
use film_dev::database::DatabaseManager;
use film_dev::fixed::Fixed;
use film_dev::models::Database;
use film_dev::models::DatabaseMetadata;
use film_dev::models::DeveloperData;
use film_dev::models::Film;
use film_dev::models::FilmType;

fn fx(units: i64) -> Fixed {
    Fixed { units }
}

fn data(dilution: &str) -> DeveloperData {
    DeveloperData {
        dilution: dilution.to_string(),
        time_minutes: Some(fx(90000)),
        time: None,
        temperature_c: fx(200000),
        agitation_initial_seconds: 30,
        agitation_interval_seconds: 10,
        agitation_frequency_minutes: 1,
        push_1_stop_minutes: None,
        push_2_stop_minutes: None,
        push_3_stop_minutes: None,
        pull_1_stop_minutes: None,
        pull_2_stop_minutes: None,
        developer_time_minutes: None,
        push_1_stop_dev_time: None,
        push_2_stop_dev_time: None,
        pull_1_stop_dev_time: None,
        first_dev_time_minutes: None,
        push_1_stop_first_dev_time: None,
        push_2_stop_first_dev_time: None,
        pull_1_stop_first_dev_time: None,
        dilution_ratio: None,
    }
}

fn film(name: &str, developers: Vec<(String, DeveloperData)>) -> Film {
    Film {
        name: name.to_string(),
        manufacturer: "Maker".to_string(),
        iso: 125,
        film_type: FilmType::BlackWhite,
        process: "standard".to_string(),
        year_released: None,
        current_production: true,
        price_35mm_usd: None,
        alternative_names: vec![],
        description: "test film".to_string(),
        grain: "fine".to_string(),
        contrast: "medium".to_string(),
        best_uses: vec![],
        developers,
    }
}

fn developer(name: &str) -> film_dev::models::Developer {
    film_dev::models::Developer {
        name: name.to_string(),
        manufacturer: "Maker".to_string(),
        developer_type: "liquid".to_string(),
        year_introduced: None,
        price_per_liter_usd: None,
        capacity_rolls_per_liter: None,
        description: "test developer".to_string(),
        characteristics: "fine grain".to_string(),
        dilutions: vec!["1:1".to_string()],
        stock_life_months: None,
        working_life_hours: None,
        safety_notes: None,
    }
}

fn sample_database() -> Database {
    Database {
        films: vec![
            ("fp4".to_string(), film("FP4 Plus", vec![("id11".to_string(), data("1:1"))])),
            ("hp5".to_string(), film("HP5 Plus", vec![
                ("id11".to_string(), data("1:1")),
                ("microphen".to_string(), data("stock")),
            ])),
        ],
        developers: vec![("id11".to_string(), developer("ID-11"))],
        temperature_compensation: vec![(40, fx(10000))],
        metadata: DatabaseMetadata {
            version: "2.1".to_string(),
            last_updated: "2024-06-01".to_string(),
            film_count: 2,
            developer_count: 1,
            total_combinations: 3,
        },
    }
}

#[test]
fn formats_seven_and_a_half_minutes() {
    let engine = CalculationEngine::new();
    assert_eq!(engine.format_time(fx(75000)), "7:30");
}

#[test]
fn formats_rounded_seconds() {
    // 8.0167 minutes is 481.002 seconds, rounding to 8 minutes 1 second.
    let engine = CalculationEngine::new();
    assert_eq!(engine.format_time(fx(80167)), "8:01");
}

#[test]
fn formats_edge_times() {
    let engine = CalculationEngine::new();
    assert_eq!(engine.format_time(fx(0)), "0:00");
    // 59.999 minutes rounds to 3600 seconds: the minute field is unbounded.
    assert_eq!(engine.format_time(fx(599990)), "60:00");
    assert_eq!(engine.format_time(fx(1234500)), "123:27");
}

#[test]
fn parses_dilution_notations() {
    let engine = CalculationEngine::new();
    let r = engine.parse_dilution("1:2");
    assert_eq!((r.developer, r.water), (1, 2));
    // No colon, or more than one: stock.
    let r = engine.parse_dilution("weird");
    assert_eq!((r.developer, r.water), (1, 0));
    let r = engine.parse_dilution("1:2:3");
    assert_eq!((r.developer, r.water), (1, 0));
    // Unparseable segments default per side.
    let r = engine.parse_dilution("abc:5");
    assert_eq!((r.developer, r.water), (1, 5));
    let r = engine.parse_dilution("7:xyz");
    assert_eq!((r.developer, r.water), (7, 0));
    // A numeral too large for the type is unparseable.
    let r = engine.parse_dilution("4294967296:1");
    assert_eq!((r.developer, r.water), (1, 1));
    let r = engine.parse_dilution("0:0");
    assert_eq!((r.developer, r.water), (0, 0));
    // A single leading plus sign is accepted; a second is not.
    let r = engine.parse_dilution("+7:2");
    assert_eq!((r.developer, r.water), (7, 2));
    let r = engine.parse_dilution("++7:2");
    assert_eq!((r.developer, r.water), (1, 2));
    // Empty segments are unparseable and default per side.
    let r = engine.parse_dilution("1:");
    assert_eq!((r.developer, r.water), (1, 0));
    let r = engine.parse_dilution(":1");
    assert_eq!((r.developer, r.water), (1, 1));
    let r = engine.parse_dilution("01:10");
    assert_eq!((r.developer, r.water), (1, 10));
}

#[test]
fn multiplication_rounds_ties_to_even() {
    // 1.5 x 1.0001 = 1.50015: the four-place result ties and rounds to even.
    let a = Fixed { units: 15000 };
    let b = Fixed { units: 10001 };
    assert_eq!(a.mul(b).units, 15002);
    // 0.5 x 0.0001 = 0.00005 ties down to zero.
    let a = Fixed { units: 5000 };
    let b = Fixed { units: 1 };
    assert_eq!(a.mul(b).units, 0);
    assert_eq!(Fixed::from_int(3).units, 30000);
}

#[test]
fn manager_validates_structure() {
    let mut manager = DatabaseManager::new();
    assert!(manager.get_database().is_none());

    let mut empty_films = sample_database();
    empty_films.films.clear();
    let r = manager.load(empty_films);
    assert!(
        matches!(r, Err(DatabaseError::InvalidStructure(m)) if m == "No films found in database")
    );
    assert!(manager.get_database().is_none());

    let mut no_devs = sample_database();
    no_devs.developers.clear();
    let r = manager.load(no_devs);
    assert!(
        matches!(r, Err(DatabaseError::InvalidStructure(m)) if m == "No developers found in database")
    );

    let mut no_comp = sample_database();
    no_comp.temperature_compensation.clear();
    let r = manager.load(no_comp);
    assert!(
        matches!(r, Err(DatabaseError::InvalidStructure(m)) if m == "No temperature compensation data found")
    );

    let mut orphan_film = sample_database();
    orphan_film.films[1].1.developers.clear();
    let r = manager.load(orphan_film);
    assert!(
        matches!(r, Err(DatabaseError::InvalidStructure(m)) if m == "Film 'hp5' has no developer data")
    );

    assert!(manager.load(sample_database()).is_ok());
    assert!(manager.get_database().is_some());
}

#[test]
fn manager_reports_stats() {
    let mut manager = DatabaseManager::new();
    assert!(manager.get_stats().is_none());
    manager.load(sample_database()).expect("valid dataset");
    let stats = manager.get_stats().expect("stats");
    assert_eq!(stats.film_count, 2);
    assert_eq!(stats.developer_count, 1);
    assert_eq!(stats.total_combinations, 3);
    assert_eq!(stats.version, "2.1");
    assert_eq!(stats.last_updated, "2024-06-01");
}

#[test]
fn manager_hands_dataset_over() {
    let mut manager = DatabaseManager::new();
    manager.load(sample_database()).expect("valid dataset");
    let db = manager.take_database().expect("held dataset");
    assert_eq!(db.films.len(), 2);
}
