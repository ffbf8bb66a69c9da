//! The calculation engine: request validation, film/developer resolution
//! with key-normalization fallbacks, base-time selection with the push/pull
//! table, temperature compensation, dilution splitting, time formatting and
//! advisory notes.

use crate::fixed::div_round_even;
use crate::fixed::div_round_even_u128;
use crate::fixed::lemma_div_round_even_bounds;
use crate::fixed::Fixed;
use crate::models::assoc_get;
use crate::models::lemma_assoc_get_is_elem;
use crate::models::lemma_temp_get_is_elem;
use crate::models::lookup;
use crate::models::temp_get;
use crate::models::temp_lookup;
use crate::models::CalculationRequest;
use crate::models::CalculationResult;
use crate::models::Database;
use crate::models::Developer;
use crate::models::DeveloperData;
use crate::models::DilutionRatio;
use crate::models::Film;
use crate::models::FilmType;
use crate::text::spec_first_two_segments;
use crate::text::spec_fixed_str;
use crate::text::spec_mmss;
use crate::text::spec_ratio;
use crate::text::spec_strip_stock;
use crate::text::spec_strip_variant;
use crate::text::spec_u64_str;
use crate::text::first_two_segments;
use crate::text::fixed_to_string;
use crate::text::format_seconds;
use crate::text::parse_ratio;
use crate::text::str_eq;
use crate::text::strip_stock_suffix;
use crate::text::strip_variant_suffix;
use crate::text::u64_to_string;
use vstd::arithmetic::div_mod::lemma_div_is_ordered;
use vstd::arithmetic::div_mod::lemma_div_multiples_vanish;
use vstd::prelude::*;

verus! {

/// Why a calculation failed; each variant carries the offending value.
#[derive(Clone, PartialEq, Debug)]
pub enum CalculationError {
    FilmNotFound(String),
    DeveloperNotFound(String),
    CombinationNotSupported { film: String, developer: String },
    InvalidTemperature(Fixed),
    InvalidPushPull(i32),
    InvalidVolume(u32),
    DatabaseNotLoaded,
}

/// A calculation error in specification form: text payloads as character
/// sequences, so that contracts compare errors by content.
pub enum ErrorModel {
    FilmNotFound(Seq<char>),
    DeveloperNotFound(Seq<char>),
    CombinationNotSupported(Seq<char>, Seq<char>),
    InvalidTemperature(int),
    InvalidPushPull(int),
    InvalidVolume(int),
    DatabaseNotLoaded,
}

pub open spec fn err_view(e: CalculationError) -> ErrorModel {
    match e {
        CalculationError::FilmNotFound(k) => ErrorModel::FilmNotFound(k@),
        CalculationError::DeveloperNotFound(k) => ErrorModel::DeveloperNotFound(k@),
        CalculationError::CombinationNotSupported { film, developer } => (
        ErrorModel::CombinationNotSupported(film@, developer@)),
        CalculationError::InvalidTemperature(t) => ErrorModel::InvalidTemperature(t.units as int),
        CalculationError::InvalidPushPull(p) => ErrorModel::InvalidPushPull(p as int),
        CalculationError::InvalidVolume(v) => ErrorModel::InvalidVolume(v as int),
        CalculationError::DatabaseNotLoaded => ErrorModel::DatabaseNotLoaded,
    }
}

/// The bounds a request must meet: temperature within 15 to 30 degrees,
/// push/pull within -2 to +3 stops, volume within 100 to 2000 milliliters;
/// the first violated bound names the error.
pub open spec fn spec_validate(req: CalculationRequest) -> Option<ErrorModel> {
    if req.temperature.units < 150000 || req.temperature.units > 300000 {
        Some(ErrorModel::InvalidTemperature(req.temperature.units as int))
    } else if req.push_pull < -2 || req.push_pull > 3 {
        Some(ErrorModel::InvalidPushPull(req.push_pull as int))
    } else if req.volume < 100 || req.volume > 2000 {
        Some(ErrorModel::InvalidVolume(req.volume as int))
    } else {
        None
    }
}

/// The three-tier developer lookup: the key as given, then with a trailing
/// `_stock` or `_kit` variant suffix stripped, then the first two
/// underscore-delimited segments alone.
pub open spec fn spec_resolve_developer(devs: Seq<(String, Developer)>, key: Seq<char>) -> Option<
    Developer,
> {
    if assoc_get(devs, key) is Some {
        assoc_get(devs, key)
    } else if assoc_get(devs, spec_strip_variant(key)) is Some {
        assoc_get(devs, spec_strip_variant(key))
    } else {
        match spec_first_two_segments(key) {
            None => None,
            Some(k2) => assoc_get(devs, k2),
        }
    }
}

/// The two-tier process-data lookup within a film: the key as given, then
/// with a trailing `_stock` suffix stripped.
pub open spec fn spec_resolve_data(film: Film, key: Seq<char>) -> Option<DeveloperData> {
    if assoc_get(film.developers@, key) is Some {
        assoc_get(film.developers@, key)
    } else {
        assoc_get(film.developers@, spec_strip_stock(key))
    }
}

pub open spec fn opt_units(o: Option<Fixed>, default: int) -> int {
    match o {
        Some(f) => f.units as int,
        None => default,
    }
}

/// The base development time in fixed-point units: the family's time field
/// (or its fixed fallback), replaced by the push/pull table entry when the
/// requested stop count is nonzero.  Stop values outside the family's table
/// leave the base time unmodified.
pub open spec fn spec_base_time(ft: FilmType, data: DeveloperData, push_pull: int) -> int {
    let base = match ft {
        FilmType::BlackWhite => match data.time_minutes {
            Some(t) => t.units as int,
            None => opt_units(data.time, 80000),
        },
        FilmType::ColorNegative => opt_units(data.developer_time_minutes, 32500),
        FilmType::Slide => opt_units(data.first_dev_time_minutes, 60000),
    };
    if push_pull == 0 {
        base
    } else {
        match ft {
            FilmType::BlackWhite => if push_pull == 1 {
                opt_units(data.push_1_stop_minutes, div_round_even(base * 14000, 10000))
            } else if push_pull == 2 {
                opt_units(data.push_2_stop_minutes, div_round_even(base * 20000, 10000))
            } else if push_pull == 3 {
                opt_units(data.push_3_stop_minutes, div_round_even(base * 28000, 10000))
            } else if push_pull == -1 {
                opt_units(data.pull_1_stop_minutes, div_round_even(base * 7000, 10000))
            } else if push_pull == -2 {
                opt_units(data.pull_2_stop_minutes, div_round_even(base * 5000, 10000))
            } else {
                base
            },
            FilmType::ColorNegative => if push_pull == 1 {
                opt_units(data.push_1_stop_dev_time, 45000)
            } else if push_pull == 2 {
                opt_units(data.push_2_stop_dev_time, 65000)
            } else if push_pull == -1 {
                opt_units(data.pull_1_stop_dev_time, 25000)
            } else {
                base
            },
            FilmType::Slide => if push_pull == 1 {
                opt_units(data.push_1_stop_first_dev_time, 80000)
            } else if push_pull == 2 {
                opt_units(data.push_2_stop_first_dev_time, 100000)
            } else if push_pull == -1 {
                opt_units(data.pull_1_stop_first_dev_time, 45000)
            } else {
                base
            },
        }
    }
}

/// The requested temperature rounded to the nearest half-degree, counted in
/// half-degrees (the temperature doubled), ties to even.
pub open spec fn spec_half_degrees(temp: Fixed) -> int
    recommends
        0 <= temp.units,
{
    div_round_even(2 * temp.units, 10000)
}

/// Linear interpolation between two factors, `frac_units` of the way from
/// `lo` to `hi` (in fixed-point units of one), rounded to four places.
pub open spec fn spec_interp(lo: int, hi: int, frac_units: int) -> int {
    if hi >= lo {
        lo + div_round_even((hi - lo) * frac_units, 10000)
    } else {
        lo - div_round_even((lo - hi) * frac_units, 10000)
    }
}

/// The compensation factor in fixed-point units for a half-degree count
/// `h`.  Lookup order: the exact half-degree entry; linear interpolation
/// between the bracketing integer-degree entries, weighted by the
/// fractional offset above the floor, when both exist; the floor
/// integer-degree entry when only the upper bracket is missing; else one.
pub open spec fn spec_compensation(table: Seq<(i64, Fixed)>, h: int) -> int {
    let floor_h = 2 * (h / 2);
    match temp_get(table, h) {
        Some(f) => f.units as int,
        None => match (temp_get(table, floor_h), temp_get(table, floor_h + 2)) {
            (Some(lo), Some(hi)) => spec_interp(
                lo.units as int,
                hi.units as int,
                (h - floor_h) * 5000,
            ),
            (Some(lo), None) => lo.units as int,
            _ => 10000,
        },
    }
}

/// The dilution notation shown to the user and the developer and water
/// volumes.  Color-negative and reversal films are ready to use; monochrome
/// splits the volume by the parsed ratio, water taking the remainder.
pub open spec fn spec_dilution(notation: Seq<char>, volume: u32, ft: FilmType) -> (
    Seq<char>,
    int,
    int,
) {
    match ft {
        FilmType::BlackWhite => if notation == "stock"@ || notation == "1:0"@ {
            ("Stock"@, volume as int, 0)
        } else {
            let r = spec_ratio(notation);
            let dev = (volume as int * r.0 as int) / (r.0 as int + r.1 as int);
            (notation, dev, volume as int - dev)
        },
        FilmType::ColorNegative => ("Ready to use"@, volume as int, 0),
        FilmType::Slide => ("Ready to use"@, volume as int, 0),
    }
}

pub open spec fn spec_safety(o: Option<String>) -> Option<Seq<char>> {
    match o {
        Some(s) => Some(s@),
        None => None,
    }
}

/// The push/pull note: direction, absolute stop count, and a correctly
/// pluralized "stop".
pub open spec fn spec_push_note(pp: int) -> Seq<char> {
    let dir = if pp > 0 {
        "Push "@
    } else {
        "Pull "@
    };
    let n = if pp > 0 {
        pp
    } else {
        -pp
    };
    dir + spec_u64_str(n) + (if n == 1 {
        " stop"@
    } else {
        " stops"@
    })
}

/// The advisory notes, in order: process-family note (none for monochrome),
/// temperature note when off 20 degrees, push/pull note when nonzero, and
/// the developer's safety text when present.
pub open spec fn spec_notes(
    ft: FilmType,
    temp_units: int,
    pp: int,
    safety: Option<Seq<char>>,
) -> Seq<Seq<char>> {
    let family = match ft {
        FilmType::ColorNegative => seq!["C-41 Developer"@],
        FilmType::Slide => seq!["E-6 First Developer"@],
        FilmType::BlackWhite => Seq::<Seq<char>>::empty(),
    };
    let with_temp = if temp_units != 200000 {
        family.push("Temperature adjusted for "@ + spec_fixed_str(temp_units) + "\u{b0}C"@)
    } else {
        family
    };
    let with_push = if pp != 0 {
        with_temp.push(spec_push_note(pp))
    } else {
        with_temp
    };
    match safety {
        Some(s) => with_push.push("Safety: "@ + s),
        None => with_push,
    }
}

/// The first failure a calculation hits, in the engine's order: an unloaded
/// dataset, an out-of-bounds input, then an unresolved film, developer or
/// combination; none when the calculation succeeds.
pub open spec fn spec_calc_error(db: Option<Database>, req: CalculationRequest) -> Option<
    ErrorModel,
> {
    match db {
        None => Some(ErrorModel::DatabaseNotLoaded),
        Some(d) => match spec_validate(req) {
            Some(e) => Some(e),
            None => match assoc_get(d.films@, req.film_key@) {
                None => Some(ErrorModel::FilmNotFound(req.film_key@)),
                Some(film) => match spec_resolve_developer(d.developers@, req.developer_key@) {
                    None => Some(ErrorModel::DeveloperNotFound(req.developer_key@)),
                    Some(_) => match spec_resolve_data(film, req.developer_key@) {
                        None => Some(
                            ErrorModel::CombinationNotSupported(film.name@, req.developer_key@),
                        ),
                        Some(_) => None,
                    },
                },
            },
        },
    }
}

/// Everything a successful calculation's result must hold, field by field,
/// for a well-formed dataset `db` and an accepted request `req`.
pub open spec fn spec_result_ok(db: Database, req: CalculationRequest, res: CalculationResult) -> bool {
    let film = assoc_get(db.films@, req.film_key@).unwrap();
    let dev = spec_resolve_developer(db.developers@, req.developer_key@).unwrap();
    let data = spec_resolve_data(film, req.developer_key@).unwrap();
    let base = spec_base_time(film.film_type, data, req.push_pull as int);
    let comp = spec_compensation(db.temperature_compensation@, spec_half_degrees(req.temperature));
    let adjusted = div_round_even(base * comp, 10000);
    let dil = spec_dilution(data.dilution@, req.volume, film.film_type);
    &&& res.time_minutes.units == adjusted
    &&& res.time_formatted@ == spec_mmss(div_round_even(adjusted * 60, 10000))
    &&& res.dilution@ == dil.0
    &&& res.developer_amount == dil.1
    &&& res.water_amount == dil.2
    &&& res.developer_amount + res.water_amount == req.volume
    &&& res.temperature == req.temperature
    &&& res.push_pull == req.push_pull
    &&& res.film_type == film.film_type
    &&& res.film_name@ == film.name@
    &&& res.developer_name@ == dev.name@
    &&& res.notes@.map_values(|s: String| s@) == spec_notes(
        film.film_type,
        req.temperature.units as int,
        req.push_pull as int,
        spec_safety(dev.safety_notes),
    )
}

/// Interpolation at a half-degree point between two table entries lands
/// halfway between them, rounded to four places, and never leaves the
/// interval they span: the compensation curve is followed monotonically
/// between its integer-degree entries.
pub proof fn lemma_interpolation_is_halfway(table: Seq<(i64, Fixed)>, h: int)
    requires
        h % 2 == 1,
        temp_get(table, h) is None,
        temp_get(table, 2 * (h / 2)) is Some,
        temp_get(table, 2 * (h / 2) + 2) is Some,
    ensures
        ({
            let lo = temp_get(table, 2 * (h / 2)).unwrap().units as int;
            let hi = temp_get(table, 2 * (h / 2) + 2).unwrap().units as int;
            &&& spec_compensation(table, h) == spec_interp(lo, hi, 5000)
            &&& (lo <= hi ==> lo <= spec_compensation(table, h) <= hi)
            &&& (hi <= lo ==> hi <= spec_compensation(table, h) <= lo)
        }),
{
    let lo = temp_get(table, 2 * (h / 2)).unwrap().units as int;
    let hi = temp_get(table, 2 * (h / 2) + 2).unwrap().units as int;
    if hi >= lo {
        let x = hi - lo;
        lemma_div_round_even_bounds(x * 5000, 10000);
        assert(x * 5000 / 10000 <= x / 2) by (nonlinear_arith);
        if x == 1 {
            assert(div_round_even(5000, 10000) == 0);
        }
    } else {
        let x = lo - hi;
        lemma_div_round_even_bounds(x * 5000, 10000);
        assert(x * 5000 / 10000 <= x / 2) by (nonlinear_arith);
        if x == 1 {
            assert(div_round_even(5000, 10000) == 0);
        }
    }
}

/// A request whose temperature, push/pull or volume is out of bounds fails
/// with the corresponding error before any lookup: the outcome is the same
/// for every loaded dataset.
pub proof fn lemma_invalid_inputs_rejected(db: Database, req: CalculationRequest)
    ensures
        req.temperature.units < 150000 || req.temperature.units > 300000 ==> spec_calc_error(
            Some(db),
            req,
        ) == Some(ErrorModel::InvalidTemperature(req.temperature.units as int)),
        150000 <= req.temperature.units <= 300000 && (req.push_pull < -2 || req.push_pull > 3)
            ==> spec_calc_error(Some(db), req) == Some(
            ErrorModel::InvalidPushPull(req.push_pull as int),
        ),
        150000 <= req.temperature.units <= 300000 && -2 <= req.push_pull <= 3 && (req.volume < 100
            || req.volume > 2000) ==> spec_calc_error(Some(db), req) == Some(
            ErrorModel::InvalidVolume(req.volume as int),
        ),
{
}

/// Developer-key fallback: a key that misses the collection as given, but
/// hits it once its variant suffix is stripped, resolves to the record
/// under the stripped key.
pub proof fn lemma_developer_key_fallback(devs: Seq<(String, Developer)>, key: Seq<char>)
    requires
        assoc_get(devs, key) is None,
        assoc_get(devs, spec_strip_variant(key)) is Some,
    ensures
        spec_resolve_developer(devs, key) == assoc_get(devs, spec_strip_variant(key)),
{
}

/// Dilution split exactness: for any volume and any ratio with at least one
/// part, the developer and water amounts sum to exactly the requested
/// volume, and the developer amount never exceeds it.
pub proof fn lemma_dilution_split_exact(notation: Seq<char>, volume: u32, ft: FilmType)
    requires
        ft is BlackWhite ==> spec_ratio(notation).0 + spec_ratio(notation).1 > 0,
    ensures
        ({
            let (_, dev, wat) = spec_dilution(notation, volume, ft);
            dev + wat == volume && 0 <= dev <= volume
        }),
{
    if ft is BlackWhite && !(notation == "stock"@ || notation == "1:0"@) {
        let r = spec_ratio(notation);
        let total = r.0 as int + r.1 as int;
        assert(volume as int * r.0 as int <= volume as int * total) by (nonlinear_arith)
            requires
                (r.0 as int) <= total,
                0 <= volume as int,
        ;
        assert(0 <= volume as int * r.0 as int) by (nonlinear_arith)
            requires
                0 <= volume as int,
                0 <= r.0 as int,
        ;
        lemma_div_is_ordered(0, volume as int * r.0 as int, total);
        lemma_div_is_ordered(volume as int * r.0 as int, volume as int * total, total);
        lemma_div_multiples_vanish(volume as int, total);
    }
}

/// The engine: holds the loaded dataset and turns calculation requests into
/// fully resolved results.
pub struct CalculationEngine {
    database: Option<Database>,
}

impl CalculationEngine {
    /// The loaded dataset, none before the first load.
    pub closed spec fn db(self) -> Option<Database> {
        self.database
    }

    /// A loaded dataset is well-formed; the loader checks this before
    /// handing a dataset over.
    pub open spec fn wf(self) -> bool {
        match self.db() {
            None => true,
            Some(d) => d.wf(),
        }
    }

    pub fn new() -> (r: Self)
        ensures
            r.db() is None,
            r.wf(),
    {
        CalculationEngine { database: None }
    }

    /// Installs a validated dataset, replacing any previously loaded one.
    pub fn load_database(&mut self, database: Database)
        requires
            database.wf(),
        ensures
            final(self).db() == Some(database),
            final(self).wf(),
    {
        self.database = Some(database);
    }

    pub fn get_database(&self) -> (r: Result<&Database, CalculationError>)
        ensures
            match r {
                Ok(d) => self.db() == Some(*d),
                Err(e) => self.db() is None && e == CalculationError::DatabaseNotLoaded,
            },
    {
        match &self.database {
            Some(d) => Ok(d),
            None => Err(CalculationError::DatabaseNotLoaded),
        }
    }

    /// Turns a calculation request into a fully resolved result: validates
    /// the request, resolves the film, developer and combination, selects
    /// the base time, applies push/pull and temperature compensation,
    /// splits the volume and assembles the notes.  Fails with exactly the
    /// first error the request hits, never with a partial result.
    pub fn calculate_development(&self, request: CalculationRequest) -> (r: Result<
        CalculationResult,
        CalculationError,
    >)
        requires
            self.wf(),
        ensures
            match r {
                Ok(res) => spec_calc_error(self.db(), request) is None && spec_result_ok(
                    self.db().unwrap(),
                    request,
                    res,
                ),
                Err(e) => spec_calc_error(self.db(), request) == Some(err_view(e)),
            },
    {
        let database: &Database = match self.get_database() {
            Ok(d) => d,
            Err(e) => {
                return Err(e);
            },
        };
        if let Err(e) = self.validate_inputs(&request) {
            return Err(e);
        }
        let film: &Film = match lookup(&database.films, request.film_key.as_str()) {
            Some(f) => f,
            None => {
                return Err(CalculationError::FilmNotFound(request.film_key.clone()));
            },
        };
        proof {
            lemma_assoc_get_is_elem(database.films@, request.film_key@);
        }
        let developer: &Developer = match self.find_developer(
            &database.developers,
            request.developer_key.as_str(),
        ) {
            Ok(d) => d,
            Err(e) => {
                return Err(e);
            },
        };
        let dev_data: &DeveloperData = match self.find_developer_data(
            film,
            request.developer_key.as_str(),
        ) {
            Ok(d) => d,
            Err(e) => {
                return Err(e);
            },
        };
        proof {
            lemma_assoc_get_is_elem(film.developers@, request.developer_key@);
            lemma_assoc_get_is_elem(film.developers@, spec_strip_stock(request.developer_key@));
        }
        let base_time: Fixed = match self.get_base_time(film, dev_data, request.push_pull) {
            Ok(t) => t,
            Err(e) => {
                return Err(e);
            },
        };
        let temp_compensation: Fixed = self.get_temperature_compensation(
            &database.temperature_compensation,
            request.temperature,
        );
        proof {
            assert(base_time.units * temp_compensation.units <= 2_900_000_000_000_000_000)
                by (nonlinear_arith)
                requires
                    0 <= base_time.units <= 2_800_000_001,
                    0 <= temp_compensation.units <= 1_000_000_001,
            ;
            lemma_div_round_even_bounds(
                base_time.units as int * temp_compensation.units as int,
                10000,
            );
            lemma_div_is_ordered(
                base_time.units as int * temp_compensation.units as int,
                2_900_000_000_000_000_000,
                10000,
            );
        }
        let adjusted_time: Fixed = base_time.mul(temp_compensation);
        let dilution_parts: (String, u32, u32) = self.calculate_dilution(
            dev_data.dilution.as_str(),
            request.volume,
            &film.film_type,
        );
        let time_formatted: String = self.format_time(adjusted_time);
        let notes: Vec<String> = self.generate_notes(
            film,
            developer,
            request.temperature,
            request.push_pull,
        );
        Ok(
            CalculationResult {
                time_minutes: adjusted_time,
                time_formatted,
                dilution: dilution_parts.0,
                developer_amount: dilution_parts.1,
                water_amount: dilution_parts.2,
                temperature: request.temperature,
                push_pull: request.push_pull,
                film_type: film.film_type,
                film_name: film.name.clone(),
                developer_name: developer.name.clone(),
                notes,
            },
        )
    }

    /// Rejects a request whose temperature, push/pull or volume is out of
    /// bounds, before any lookup.
    pub fn validate_inputs(&self, request: &CalculationRequest) -> (r: Result<
        (),
        CalculationError,
    >)
        ensures
            match r {
                Ok(_) => spec_validate(*request) is None,
                Err(e) => spec_validate(*request) == Some(err_view(e)),
            },
    {
        if request.temperature.units < 150000 || request.temperature.units > 300000 {
            return Err(CalculationError::InvalidTemperature(request.temperature));
        }
        if request.push_pull < -2 || request.push_pull > 3 {
            return Err(CalculationError::InvalidPushPull(request.push_pull));
        }
        if request.volume < 100 || request.volume > 2000 {
            return Err(CalculationError::InvalidVolume(request.volume));
        }
        Ok(())
    }

    /// Resolves a developer record through the three-tier fallback chain.
    pub fn find_developer<'a>(
        &self,
        developers: &'a Vec<(String, Developer)>,
        developer_key: &str,
    ) -> (r: Result<&'a Developer, CalculationError>)
        ensures
            match r {
                Ok(d) => spec_resolve_developer(developers@, developer_key@) == Some(*d),
                Err(e) => spec_resolve_developer(developers@, developer_key@) is None && err_view(
                    e,
                ) == ErrorModel::DeveloperNotFound(developer_key@),
            },
    {
        if let Some(d) = lookup(developers, developer_key) {
            return Ok(d);
        }
        let base_key: String = strip_variant_suffix(developer_key);
        if let Some(d) = lookup(developers, base_key.as_str()) {
            return Ok(d);
        }
        if let Some(simple_key) = first_two_segments(developer_key) {
            if let Some(d) = lookup(developers, simple_key.as_str()) {
                return Ok(d);
            }
        }
        Err(CalculationError::DeveloperNotFound(developer_key.to_owned()))
    }

    /// Resolves a film's process data for a developer key, stripping a
    /// trailing `_stock` suffix as the fallback.
    pub fn find_developer_data<'a>(&self, film: &'a Film, developer_key: &str) -> (r: Result<
        &'a DeveloperData,
        CalculationError,
    >)
        ensures
            match r {
                Ok(d) => spec_resolve_data(*film, developer_key@) == Some(*d),
                Err(e) => spec_resolve_data(*film, developer_key@) is None && err_view(e)
                    == ErrorModel::CombinationNotSupported(film.name@, developer_key@),
            },
    {
        if let Some(d) = lookup(&film.developers, developer_key) {
            return Ok(d);
        }
        let base_key: String = strip_stock_suffix(developer_key);
        if let Some(d) = lookup(&film.developers, base_key.as_str()) {
            return Ok(d);
        }
        Err(
            CalculationError::CombinationNotSupported {
                film: film.name.clone(),
                developer: developer_key.to_owned(),
            },
        )
    }

    /// Selects the base time for the film's process family and applies the
    /// push/pull table.
    pub fn get_base_time(&self, film: &Film, dev_data: &DeveloperData, push_pull: i32) -> (r:
        Result<Fixed, CalculationError>)
        requires
            dev_data.wf(),
        ensures
            r matches Ok(t) && t.units == spec_base_time(film.film_type, *dev_data, push_pull as int),
            r matches Ok(t) && 0 <= t.units <= 2_800_000_001,
    {
        let base_time: Fixed = match film.film_type {
            FilmType::BlackWhite => match dev_data.time_minutes {
                Some(t) => t,
                None => match dev_data.time {
                    Some(t) => t,
                    None => Fixed::from_units(80000),
                },
            },
            FilmType::ColorNegative => match dev_data.developer_time_minutes {
                Some(t) => t,
                None => Fixed::from_units(32500),
            },
            FilmType::Slide => match dev_data.first_dev_time_minutes {
                Some(t) => t,
                None => Fixed::from_units(60000),
            },
        };
        if push_pull == 0 {
            return Ok(base_time);
        }
        let adjusted: Fixed = match film.film_type {
            FilmType::BlackWhite => {
                if push_pull == 1 {
                    match dev_data.push_1_stop_minutes {
                        Some(t) => t,
                        None => base_time.mul(Fixed::from_units(14000)),
                    }
                } else if push_pull == 2 {
                    match dev_data.push_2_stop_minutes {
                        Some(t) => t,
                        None => base_time.mul(Fixed::from_units(20000)),
                    }
                } else if push_pull == 3 {
                    match dev_data.push_3_stop_minutes {
                        Some(t) => t,
                        None => base_time.mul(Fixed::from_units(28000)),
                    }
                } else if push_pull == -1 {
                    match dev_data.pull_1_stop_minutes {
                        Some(t) => t,
                        None => base_time.mul(Fixed::from_units(7000)),
                    }
                } else if push_pull == -2 {
                    match dev_data.pull_2_stop_minutes {
                        Some(t) => t,
                        None => base_time.mul(Fixed::from_units(5000)),
                    }
                } else {
                    base_time
                }
            },
            FilmType::ColorNegative => {
                if push_pull == 1 {
                    match dev_data.push_1_stop_dev_time {
                        Some(t) => t,
                        None => Fixed::from_units(45000),
                    }
                } else if push_pull == 2 {
                    match dev_data.push_2_stop_dev_time {
                        Some(t) => t,
                        None => Fixed::from_units(65000),
                    }
                } else if push_pull == -1 {
                    match dev_data.pull_1_stop_dev_time {
                        Some(t) => t,
                        None => Fixed::from_units(25000),
                    }
                } else {
                    base_time
                }
            },
            FilmType::Slide => {
                if push_pull == 1 {
                    match dev_data.push_1_stop_first_dev_time {
                        Some(t) => t,
                        None => Fixed::from_units(80000),
                    }
                } else if push_pull == 2 {
                    match dev_data.push_2_stop_first_dev_time {
                        Some(t) => t,
                        None => Fixed::from_units(100000),
                    }
                } else if push_pull == -1 {
                    match dev_data.pull_1_stop_first_dev_time {
                        Some(t) => t,
                        None => Fixed::from_units(45000),
                    }
                } else {
                    base_time
                }
            },
        };
        Ok(adjusted)
    }

    /// The compensation factor for the requested temperature: the exact
    /// half-degree entry; else interpolation between the bracketing
    /// integer-degree entries when both exist; else the floor entry; else
    /// one.
    pub fn get_temperature_compensation(
        &self,
        temp_comp: &Vec<(i64, Fixed)>,
        temperature: Fixed,
    ) -> (r: Fixed)
        requires
            150000 <= temperature.units <= 300000,
            forall|i: int|
                0 <= i < temp_comp@.len() ==> (#[trigger] temp_comp@[i]).1.bounded(),
        ensures
            r.units == spec_compensation(temp_comp@, spec_half_degrees(temperature)),
            0 <= r.units <= 1_000_000_001,
    {
        let x: u64 = 2 * (temperature.units as u64);
        let h: i64 = div_round_even_u128(x as u128, 10000) as i64;
        let floor_h: i64 = 2 * (h / 2);
        proof {
            lemma_temp_get_is_elem(temp_comp@, h as int);
            lemma_temp_get_is_elem(temp_comp@, floor_h as int);
            lemma_temp_get_is_elem(temp_comp@, floor_h + 2);
        }
        if let Some(f) = temp_lookup(temp_comp, h) {
            return f;
        }
        let lower: Option<Fixed> = temp_lookup(temp_comp, floor_h);
        let upper: Option<Fixed> = temp_lookup(temp_comp, floor_h + 2);
        if let (Some(lo), Some(hi)) = (lower, upper) {
            // The rounded temperature is zero or one half-degree above the
            // floor key, so the weight is zero or one half.
            let frac: i64 = (h - floor_h) * 5000;
            if hi.units >= lo.units {
                let d: u64 = (hi.units - lo.units) as u64;
                proof {
                    assert((d as int) * (frac as int) <= 5_000_000_000_000) by (nonlinear_arith)
                        requires
                            0 <= d as int <= 1_000_000_000,
                            0 <= frac as int <= 5000,
                    ;
                    lemma_div_round_even_bounds((d as int) * (frac as int), 10000);
                    if frac == 5000 {
                        assert((d as int) * 5000 / 10000 <= d as int / 2) by (nonlinear_arith);
                    } else {
                        assert((d as int) * (frac as int) == 0) by (nonlinear_arith)
                            requires
                                frac as int == 0,
                        ;
                    }
                }
                let add: u64 = div_round_even_u128((d as u128) * (frac as u128), 10000) as u64;
                return Fixed::from_units(lo.units + add as i64);
            } else {
                let d: u64 = (lo.units - hi.units) as u64;
                proof {
                    assert((d as int) * (frac as int) <= 5_000_000_000_000) by (nonlinear_arith)
                        requires
                            0 <= d as int <= 1_000_000_000,
                            0 <= frac as int <= 5000,
                    ;
                    lemma_div_round_even_bounds((d as int) * (frac as int), 10000);
                    if frac == 5000 {
                        assert((d as int) * 5000 / 10000 <= d as int / 2) by (nonlinear_arith);
                    } else {
                        assert((d as int) * (frac as int) == 0) by (nonlinear_arith)
                            requires
                                frac as int == 0,
                        ;
                    }
                }
                let sub: u64 = div_round_even_u128((d as u128) * (frac as u128), 10000) as u64;
                return Fixed::from_units(lo.units - sub as i64);
            }
        }
        if let Some(lo) = lower {
            return lo;
        }
        Fixed::from_units(10000)
    }

    /// Splits the requested volume by the dilution notation for the film's
    /// process family.  The two amounts always sum to the requested volume.
    pub fn calculate_dilution(&self, dilution_str: &str, volume: u32, film_type: &FilmType) -> (r: (
        String,
        u32,
        u32,
    ))
        requires
            *film_type is BlackWhite ==> spec_ratio(dilution_str@).0 + spec_ratio(
                dilution_str@,
            ).1 > 0,
        ensures
            ({
                let (d, dev, wat) = spec_dilution(dilution_str@, volume, *film_type);
                r.0@ == d && r.1 == dev && r.2 == wat
            }),
            r.1 + r.2 == volume,
    {
        match film_type {
            FilmType::BlackWhite => {
                if str_eq(dilution_str, "stock") || str_eq(dilution_str, "1:0") {
                    ("Stock".to_owned(), volume, 0)
                } else {
                    let ratio: (u32, u32) = parse_ratio(dilution_str);
                    let total: u64 = ratio.0 as u64 + ratio.1 as u64;
                    proof {
                        assert((volume as int) * (ratio.0 as int) < 0x1_0000_0000_0000_0000)
                            by (nonlinear_arith)
                            requires
                                (volume as int) < 0x1_0000_0000,
                                (ratio.0 as int) < 0x1_0000_0000,
                        ;
                    }
                    let product: u128 = (volume as u128) * (ratio.0 as u128);
                    let dev128: u128 = product / (total as u128);
                    proof {
                        assert(volume as int * ratio.0 as int <= volume as int * total as int)
                            by (nonlinear_arith)
                            requires
                                ratio.0 as int <= total as int,
                                0 <= volume as int,
                        ;
                        lemma_div_is_ordered(
                            product as int,
                            volume as int * total as int,
                            total as int,
                        );
                        lemma_div_multiples_vanish(volume as int, total as int);
                        assert(dev128 <= volume);
                    }
                    let developer_amount: u32 = dev128 as u32;
                    let water_amount: u32 = volume - developer_amount;
                    (dilution_str.to_owned(), developer_amount, water_amount)
                }
            },
            FilmType::ColorNegative => ("Ready to use".to_owned(), volume, 0),
            FilmType::Slide => ("Ready to use".to_owned(), volume, 0),
        }
    }

    /// Parses a dilution notation into its parts ratio; parsing never fails,
    /// defaulting to stock.
    pub fn parse_dilution(&self, dilution_str: &str) -> (r: DilutionRatio)
        ensures
            r.developer == spec_ratio(dilution_str@).0,
            r.water == spec_ratio(dilution_str@).1,
    {
        let ratio: (u32, u32) = parse_ratio(dilution_str);
        DilutionRatio { developer: ratio.0, water: ratio.1 }
    }

    /// Assembles the advisory notes: the process-family note, a temperature
    /// note when the request is off the 20-degree nominal, a push/pull note
    /// when the stop count is nonzero, and the developer's safety text.
    pub fn generate_notes(
        &self,
        film: &Film,
        developer: &Developer,
        temperature: Fixed,
        push_pull: i32,
    ) -> (r: Vec<String>)
        requires
            0 <= temperature.units,
            -2 <= push_pull <= 3,
        ensures
            r@.map_values(|s: String| s@) == spec_notes(
                film.film_type,
                temperature.units as int,
                push_pull as int,
                spec_safety(developer.safety_notes),
            ),
    {
        let mut notes: Vec<String> = Vec::new();
        match film.film_type {
            FilmType::ColorNegative => notes.push("C-41 Developer".to_owned()),
            FilmType::Slide => notes.push("E-6 First Developer".to_owned()),
            FilmType::BlackWhite => {},
        }
        if temperature.units != 200000 {
            let mut t: String = String::from_str("Temperature adjusted for ");
            t.append(fixed_to_string(temperature).as_str());
            t.append("\u{b0}C");
            notes.push(t);
        }
        if push_pull != 0 {
            let mut p: String = if push_pull > 0 {
                String::from_str("Push ")
            } else {
                String::from_str("Pull ")
            };
            let n: u64 = if push_pull > 0 {
                push_pull as u64
            } else {
                (-push_pull) as u64
            };
            p.append(u64_to_string(n).as_str());
            if n == 1 {
                p.append(" stop");
            } else {
                p.append(" stops");
            }
            notes.push(p);
        }
        if let Some(safety) = &developer.safety_notes {
            let mut s: String = String::from_str("Safety: ");
            s.append(safety.as_str());
            notes.push(s);
        }
        proof {
            assert(notes@.map_values(|s: String| s@) =~= spec_notes(
                film.film_type,
                temperature.units as int,
                push_pull as int,
                spec_safety(developer.safety_notes),
            ));
        }
        notes
    }

    /// All film records, in dataset order.
    pub fn get_available_films(&self) -> (r: Result<Vec<&Film>, CalculationError>)
        ensures
            match r {
                Ok(films) => self.db() matches Some(d) && films@.len() == d.films@.len()
                    && forall|i: int|
                    0 <= i < films@.len() ==> *(#[trigger] films@[i]) == d.films@[i].1,
                Err(e) => self.db() is None && e == CalculationError::DatabaseNotLoaded,
            },
    {
        let database: &Database = match self.get_database() {
            Ok(d) => d,
            Err(e) => {
                return Err(e);
            },
        };
        let n: usize = database.films.len();
        let mut films: Vec<&Film> = Vec::new();
        let mut i: usize = 0;
        while i < n
            invariant
                n == database.films@.len(),
                0 <= i <= n,
                films@.len() == i,
                forall|j: int|
                    0 <= j < i ==> *(#[trigger] films@[j]) == database.films@[j].1,
            decreases n - i,
        {
            films.push(&database.films[i].1);
            i = i + 1;
        }
        Ok(films)
    }

    /// The developer keys a film's process data supports, in dataset order.
    pub fn get_available_developers_for_film(&self, film_key: &str) -> (r: Result<
        Vec<String>,
        CalculationError,
    >)
        ensures
            match r {
                Ok(keys) => self.db() matches Some(d) && assoc_get(d.films@, film_key@) matches Some(
                    film,
                ) && keys@.len() == film.developers@.len() && forall|i: int|
                    0 <= i < keys@.len() ==> (#[trigger] keys@[i])@ == film.developers@[i].0@,
                Err(e) => match self.db() {
                    None => e == CalculationError::DatabaseNotLoaded,
                    Some(d) => assoc_get(d.films@, film_key@) is None && err_view(e)
                        == ErrorModel::FilmNotFound(film_key@),
                },
            },
    {
        let database: &Database = match self.get_database() {
            Ok(d) => d,
            Err(e) => {
                return Err(e);
            },
        };
        let film: &Film = match lookup(&database.films, film_key) {
            Some(f) => f,
            None => {
                return Err(CalculationError::FilmNotFound(film_key.to_owned()));
            },
        };
        let n: usize = film.developers.len();
        let mut keys: Vec<String> = Vec::new();
        let mut i: usize = 0;
        while i < n
            invariant
                n == film.developers@.len(),
                0 <= i <= n,
                keys@.len() == i,
                forall|j: int|
                    0 <= j < i ==> (#[trigger] keys@[j])@ == film.developers@[j].0@,
            decreases n - i,
        {
            keys.push(film.developers[i].0.clone());
            i = i + 1;
        }
        Ok(keys)
    }

    /// The full film record under a key.
    pub fn get_film_info(&self, film_key: &str) -> (r: Result<&Film, CalculationError>)
        ensures
            match r {
                Ok(f) => self.db() matches Some(d) && assoc_get(d.films@, film_key@) == Some(*f),
                Err(e) => match self.db() {
                    None => e == CalculationError::DatabaseNotLoaded,
                    Some(d) => assoc_get(d.films@, film_key@) is None && err_view(e)
                        == ErrorModel::FilmNotFound(film_key@),
                },
            },
    {
        let database: &Database = match self.get_database() {
            Ok(d) => d,
            Err(e) => {
                return Err(e);
            },
        };
        match lookup(&database.films, film_key) {
            Some(f) => Ok(f),
            None => Err(CalculationError::FilmNotFound(film_key.to_owned())),
        }
    }

    /// The full developer record under a key, through the same three-tier
    /// fallback chain a calculation uses.
    pub fn get_developer_info(&self, developer_key: &str) -> (r: Result<
        &Developer,
        CalculationError,
    >)
        ensures
            match r {
                Ok(d) => self.db() matches Some(db) && spec_resolve_developer(
                    db.developers@,
                    developer_key@,
                ) == Some(*d),
                Err(e) => match self.db() {
                    None => e == CalculationError::DatabaseNotLoaded,
                    Some(db) => spec_resolve_developer(db.developers@, developer_key@) is None
                        && err_view(e) == ErrorModel::DeveloperNotFound(developer_key@),
                },
            },
    {
        let database: &Database = match self.get_database() {
            Ok(d) => d,
            Err(e) => {
                return Err(e);
            },
        };
        self.find_developer(&database.developers, developer_key)
    }

    /// Formats a time in minutes as `M:SS`, rounding to the nearest whole
    /// second, ties to even.
    pub fn format_time(&self, time_minutes: Fixed) -> (r: String)
        requires
            0 <= time_minutes.units <= 300_000_000_000_000,
        ensures
            r@ == spec_mmss(div_round_even(time_minutes.units * 60, 10000)),
    {
        let t: u64 = time_minutes.units as u64;
        let total_seconds: u64 = div_round_even_u128((t as u128) * 60, 10000) as u64;
        format_seconds(total_seconds)
    }
}

} // verus!
