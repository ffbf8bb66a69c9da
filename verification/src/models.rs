//! The reference dataset's record types and the transient request and
//! result types, together with their well-formedness conditions.
//!
//! Record collections are association lists (key/value vectors, first match
//! wins); the dataset is immutable once loaded, so lookup dominates and the
//! list's order is the dataset's own.  Temperature-compensation keys are
//! half-degree counts: a key holds the temperature in degrees doubled, so
//! `20.5` degrees is the key `41`.

use crate::fixed::Fixed;
use crate::text::spec_ratio;
use crate::text::str_eq;
use vstd::prelude::*;

verus! {

/// The process family of a film: monochrome silver, color negative (C-41),
/// or reversal slide (E-6).
#[derive(Clone, Copy, PartialEq, Eq, Structural, Debug)]
pub enum FilmType {
    BlackWhite,
    ColorNegative,
    Slide,
}

/// Per-(film, developer) process parameters.  Which time fields are
/// meaningful depends on the film's process family; a missing field makes
/// the engine fall back to a fixed per-family constant.
#[derive(Clone, PartialEq, Debug)]
pub struct DeveloperData {
    pub dilution: String,
    pub time_minutes: Option<Fixed>,
    pub time: Option<Fixed>,
    pub temperature_c: Fixed,
    pub agitation_initial_seconds: u32,
    pub agitation_interval_seconds: u32,
    pub agitation_frequency_minutes: u32,
    pub push_1_stop_minutes: Option<Fixed>,
    pub push_2_stop_minutes: Option<Fixed>,
    pub push_3_stop_minutes: Option<Fixed>,
    pub pull_1_stop_minutes: Option<Fixed>,
    pub pull_2_stop_minutes: Option<Fixed>,
    pub developer_time_minutes: Option<Fixed>,
    pub push_1_stop_dev_time: Option<Fixed>,
    pub push_2_stop_dev_time: Option<Fixed>,
    pub pull_1_stop_dev_time: Option<Fixed>,
    pub first_dev_time_minutes: Option<Fixed>,
    pub push_1_stop_first_dev_time: Option<Fixed>,
    pub push_2_stop_first_dev_time: Option<Fixed>,
    pub pull_1_stop_first_dev_time: Option<Fixed>,
    pub dilution_ratio: Option<String>,
}

pub open spec fn opt_bounded(o: Option<Fixed>) -> bool {
    match o {
        None => true,
        Some(f) => f.bounded(),
    }
}

fn check_opt_bounded(o: &Option<Fixed>) -> (r: bool)
    ensures
        r == opt_bounded(*o),
{
    match o {
        None => true,
        Some(f) => 0 <= f.units && f.units <= 1_000_000_000,
    }
}

impl DeveloperData {
    /// Every time field is within the fixed-point working range, and the
    /// dilution notation denotes a ratio with at least one part, so that
    /// the volume split is defined.
    pub open spec fn wf(self) -> bool {
        &&& opt_bounded(self.time_minutes)
        &&& opt_bounded(self.time)
        &&& opt_bounded(self.push_1_stop_minutes)
        &&& opt_bounded(self.push_2_stop_minutes)
        &&& opt_bounded(self.push_3_stop_minutes)
        &&& opt_bounded(self.pull_1_stop_minutes)
        &&& opt_bounded(self.pull_2_stop_minutes)
        &&& opt_bounded(self.developer_time_minutes)
        &&& opt_bounded(self.push_1_stop_dev_time)
        &&& opt_bounded(self.push_2_stop_dev_time)
        &&& opt_bounded(self.pull_1_stop_dev_time)
        &&& opt_bounded(self.first_dev_time_minutes)
        &&& opt_bounded(self.push_1_stop_first_dev_time)
        &&& opt_bounded(self.push_2_stop_first_dev_time)
        &&& opt_bounded(self.pull_1_stop_first_dev_time)
        &&& spec_ratio(self.dilution@).0 + spec_ratio(self.dilution@).1 > 0
    }

    pub fn check_wf(&self) -> (r: bool)
        ensures
            r == self.wf(),
    {
        let ratio: (u32, u32) = crate::text::parse_ratio(self.dilution.as_str());
        check_opt_bounded(&self.time_minutes) && check_opt_bounded(&self.time)
            && check_opt_bounded(&self.push_1_stop_minutes) && check_opt_bounded(
            &self.push_2_stop_minutes,
        ) && check_opt_bounded(&self.push_3_stop_minutes) && check_opt_bounded(
            &self.pull_1_stop_minutes,
        ) && check_opt_bounded(&self.pull_2_stop_minutes) && check_opt_bounded(
            &self.developer_time_minutes,
        ) && check_opt_bounded(&self.push_1_stop_dev_time) && check_opt_bounded(
            &self.push_2_stop_dev_time,
        ) && check_opt_bounded(&self.pull_1_stop_dev_time) && check_opt_bounded(
            &self.first_dev_time_minutes,
        ) && check_opt_bounded(&self.push_1_stop_first_dev_time) && check_opt_bounded(
            &self.push_2_stop_first_dev_time,
        ) && check_opt_bounded(&self.pull_1_stop_first_dev_time) && (ratio.0 as u64 + ratio.1
            as u64 > 0)
    }
}

/// A film record: identifying metadata, a process family, and process data
/// for every developer combination the dataset supports for the film.
#[derive(Clone, PartialEq, Debug)]
pub struct Film {
    pub name: String,
    pub manufacturer: String,
    pub iso: u32,
    pub film_type: FilmType,
    pub process: String,
    pub year_released: Option<u32>,
    pub current_production: bool,
    pub price_35mm_usd: Option<Fixed>,
    pub alternative_names: Vec<String>,
    pub description: String,
    pub grain: String,
    pub contrast: String,
    pub best_uses: Vec<String>,
    pub developers: Vec<(String, DeveloperData)>,
}

impl Film {
    pub open spec fn wf(self) -> bool {
        forall|i: int| 0 <= i < self.developers@.len() ==> (#[trigger] self.developers@[i]).1.wf()
    }

    pub fn check_wf(&self) -> (r: bool)
        ensures
            r == self.wf(),
    {
        let n: usize = self.developers.len();
        let mut i: usize = 0;
        while i < n
            invariant
                n == self.developers@.len(),
                0 <= i <= n,
                forall|j: int| 0 <= j < i ==> (#[trigger] self.developers@[j]).1.wf(),
            decreases n - i,
        {
            if !self.developers[i].1.check_wf() {
                return false;
            }
            i = i + 1;
        }
        true
    }
}

/// A developer record: identifying metadata, optional safety text and the
/// dilution notations the developer supports.
#[derive(Clone, PartialEq, Debug)]
pub struct Developer {
    pub name: String,
    pub manufacturer: String,
    pub developer_type: String,
    pub year_introduced: Option<u32>,
    pub price_per_liter_usd: Option<Fixed>,
    pub capacity_rolls_per_liter: Option<u32>,
    pub description: String,
    pub characteristics: String,
    pub dilutions: Vec<String>,
    pub stock_life_months: Option<u32>,
    pub working_life_hours: Option<u32>,
    pub safety_notes: Option<String>,
}

#[derive(Clone, PartialEq, Debug)]
pub struct DatabaseMetadata {
    pub version: String,
    pub last_updated: String,
    pub film_count: u32,
    pub developer_count: u32,
    pub total_combinations: u32,
}

/// The reference dataset: all film and developer records and the
/// temperature-compensation table.  Immutable once loaded.
#[derive(Clone, PartialEq, Debug)]
pub struct Database {
    pub films: Vec<(String, Film)>,
    pub developers: Vec<(String, Developer)>,
    pub temperature_compensation: Vec<(i64, Fixed)>,
    pub metadata: DatabaseMetadata,
}

impl Database {
    /// Every numeric process parameter is in working range and every
    /// dilution notation denotes a splittable ratio.  The engine asks for
    /// this of a loaded dataset; the loader checks it with `check_wf`.
    pub open spec fn wf(self) -> bool {
        &&& forall|i: int| 0 <= i < self.films@.len() ==> (#[trigger] self.films@[i]).1.wf()
        &&& forall|i: int|
            0 <= i < self.temperature_compensation@.len() ==> (
            #[trigger] self.temperature_compensation@[i]).1.bounded()
    }

    pub fn check_wf(&self) -> (r: bool)
        ensures
            r == self.wf(),
    {
        let n: usize = self.films.len();
        let mut i: usize = 0;
        while i < n
            invariant
                n == self.films@.len(),
                0 <= i <= n,
                forall|j: int| 0 <= j < i ==> (#[trigger] self.films@[j]).1.wf(),
            decreases n - i,
        {
            if !self.films[i].1.check_wf() {
                return false;
            }
            i = i + 1;
        }
        let m: usize = self.temperature_compensation.len();
        let mut k: usize = 0;
        while k < m
            invariant
                m == self.temperature_compensation@.len(),
                0 <= k <= m,
                n == self.films@.len(),
                forall|j: int| 0 <= j < n ==> (#[trigger] self.films@[j]).1.wf(),
                forall|j: int|
                    0 <= j < k ==> (#[trigger] self.temperature_compensation@[j]).1.bounded(),
            decreases m - k,
        {
            let f: Fixed = self.temperature_compensation[k].1;
            if !(0 <= f.units && f.units <= 1_000_000_000) {
                return false;
            }
            k = k + 1;
        }
        true
    }
}

/// One calculation's inputs: the chosen film and developer, the processing
/// temperature in degrees Celsius, the push/pull stop count, and the target
/// solution volume in milliliters.
#[derive(Clone, PartialEq, Debug)]
pub struct CalculationRequest {
    pub film_key: String,
    pub developer_key: String,
    pub temperature: Fixed,
    pub push_pull: i32,
    pub volume: u32,
}

/// One calculation's fully resolved outputs.
#[derive(Clone, PartialEq, Debug)]
pub struct CalculationResult {
    pub time_minutes: Fixed,
    pub time_formatted: String,
    pub dilution: String,
    pub developer_amount: u32,
    pub water_amount: u32,
    pub temperature: Fixed,
    pub push_pull: i32,
    pub film_type: FilmType,
    pub film_name: String,
    pub developer_name: String,
    pub notes: Vec<String>,
}

/// A `developer:water` parts ratio parsed from a dilution notation.
#[derive(Clone, Copy, PartialEq, Eq, Structural, Debug)]
pub struct DilutionRatio {
    pub developer: u32,
    pub water: u32,
}

#[derive(Clone, PartialEq, Debug)]
pub struct DatabaseStats {
    pub film_count: usize,
    pub developer_count: usize,
    pub total_combinations: usize,
    pub version: String,
    pub last_updated: String,
}

#[derive(Clone, Copy, PartialEq, Eq, Structural, Debug)]
pub enum ExportFormat {
    Pdf,
    Csv,
    Json,
}

/// A calculation bundled for export by an outside rendering layer.
#[derive(Clone, PartialEq, Debug)]
pub struct ExportData {
    pub calculation: CalculationResult,
    pub timestamp: String,
    pub format: ExportFormat,
}

/// First value under `key` in an association list, none when absent.
pub open spec fn assoc_get<V>(s: Seq<(String, V)>, key: Seq<char>) -> Option<V>
    decreases s.len(),
{
    if s.len() == 0 {
        None
    } else if s[0].0@ == key {
        Some(s[0].1)
    } else {
        assoc_get(s.drop_first(), key)
    }
}

/// A found value is an element of the list, stored under the key.
pub proof fn lemma_assoc_get_is_elem<V>(s: Seq<(String, V)>, key: Seq<char>)
    ensures
        match assoc_get(s, key) {
            Some(v) => exists|i: int|
                0 <= i < s.len() && (#[trigger] s[i]).1 == v && s[i].0@ == key,
            None => true,
        },
    decreases s.len(),
{
    if s.len() > 0 && s[0].0@ != key {
        lemma_assoc_get_is_elem(s.drop_first(), key);
        if assoc_get(s.drop_first(), key) is Some {
            let i = choose|i: int|
                0 <= i < s.drop_first().len() && (#[trigger] s.drop_first()[i]).1 == assoc_get(
                    s.drop_first(),
                    key,
                ).unwrap() && s.drop_first()[i].0@ == key;
            assert(s[i + 1] == s.drop_first()[i]);
        }
    }
}

pub fn lookup<'a, V>(entries: &'a Vec<(String, V)>, key: &str) -> (r: Option<&'a V>)
    ensures
        match r {
            None => assoc_get(entries@, key@) is None,
            Some(v) => assoc_get(entries@, key@) == Some(*v),
        },
{
    let n: usize = entries.len();
    let mut idx: usize = 0;
    proof {
        assert(entries@.skip(0) =~= entries@);
    }
    while idx < n
        invariant
            n == entries@.len(),
            0 <= idx <= n,
            assoc_get(entries@, key@) == assoc_get(entries@.skip(idx as int), key@),
        decreases n - idx,
    {
        if str_eq(entries[idx].0.as_str(), key) {
            proof {
                assert(entries@.skip(idx as int)[0] == entries@[idx as int]);
            }
            return Some(&entries[idx].1);
        }
        proof {
            assert(entries@.skip(idx as int)[0] == entries@[idx as int]);
            assert(entries@.skip(idx as int).drop_first() =~= entries@.skip(idx + 1));
        }
        idx = idx + 1;
    }
    proof {
        assert(entries@.skip(n as int) =~= Seq::<(String, V)>::empty());
    }
    None
}

/// First factor under a half-degree key in the compensation table.
pub open spec fn temp_get(s: Seq<(i64, Fixed)>, key: int) -> Option<Fixed>
    decreases s.len(),
{
    if s.len() == 0 {
        None
    } else if s[0].0 == key {
        Some(s[0].1)
    } else {
        temp_get(s.drop_first(), key)
    }
}

/// A found factor is an element of the table.
pub proof fn lemma_temp_get_is_elem(s: Seq<(i64, Fixed)>, key: int)
    ensures
        match temp_get(s, key) {
            Some(v) => exists|i: int| 0 <= i < s.len() && (#[trigger] s[i]).1 == v && s[i].0 == key,
            None => true,
        },
    decreases s.len(),
{
    if s.len() > 0 && s[0].0 != key {
        lemma_temp_get_is_elem(s.drop_first(), key);
        if temp_get(s.drop_first(), key) is Some {
            let i = choose|i: int|
                0 <= i < s.drop_first().len() && (#[trigger] s.drop_first()[i]).1 == temp_get(
                    s.drop_first(),
                    key,
                ).unwrap() && s.drop_first()[i].0 == key;
            assert(s[i + 1] == s.drop_first()[i]);
        }
    }
}

pub fn temp_lookup(entries: &Vec<(i64, Fixed)>, key: i64) -> (r: Option<Fixed>)
    ensures
        r == temp_get(entries@, key as int),
{
    let n: usize = entries.len();
    let mut idx: usize = 0;
    proof {
        assert(entries@.skip(0) =~= entries@);
    }
    while idx < n
        invariant
            n == entries@.len(),
            0 <= idx <= n,
            temp_get(entries@, key as int) == temp_get(entries@.skip(idx as int), key as int),
        decreases n - idx,
    {
        if entries[idx].0 == key {
            proof {
                assert(entries@.skip(idx as int)[0] == entries@[idx as int]);
            }
            return Some(entries[idx].1);
        }
        proof {
            assert(entries@.skip(idx as int)[0] == entries@[idx as int]);
            assert(entries@.skip(idx as int).drop_first() =~= entries@.skip(idx + 1));
        }
        idx = idx + 1;
    }
    proof {
        assert(entries@.skip(n as int) =~= Seq::<(i64, Fixed)>::empty());
    }
    None
}

} // verus!
