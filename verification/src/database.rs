//! The dataset holder: structural validation of a dataset before it is
//! handed to the engine, and summary statistics.  Reading the dataset from
//! a file or a JSON document is an outside loader's job; this module
//! receives the already-decoded records.

use crate::models::Database;
use crate::models::DatabaseStats;
use crate::models::Film;
use vstd::prelude::*;

verus! {

/// Why a dataset was rejected; the text names the offending part.
#[derive(Clone, PartialEq, Debug)]
pub enum DatabaseError {
    InvalidStructure(String),
}

/// The key of the first film with no process-data entry, none when every
/// film has at least one.
pub open spec fn spec_first_empty_film(films: Seq<(String, Film)>) -> Option<Seq<char>>
    decreases films.len(),
{
    if films.len() == 0 {
        None
    } else if films[0].1.developers@.len() == 0 {
        Some(films[0].0@)
    } else {
        spec_first_empty_film(films.drop_first())
    }
}

/// The message a structurally invalid dataset is rejected with, none when
/// the dataset is acceptable: films, developers and the compensation table
/// must be nonempty, and every film must have process data.
pub open spec fn spec_validate_database(db: Database) -> Option<Seq<char>> {
    if db.films@.len() == 0 {
        Some("No films found in database"@)
    } else if db.developers@.len() == 0 {
        Some("No developers found in database"@)
    } else if db.temperature_compensation@.len() == 0 {
        Some("No temperature compensation data found"@)
    } else {
        match spec_first_empty_film(db.films@) {
            Some(key) => Some("Film '"@ + key + "' has no developer data"@),
            None => None,
        }
    }
}

/// Total process-data entries over all films.
pub open spec fn spec_total_combinations(films: Seq<(String, Film)>) -> int
    decreases films.len(),
{
    if films.len() == 0 {
        0
    } else {
        spec_total_combinations(films.drop_last()) + films.last().1.developers@.len()
    }
}

/// Holds a dataset between loading and hand-over to the engine.
pub struct DatabaseManager {
    database: Option<Database>,
}

impl DatabaseManager {
    /// The held dataset, none before a successful load.
    pub closed spec fn db(self) -> Option<Database> {
        self.database
    }

    pub fn new() -> (r: Self)
        ensures
            r.db() is None,
    {
        DatabaseManager { database: None }
    }

    /// Checks the dataset's structure: nonempty film, developer and
    /// compensation collections, and process data for every film.
    pub fn validate_database(&self, database: &Database) -> (r: Result<(), DatabaseError>)
        ensures
            match r {
                Ok(_) => spec_validate_database(*database) is None,
                Err(e) => e matches DatabaseError::InvalidStructure(m) && spec_validate_database(
                    *database,
                ) == Some(m@),
            },
    {
        if database.films.len() == 0 {
            return Err(
                DatabaseError::InvalidStructure("No films found in database".to_owned()),
            );
        }
        if database.developers.len() == 0 {
            return Err(
                DatabaseError::InvalidStructure("No developers found in database".to_owned()),
            );
        }
        if database.temperature_compensation.len() == 0 {
            return Err(
                DatabaseError::InvalidStructure(
                    "No temperature compensation data found".to_owned(),
                ),
            );
        }
        let n: usize = database.films.len();
        let mut i: usize = 0;
        proof {
            assert(database.films@.skip(0) =~= database.films@);
        }
        while i < n
            invariant
                n == database.films@.len(),
                0 <= i <= n,
                database.films@.len() > 0,
                database.developers@.len() > 0,
                database.temperature_compensation@.len() > 0,
                spec_first_empty_film(database.films@) == spec_first_empty_film(
                    database.films@.skip(i as int),
                ),
            decreases n - i,
        {
            proof {
                assert(database.films@.skip(i as int)[0] == database.films@[i as int]);
                assert(database.films@.skip(i as int).drop_first() =~= database.films@.skip(
                    i + 1,
                ));
            }
            if database.films[i].1.developers.len() == 0 {
                let mut message: String = String::from_str("Film '");
                message.append(database.films[i].0.as_str());
                message.append("' has no developer data");
                proof {
                    assert(message@ =~= "Film '"@ + database.films@[i as int].0@
                        + "' has no developer data"@);
                }
                return Err(DatabaseError::InvalidStructure(message));
            }
            i = i + 1;
        }
        proof {
            assert(database.films@.skip(n as int) =~= Seq::<(String, Film)>::empty());
        }
        Ok(())
    }

    /// Validates a dataset and holds it, replacing any previous one;
    /// a rejected dataset leaves the held one unchanged.
    pub fn load(&mut self, database: Database) -> (r: Result<(), DatabaseError>)
        ensures
            match r {
                Ok(_) => spec_validate_database(database) is None && final(self).db() == Some(
                    database,
                ),
                Err(e) => e matches DatabaseError::InvalidStructure(m) && spec_validate_database(
                    database,
                ) == Some(m@) && final(self).db() == old(self).db(),
            },
    {
        match self.validate_database(&database) {
            Ok(_) => {
                self.database = Some(database);
                Ok(())
            },
            Err(e) => Err(e),
        }
    }

    pub fn get_database(&self) -> (r: Option<&Database>)
        ensures
            match r {
                Some(d) => self.db() == Some(*d),
                None => self.db() is None,
            },
    {
        self.database.as_ref()
    }

    pub fn take_database(self) -> (r: Option<Database>)
        ensures
            r == self.db(),
    {
        self.database
    }

    /// Summary counts of the held dataset; the combination count saturates
    /// at the machine's limit.
    pub fn get_stats(&self) -> (r: Option<DatabaseStats>)
        ensures
            match r {
                None => self.db() is None,
                Some(stats) => self.db() matches Some(d) && stats.film_count == d.films@.len()
                    && stats.developer_count == d.developers@.len() && stats.total_combinations
                    as int == (if spec_total_combinations(d.films@) <= usize::MAX as int {
                    spec_total_combinations(d.films@)
                } else {
                    usize::MAX as int
                }) && stats.version@ == d.metadata.version@ && stats.last_updated@
                    == d.metadata.last_updated@,
            },
    {
        let database: &Database = match &self.database {
            Some(d) => d,
            None => {
                return None;
            },
        };
        let n: usize = database.films.len();
        let mut total: usize = 0;
        let mut i: usize = 0;
        while i < n
            invariant
                n == database.films@.len(),
                0 <= i <= n,
                total as int == (if spec_total_combinations(database.films@.take(i as int))
                    <= usize::MAX as int {
                    spec_total_combinations(database.films@.take(i as int))
                } else {
                    usize::MAX as int
                }),
            decreases n - i,
        {
            proof {
                assert(database.films@.take(i + 1).drop_last() =~= database.films@.take(i as int));
                assert(database.films@.take(i + 1).last() == database.films@[i as int]);
            }
            let entries: usize = database.films[i].1.developers.len();
            if total > usize::MAX - entries {
                total = usize::MAX;
            } else {
                total = total + entries;
            }
            i = i + 1;
        }
        proof {
            assert(database.films@.take(n as int) =~= database.films@);
        }
        Some(
            DatabaseStats {
                film_count: database.films.len(),
                developer_count: database.developers.len(),
                total_combinations: total,
                version: database.metadata.version.clone(),
                last_updated: database.metadata.last_updated.clone(),
            },
        )
    }
}

} // verus!
