//! Film development calculator: resolves a (film, developer) pair against a
//! reference dataset, selects the base development time for the film's process
//! family, applies push/pull adjustments and temperature compensation, and
//! derives dilution volumes from a ratio notation.
pub mod calculator;
pub mod database;
pub mod fixed;
pub mod models;
pub mod text;
