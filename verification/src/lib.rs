//! Seed-data generation for the tables of a repair-shop database, the shape of the
//! records that its views return, and the column formatting that the API hands to
//! the frontend together with those records.

pub mod random;
pub mod generators;
pub mod database;
pub mod external_types;
pub mod shared_models;
pub mod api;
pub mod derives;
