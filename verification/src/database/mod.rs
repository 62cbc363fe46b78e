//! The tables of the database and the records of its views.

pub mod tables;
pub mod views;
