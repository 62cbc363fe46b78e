//! The records that the database's views return.

pub mod items;
pub mod parts;
pub mod tickets;
