//! The tables of the database, each with the generator of its seed rows.

pub mod bundled_parts;
pub mod customers;
pub mod invoices;
pub mod parts;
pub mod ticket_devices;
pub mod tickets;
pub mod vendors;
