//! What the API sends to the frontend.

pub mod views;
