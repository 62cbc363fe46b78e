[package]
name = "repair_shop"
version = "0.1.0"
edition = "2021"
publish = false

[dependencies]
rand = "0.8"
chrono = { version = "0.4", features = ["serde"] }
rust_decimal = { version = "1", features = ["serde"] }
serde = { version = "1", features = ["derive"] }
convert_case = "0.6"
syn = "2"
quote = "1"
proc-macro2 = "1"
deluxe = "0.5"
sqlx = { version = "0.8", default-features = false, features = ["postgres", "macros", "chrono", "rust_decimal"] }
