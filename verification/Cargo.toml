[package]
name = "fluss_columns"
version = "0.1.0"
edition = "2021"
publish = false

[dependencies]
arrow = { version = "57", default-features = false }
arrow-schema = { version = "57", default-features = false }

[dev-dependencies]
bigdecimal = "0.4"
