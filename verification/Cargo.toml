[package]
name = "schema_manager"
version = "0.1.0"
edition = "2021"
publish = false

[dependencies]
sea-orm = { version = "1.1", default-features = false, features = ["mock"] }
sea-schema = { version = "0.16" }

[dev-dependencies]
futures = { version = "0.3" }
