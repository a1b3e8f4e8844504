[package]
name = "fans"
version = "0.1.0"
edition = "2021"
publish = false

[dependencies]
defmt = "*"
log = "0.4"
postcard-schema = { version = "*", features = ["derive"] }
serde = { version = "1", features = ["derive"] }
thiserror = "2"
