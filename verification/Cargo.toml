[package]
name = "spec_manager"
version = "0.1.0"
edition = "2021"
publish = false

[dependencies]
anyhow = "1"
clap = { version = "4", features = ["derive"] }
cliclack = "*"
colored = "*"
directories = "*"
hex = "0.4"
indexmap = { version = "2", features = ["serde"] }
rusqlite = { version = "*", features = ["bundled"] }
rusqlite_migration = "*"
serde = { version = "1", features = ["derive"] }
serde_json = "1"
sha2 = "0.10"
similar = "*"
tempfile = "*"
thiserror = "*"
toml = "*"
