[package]
name = "pysnaptest"
version = "0.1.0"
edition = "2021"
publish = false

[dependencies]
serde_json = "1"
insta = { version = "1", features = ["json", "csv", "redactions"] }
csv = "1"
once_cell = "1"
